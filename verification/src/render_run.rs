//! Whole renders: what holds of every sequence of replies that a render can receive.

use crate::error::Failure;
use crate::formatter::{
    nothing_playing, render_start, render_step, wind_down, RenderModel, Stage,
};
use crate::handle::HandleKind;
use crate::protocol::{answers, playing_context, ReplyModel, RequestModel};
use crate::settings::TextSetting;
use crate::text::{buffer_text, decoded, BUFFER_CAPACITY};
use vstd::prelude::*;

verus! {

/// The render that started with the player's function table at hand and has received
/// `replies`: its state, and the request that it made last.
pub open spec fn render_after(replies: Seq<ReplyModel>) -> (RenderModel, RequestModel)
    decreases replies.len(),
{
    if replies.len() == 0 {
        render_start(true)
    } else {
        render_step(render_after(replies.drop_last()).0, replies.last())
    }
}

/// Every reply has the shape that the request before it asked for.
pub open spec fn orderly(replies: Seq<ReplyModel>) -> bool
    decreases replies.len(),
{
    replies.len() == 0 || (orderly(replies.drop_last()) && answers(
        render_after(replies.drop_last()).1,
        replies.last(),
    ))
}

/// The render has reported its outcome.
pub open spec fn complete(replies: Seq<ReplyModel>) -> bool {
    render_after(replies).1 is Rendered
}

/// How many resources of `kind` the player has handed out in `replies`: the replies to an
/// acquisition of that kind that are a handle other than zero.
pub open spec fn acquired(replies: Seq<ReplyModel>, kind: HandleKind) -> nat
    decreases replies.len(),
{
    if replies.len() == 0 {
        0
    } else {
        let before = replies.drop_last();
        let handed_out = render_after(before).1.acquires() == Some(kind)
            && replies.last().is_present_handle();
        acquired(before, kind) + if handed_out {
            1nat
        } else {
            0nat
        }
    }
}

/// How many releases of a resource of `kind` the render has asked for, up to and with the
/// request that follows `replies`.
pub open spec fn released(replies: Seq<ReplyModel>, kind: HandleKind) -> nat
    decreases replies.len(),
{
    let earlier = if replies.len() == 0 {
        0nat
    } else {
        released(replies.drop_last(), kind)
    };
    earlier + if render_after(replies).1.releases() == Some(kind) {
        1nat
    } else {
        0nat
    }
}

/// The handle that the reply at place `at` hands out; zero where there is none.
pub open spec fn handle_at(replies: Seq<ReplyModel>, at: int) -> usize {
    if 0 <= at < replies.len() && replies[at] is Handle {
        replies[at]->Handle_0
    } else {
        0
    }
}

/// The buffer that the reply at place `at` brings; empty where there is none.
pub open spec fn buffer_at(replies: Seq<ReplyModel>, at: int) -> Seq<u8> {
    if 0 <= at < replies.len() && replies[at] is Buffer {
        replies[at]->Buffer_0
    } else {
        Seq::empty()
    }
}

/// The releases that are due for what a render holds, in their order: the script, then
/// the playlist, then the track, each where it is held.
pub open spec fn releases_due(track: usize, playlist: usize, script: usize) -> Seq<RequestModel> {
    let for_script = if script != 0 {
        seq![RequestModel::Release { kind: HandleKind::CompiledScript, raw: script }]
    } else {
        seq![]
    };
    let for_playlist = if playlist != 0 {
        seq![RequestModel::Release { kind: HandleKind::PlayingPlaylist, raw: playlist }]
    } else {
        seq![]
    };
    let for_track = if track != 0 {
        seq![RequestModel::Release { kind: HandleKind::PlayingTrack, raw: track }]
    } else {
        seq![]
    };
    for_script + for_playlist + for_track
}

/// What a render asks once its outcome is known and `done` releases have been made: the
/// next release that is due, or after the last one the report.
pub open spec fn closing(
    track: usize,
    playlist: usize,
    script: usize,
    done: int,
    outcome: Result<Seq<char>, Failure>,
) -> RequestModel {
    let due = releases_due(track, playlist, script);
    if 0 <= done < due.len() {
        due[done]
    } else {
        RequestModel::Rendered(outcome)
    }
}

/// What a render asks after `replies`, read off the replies by their place: the first is
/// the playing track, the second the playlist, the third the format expression, the fourth
/// the compiled expression, the fifth the evaluated text; the rest acknowledge releases.
pub open spec fn asked_after(replies: Seq<ReplyModel>) -> RequestModel {
    let n = replies.len();
    let track = handle_at(replies, 0);
    let playlist = handle_at(replies, 1);
    let script = handle_at(replies, 3);
    if n == 0 {
        RequestModel::AcquireTrack
    } else if track == 0 {
        RequestModel::Rendered(Ok(nothing_playing()))
    } else if n == 1 {
        RequestModel::AcquirePlaylist
    } else if n == 2 {
        RequestModel::ReadText { setting: TextSetting::Format, capacity: BUFFER_CAPACITY }
    } else if n == 3 {
        RequestModel::Compile(buffer_text(buffer_at(replies, 2)))
    } else if script == 0 {
        closing(track, playlist, script, n - 4, Ok(Seq::empty()))
    } else if n == 4 {
        RequestModel::Evaluate {
            context: playing_context(track, playlist),
            script,
            capacity: BUFFER_CAPACITY,
        }
    } else {
        closing(track, playlist, script, n - 5, decoded(buffer_at(replies, 4)))
    }
}

/// What a render reports, read off the replies: the text "no song playing" where no track
/// is playing, the empty text where the format expression did not compile, and else what
/// the evaluated buffer decodes to.
pub open spec fn rendering(replies: Seq<ReplyModel>) -> Result<Seq<char>, Failure> {
    if handle_at(replies, 0) == 0 {
        Ok(nothing_playing())
    } else if handle_at(replies, 3) == 0 {
        Ok(Seq::empty())
    } else {
        decoded(buffer_at(replies, 4))
    }
}

/// The most replies that a render still takes from a given state.
pub open spec fn replies_left(model: RenderModel) -> nat {
    match model.stage {
        Stage::Track => 8,
        Stage::Playlist => 7,
        Stage::Format => 6,
        Stage::Script => 5,
        Stage::Evaluation => 4,
        Stage::Teardown => 1 + releases_due(model.track, model.playlist, model.script).len(),
        Stage::Finished => 0,
    }
}

/// How the replies received so far determine the state of a render and its last request.
spec fn on_course(replies: Seq<ReplyModel>) -> bool {
    let (model, request) = render_after(replies);
    let n = replies.len() as int;
    let track = handle_at(replies, 0);
    let playlist = handle_at(replies, 1);
    let script = handle_at(replies, 3);
    let due = releases_due(track, playlist, script);
    let known: int = if script == 0 {
        4
    } else {
        5
    };
    &&& model.wf()
    &&& model.expects() == request.wants()
    &&& n + replies_left(model) <= 8
    &&& request == asked_after(replies)
    &&& match model.stage {
        Stage::Track => n == 0,
        Stage::Playlist => n == 1 && track != 0 && model.track == track,
        Stage::Format => n == 2 && track != 0 && model.track == track && model.playlist
            == playlist,
        Stage::Script => n == 3 && track != 0 && model.track == track && model.playlist
            == playlist,
        Stage::Evaluation => n == 4 && track != 0 && script != 0 && model.track == track
            && model.playlist == playlist && model.script == script,
        Stage::Teardown => {
            &&& track != 0
            &&& known <= n < known + due.len()
            &&& releases_due(model.track, model.playlist, model.script) == due.skip(n - known + 1)
            &&& model.pending == Some(rendering(replies))
        },
        Stage::Finished => {
            &&& n >= 1
            &&& track == 0 ==> n == 1
            &&& track != 0 ==> n == known + due.len()
        },
    }
}

/// Winding down asks for the first release that is due and leaves the others due, or
/// reports where none is due.
proof fn lemma_wind_down(
    track: usize,
    playlist: usize,
    script: usize,
    outcome: Result<Seq<char>, Failure>,
)
    ensures
        ({
            let due = releases_due(track, playlist, script);
            let (model, request) = wind_down(track, playlist, script, outcome);
            &&& due.len() <= 3
            &&& request == closing(track, playlist, script, 0, outcome)
            &&& model.wf()
            &&& model.expects() == request.wants()
            &&& due.len() == 0 ==> model.stage is Finished
            &&& due.len() > 0 ==> {
                &&& model.stage is Teardown
                &&& model.pending == Some(outcome)
                &&& releases_due(model.track, model.playlist, model.script) == due.skip(1)
            }
        }),
{
    let due = releases_due(track, playlist, script);
    let (model, request) = wind_down(track, playlist, script, outcome);
    if due.len() > 0 {
        assert(releases_due(model.track, model.playlist, model.script) =~= due.skip(1));
    }
}

#[verifier::rlimit(20)]
proof fn lemma_on_course(replies: Seq<ReplyModel>, kind: HandleKind)
    requires
        orderly(replies),
    ensures
        on_course(replies),
        acquired(replies, kind) == released(replies, kind) + if render_after(replies).0.holds(kind) {
            1nat
        } else {
            0nat
        },
    decreases replies.len(),
{
    if replies.len() > 0 {
        let before = replies.drop_last();
        lemma_on_course(before, kind);
        assert(forall|i: int| 0 <= i < before.len() ==> before[i] == replies[i]);
        let (model, request) = render_after(before);
        let track = handle_at(replies, 0);
        let playlist = handle_at(replies, 1);
        let script = handle_at(replies, 3);
        let due = releases_due(track, playlist, script);
        match model.stage {
            Stage::Track => {
                lemma_wind_down(model.track, model.playlist, model.script, Ok(nothing_playing()));
            },
            Stage::Script => {
                lemma_wind_down(model.track, model.playlist, model.script, Ok(Seq::empty()));
            },
            Stage::Evaluation => {
                lemma_wind_down(
                    model.track,
                    model.playlist,
                    model.script,
                    decoded(buffer_at(replies, 4)),
                );
            },
            Stage::Teardown => {
                let known: int = if script == 0 {
                    4
                } else {
                    5
                };
                let done = before.len() - known + 1;
                let rest = releases_due(model.track, model.playlist, model.script);
                lemma_wind_down(model.track, model.playlist, model.script, model.pending.unwrap());
                assert(rest == due.skip(done));
                if rest.len() > 0 {
                    assert(rest[0] == due[done]);
                    assert(rest.skip(1) =~= due.skip(done + 1));
                }
            },
            _ => {},
        }
    }
}

/// A render never asks for more than eight pieces of outside work; its state stays well
/// formed, and until it is over it waits for the answer to its last request.
pub proof fn render_ends(replies: Seq<ReplyModel>)
    requires
        orderly(replies),
    ensures
        replies.len() + replies_left(render_after(replies).0) <= 8,
        render_after(replies).0.wf(),
        render_after(replies).0.expects() == render_after(replies).1.wants(),
        complete(replies) <==> render_after(replies).0.stage is Finished,
{
    lemma_on_course(replies, HandleKind::PlayingTrack);
}

/// At every moment of a render, the releases asked for of each kind of resource number as
/// many as the resources of that kind that were handed out, less the one that is still
/// held: never more releases than acquisitions, and never more than one resource held.
pub proof fn render_accounts_for_handles(replies: Seq<ReplyModel>, kind: HandleKind)
    requires
        orderly(replies),
    ensures
        acquired(replies, kind) == released(replies, kind) + if render_after(replies).0.holds(kind) {
            1nat
        } else {
            0nat
        },
        released(replies, kind) <= acquired(replies, kind),
{
    lemma_on_course(replies, kind);
}

/// When a render reports its outcome, whatever the outcome is, it has asked for the
/// release of each kind of resource exactly as often as the player handed one out.
pub proof fn render_releases_what_it_acquired(replies: Seq<ReplyModel>, kind: HandleKind)
    requires
        orderly(replies),
        complete(replies),
    ensures
        released(replies, kind) == acquired(replies, kind),
{
    lemma_on_course(replies, kind);
}

/// At every moment a render asks what `asked_after` reads off the replies: which request
/// comes when, which handle goes into the evaluation, and which one into which release.
pub proof fn render_asks(replies: Seq<ReplyModel>)
    requires
        orderly(replies),
    ensures
        render_after(replies).1 == asked_after(replies),
{
    lemma_on_course(replies, HandleKind::PlayingTrack);
}

/// A render reports what `rendering` reads off the replies.
pub proof fn render_reports(replies: Seq<ReplyModel>)
    requires
        orderly(replies),
        complete(replies),
    ensures
        render_after(replies).1 == RequestModel::Rendered(rendering(replies)),
{
    lemma_on_course(replies, HandleKind::PlayingTrack);
}

/// While no track is playing, a render is over after its first request: it reports the
/// text "no song playing", and has acquired, released and written nothing.
pub proof fn render_without_track(replies: Seq<ReplyModel>)
    requires
        orderly(replies),
        replies.len() > 0,
        handle_at(replies, 0) == 0,
    ensures
        replies.len() == 1,
        render_after(replies).1 == RequestModel::Rendered(Ok(nothing_playing())),
        forall|kind: HandleKind| acquired(replies, kind) == 0 && released(replies, kind) == 0,
{
    lemma_on_course(replies, HandleKind::PlayingTrack);
    let first = replies.take(1);
    assert(first.drop_last() =~= Seq::<ReplyModel>::empty());
    assert(first.last() == replies[0]);
    lemma_prefix_orderly(replies, 1);
    lemma_on_course(first, HandleKind::PlayingTrack);
    if replies.len() > 1 {
        lemma_prefix_orderly(replies, 2);
        let two = replies.take(2);
        assert(two.drop_last() =~= first);
    }
    assert(replies =~= first);
    assert forall|kind: HandleKind| acquired(replies, kind) == 0 && released(replies, kind) == 0 by {
        assert(acquired(first.drop_last(), kind) == 0);
        assert(released(first.drop_last(), kind) == 0);
    }
}

/// Where the format expression does not compile, an empty one included, a render reports
/// the empty text and no failure.
pub proof fn render_without_script(replies: Seq<ReplyModel>)
    requires
        orderly(replies),
        complete(replies),
        replies.len() > 3,
        handle_at(replies, 3) == 0,
    ensures
        render_after(replies).1 == RequestModel::Rendered(Ok(Seq::empty())),
{
    lemma_on_course(replies, HandleKind::PlayingTrack);
}

/// A render asks for nothing but what rendering takes: it never writes a file, reads no
/// setting but the format expression, and reports as a render does.
pub proof fn render_never_writes(replies: Seq<ReplyModel>)
    requires
        orderly(replies),
    ensures
        !(render_after(replies).1 is Write),
        !(render_after(replies).1 is Exported),
{
    lemma_on_course(replies, HandleKind::PlayingTrack);
}

/// Once a render has reported, a further reply changes nothing in what is read off the
/// replies.
pub proof fn lemma_rendering_settled(replies: Seq<ReplyModel>, reply: ReplyModel)
    requires
        orderly(replies),
        complete(replies),
    ensures
        rendering(replies.push(reply)) == rendering(replies),
        asked_after(replies.push(reply)) == asked_after(replies),
{
    lemma_on_course(replies, HandleKind::PlayingTrack);
    let more = replies.push(reply);
    assert(forall|i: int| 0 <= i < replies.len() ==> more[i] == replies[i]);
}

/// The beginning of an orderly sequence of replies is orderly.
pub proof fn lemma_prefix_orderly(replies: Seq<ReplyModel>, n: int)
    requires
        orderly(replies),
        0 <= n <= replies.len(),
    ensures
        orderly(replies.take(n)),
    decreases replies.len(),
{
    if n == replies.len() {
        assert(replies.take(n) =~= replies);
    } else {
        lemma_prefix_orderly(replies.drop_last(), n);
        assert(replies.drop_last().take(n) =~= replies.take(n));
    }
}

} // verus!
