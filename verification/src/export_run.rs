//! Whole exports: what holds of every sequence of replies that an export can receive.

use crate::error::{ErrorKind, Failure};
use crate::exporter::{export_start, export_step, ExportModel};
use crate::handle::HandleKind;
use crate::protocol::{answers, ReplyModel, RequestModel};
use crate::render_run::{
    acquired, asked_after, complete, lemma_rendering_settled, orderly, released, render_after,
    render_asks, render_ends, render_releases_what_it_acquired, render_reports, rendering,
};
use crate::settings::TextSetting;
use crate::text::{buffer_text, decoded, BUFFER_CAPACITY};
use vstd::prelude::*;

verus! {

/// The export that started with the player's function table at hand and has received
/// `replies`: its state, and the request that it made last.
pub open spec fn export_after(replies: Seq<ReplyModel>) -> (ExportModel, RequestModel)
    decreases replies.len(),
{
    if replies.len() == 0 {
        export_start(true)
    } else {
        export_step(export_after(replies.drop_last()).0, replies.last())
    }
}

/// Every reply has the shape that the request before it asked for.
pub open spec fn export_orderly(replies: Seq<ReplyModel>) -> bool
    decreases replies.len(),
{
    replies.len() == 0 || (export_orderly(replies.drop_last()) && answers(
        export_after(replies.drop_last()).1,
        replies.last(),
    ))
}

/// The export has reported its outcome.
pub open spec fn export_complete(replies: Seq<ReplyModel>) -> bool {
    export_after(replies).1 is Exported
}

/// How many resources of `kind` the player has handed out in `replies`.
pub open spec fn export_acquired(replies: Seq<ReplyModel>, kind: HandleKind) -> nat
    decreases replies.len(),
{
    if replies.len() == 0 {
        0
    } else {
        let before = replies.drop_last();
        let handed_out = export_after(before).1.acquires() == Some(kind)
            && replies.last().is_present_handle();
        export_acquired(before, kind) + if handed_out {
            1nat
        } else {
            0nat
        }
    }
}

/// How many releases of a resource of `kind` the export has asked for, up to and with the
/// request that follows `replies`.
pub open spec fn export_released(replies: Seq<ReplyModel>, kind: HandleKind) -> nat
    decreases replies.len(),
{
    let earlier = if replies.len() == 0 {
        0nat
    } else {
        export_released(replies.drop_last(), kind)
    };
    earlier + if export_after(replies).1.releases() == Some(kind) {
        1nat
    } else {
        0nat
    }
}

/// How often the export has asked for the file to be written, up to and with the request
/// that follows `replies`.
pub open spec fn writes(replies: Seq<ReplyModel>) -> nat
    decreases replies.len(),
{
    let earlier = if replies.len() == 0 {
        0nat
    } else {
        writes(replies.drop_last())
    };
    earlier + if export_after(replies).1 is Write {
        1nat
    } else {
        0nat
    }
}

/// The path and the content of the write that the export asked for last, if it asked for
/// any.
pub open spec fn written(replies: Seq<ReplyModel>) -> Option<(Seq<char>, Seq<char>)>
    decreases replies.len(),
{
    match export_after(replies).1 {
        RequestModel::Write { path, content } => Some((path, content)),
        _ => if replies.len() == 0 {
            None
        } else {
            written(replies.drop_last())
        },
    }
}

/// Where the export is to write, read off the first reply: nowhere where the output path
/// is empty, else to the path that the buffer holds, if it holds text.
pub open spec fn destination(replies: Seq<ReplyModel>) -> Option<Result<Seq<char>, Failure>> {
    if replies.len() > 0 && replies[0] is Buffer && buffer_text(replies[0]->Buffer_0).len() > 0 {
        Some(decoded(replies[0]->Buffer_0))
    } else {
        None
    }
}

/// The file that an export writes, read off the replies: the text that the render after
/// the first reply produces, at the path that the first reply holds. No file where no
/// path is set, where the path is not text, or where the render fails.
pub open spec fn file(replies: Seq<ReplyModel>) -> Option<(Seq<char>, Seq<char>)> {
    match (destination(replies), rendering(replies.skip(1))) {
        (Some(Ok(path)), Ok(content)) => Some((path, content)),
        _ => None,
    }
}

/// What an export reports, read off the replies: success where no path is set; the
/// failure of the path, of the render or of the write, whichever comes first; else
/// success.
pub open spec fn exporting(replies: Seq<ReplyModel>) -> Result<(), Failure> {
    match destination(replies) {
        None => Ok(()),
        Some(Err(failure)) => Err(failure),
        Some(Ok(_)) => match rendering(replies.skip(1)) {
            Err(failure) => Err(failure),
            Ok(_) => write_outcome(replies.last()),
        },
    }
}

/// What the reply to a write makes of an export: a failure of the file system where the
/// reply brings one, else success.
pub open spec fn write_outcome(reply: ReplyModel) -> Result<(), Failure> {
    match reply {
        ReplyModel::Written(Err(reason)) => Err(Failure { kind: ErrorKind::Io, message: reason }),
        _ => Ok(()),
    }
}

/// What an export asks after `replies`, read off the replies: the first is the output
/// path, then come the replies to the render, the last is the reply to the write.
pub open spec fn export_asked_after(replies: Seq<ReplyModel>) -> RequestModel {
    let inner = replies.skip(1);
    if replies.len() == 0 {
        RequestModel::ReadText { setting: TextSetting::OutPath, capacity: BUFFER_CAPACITY }
    } else {
        match destination(replies) {
            None => RequestModel::Exported(Ok(())),
            Some(Err(failure)) => RequestModel::Exported(Err(failure)),
            Some(Ok(path)) => match asked_after(inner) {
                RequestModel::Rendered(Err(failure)) => RequestModel::Exported(Err(failure)),
                RequestModel::Rendered(Ok(content)) => if inner.len() > 0 && asked_after(
                    inner.drop_last(),
                ) is Rendered {
                    RequestModel::Exported(write_outcome(replies.last()))
                } else {
                    RequestModel::Write { path, content }
                },
                request => request,
            },
        }
    }
}

/// Two replies that an export cannot tell apart: handles that are both zero or both not,
/// buffers that hold the same text, or the same kind of acknowledgement.
pub open spec fn same_answer(a: ReplyModel, b: ReplyModel) -> bool {
    match (a, b) {
        (ReplyModel::Handle(x), ReplyModel::Handle(y)) => (x != 0) == (y != 0),
        (ReplyModel::Buffer(x), ReplyModel::Buffer(y)) => buffer_text(x) == buffer_text(y),
        (ReplyModel::Released, ReplyModel::Released) => true,
        (ReplyModel::Written(_), ReplyModel::Written(_)) => true,
        _ => false,
    }
}

/// Two sequences of replies, answer for answer the same.
pub open spec fn alike(first: Seq<ReplyModel>, second: Seq<ReplyModel>) -> bool {
    &&& first.len() == second.len()
    &&& forall|i: int| 0 <= i < first.len() ==> same_answer(first[i], second[i])
}

/// How the replies received so far determine the state of an export and its last request.
spec fn on_course(replies: Seq<ReplyModel>, kind: HandleKind) -> bool {
    let (model, request) = export_after(replies);
    let n = replies.len();
    let inner = replies.skip(1);
    &&& model.wf()
    &&& model.expects() == request.wants()
    &&& request == export_asked_after(replies)
    &&& match model {
        ExportModel::OutPath => {
            &&& n == 0
            &&& request is ReadText
            &&& export_acquired(replies, kind) == 0
            &&& export_released(replies, kind) == 0
            &&& writes(replies) == 0
            &&& written(replies) is None
        },
        ExportModel::Rendering { path, render } => {
            &&& n >= 1
            &&& destination(replies) == Some(Ok::<Seq<char>, Failure>(path))
            &&& orderly(inner)
            &&& (render, request) == render_after(inner)
            &&& export_acquired(replies, kind) == acquired(inner, kind)
            &&& export_released(replies, kind) == released(inner, kind)
            &&& writes(replies) == 0
            &&& written(replies) is None
        },
        ExportModel::Writing => {
            &&& n >= 2
            &&& orderly(inner)
            &&& complete(inner)
            &&& file(replies) is Some
            &&& request == (RequestModel::Write {
                path: file(replies).unwrap().0,
                content: file(replies).unwrap().1,
            })
            &&& export_acquired(replies, kind) == export_released(replies, kind)
            &&& writes(replies) == 1
            &&& written(replies) == file(replies)
        },
        ExportModel::Finished => {
            &&& n >= 1
            &&& request == RequestModel::Exported(exporting(replies))
            &&& export_acquired(replies, kind) == export_released(replies, kind)
            &&& written(replies) == file(replies)
            &&& writes(replies) == if file(replies) is Some {
                1nat
            } else {
                0nat
            }
            &&& destination(replies) is None ==> n == 1
        },
    }
}

#[verifier::rlimit(20)]
proof fn lemma_on_course(replies: Seq<ReplyModel>, kind: HandleKind)
    requires
        export_orderly(replies),
    ensures
        on_course(replies, kind),
        replies.len() <= 10,
    decreases replies.len(),
{
    if replies.len() > 0 {
        let before = replies.drop_last();
        let reply = replies.last();
        lemma_on_course(before, kind);
        let inner = replies.skip(1);
        assert(forall|i: int| 0 <= i < before.len() ==> before[i] == replies[i]);
        match export_after(before).0 {
            ExportModel::OutPath => {
                assert(inner =~= Seq::<ReplyModel>::empty());
            },
            ExportModel::Rendering { path, render } => {
                assert(inner.drop_last() =~= before.skip(1));
                assert(inner.last() == reply);
                render_ends(inner);
                render_ends(before.skip(1));
                render_asks(inner);
                render_asks(before.skip(1));
                if complete(inner) {
                    render_reports(inner);
                    render_releases_what_it_acquired(inner, kind);
                }
            },
            ExportModel::Writing => {
                let rendered = before.skip(1);
                assert(inner =~= rendered.push(reply));
                assert(inner.drop_last() =~= rendered);
                lemma_rendering_settled(rendered, reply);
                render_ends(rendered);
                render_asks(rendered);
                render_reports(rendered);
            },
            ExportModel::Finished => {},
        }
    }
}

/// An export never asks for more than ten pieces of outside work; its state stays well
/// formed, and until it is over it waits for the answer to its last request.
pub proof fn export_ends(replies: Seq<ReplyModel>)
    requires
        export_orderly(replies),
    ensures
        replies.len() <= 10,
        export_after(replies).0.wf(),
        export_after(replies).0.expects() == export_after(replies).1.wants(),
        export_complete(replies) <==> export_after(replies).0 is Finished,
{
    lemma_on_course(replies, HandleKind::PlayingTrack);
}

/// At every moment an export asks what `export_asked_after` reads off the replies: after
/// the output path come the requests of a render, then the write, then the report.
pub proof fn export_asks(replies: Seq<ReplyModel>)
    requires
        export_orderly(replies),
    ensures
        export_after(replies).1 == export_asked_after(replies),
{
    lemma_on_course(replies, HandleKind::PlayingTrack);
}

/// When an export reports its outcome, whatever the outcome is, it has asked for the
/// release of each kind of resource exactly as often as the player handed one out.
pub proof fn export_releases_what_it_acquired(replies: Seq<ReplyModel>, kind: HandleKind)
    requires
        export_orderly(replies),
        export_complete(replies),
    ensures
        export_released(replies, kind) == export_acquired(replies, kind),
{
    lemma_on_course(replies, kind);
}

/// An export reports what `exporting` reads off the replies, and has written the file
/// that `file` reads off them: once where there is one, and never where there is none.
pub proof fn export_reports(replies: Seq<ReplyModel>)
    requires
        export_orderly(replies),
        export_complete(replies),
    ensures
        export_after(replies).1 == RequestModel::Exported(exporting(replies)),
        written(replies) == file(replies),
        writes(replies) == if file(replies) is Some {
            1nat
        } else {
            0nat
        },
{
    lemma_on_course(replies, HandleKind::PlayingTrack);
}

/// An export that fails has not touched the file, unless what failed is the write itself:
/// a path or a rendered text that is not text ends the export before any write.
pub proof fn export_failure_writes_nothing(replies: Seq<ReplyModel>)
    requires
        export_orderly(replies),
        export_complete(replies),
        exporting(replies) is Err,
    ensures
        exporting(replies)->Err_0.kind is Encoding || exporting(replies)->Err_0.kind is Io,
        exporting(replies)->Err_0.kind is Encoding ==> writes(replies) == 0 && written(replies) is None,
        exporting(replies)->Err_0.kind is Io ==> writes(replies) == 1 && replies.last() is Written,
{
    lemma_on_course(replies, HandleKind::PlayingTrack);
}

/// An export asks at most once for the file to be written.
pub proof fn export_writes_at_most_once(replies: Seq<ReplyModel>)
    requires
        export_orderly(replies),
    ensures
        writes(replies) <= 1,
{
    lemma_on_course(replies, HandleKind::PlayingTrack);
}

/// Where the output path is empty, an export is over after its first request: it reports
/// success and has written nothing.
pub proof fn export_without_path(replies: Seq<ReplyModel>)
    requires
        export_orderly(replies),
        replies.len() > 0,
        destination(replies) is None,
    ensures
        replies.len() == 1,
        export_after(replies).1 == RequestModel::Exported(Ok(())),
        writes(replies) == 0,
        written(replies) is None,
{
    lemma_prefix_orderly(replies, 1);
    let first = replies.take(1);
    assert(first.drop_last() =~= Seq::<ReplyModel>::empty());
    lemma_on_course(first, HandleKind::PlayingTrack);
    if replies.len() > 1 {
        lemma_prefix_orderly(replies, 2);
        assert(replies.take(2).drop_last() =~= first);
    }
    assert(replies =~= first);
    lemma_on_course(replies, HandleKind::PlayingTrack);
}

/// Two exports whose replies are answer for answer the same write the same file: the same
/// text to the same path, or both none. The values of the handles do not matter, nor what
/// a buffer holds behind its terminator.
pub proof fn export_repeats(first: Seq<ReplyModel>, second: Seq<ReplyModel>)
    requires
        export_orderly(first),
        export_complete(first),
        export_orderly(second),
        export_complete(second),
        alike(first, second),
    ensures
        written(first) == written(second),
        writes(first) == writes(second),
{
    export_reports(first);
    export_reports(second);
    lemma_alike_file(first, second);
}

/// What `file` reads off two sequences of replies that are answer for answer the same is
/// the same.
pub proof fn lemma_alike_file(first: Seq<ReplyModel>, second: Seq<ReplyModel>)
    requires
        alike(first, second),
    ensures
        file(first) == file(second),
{
    if first.len() > 0 {
        let a = first.skip(1);
        let b = second.skip(1);
        assert(same_answer(first[0], second[0]));
        if a.len() > 0 {
            assert(same_answer(first[1], second[1]));
        }
        if a.len() > 3 {
            assert(same_answer(first[4], second[4]));
        }
        if a.len() > 4 {
            assert(same_answer(first[5], second[5]));
        }
    }
}

/// The beginning of an orderly sequence of replies is orderly.
pub proof fn lemma_prefix_orderly(replies: Seq<ReplyModel>, n: int)
    requires
        export_orderly(replies),
        0 <= n <= replies.len(),
    ensures
        export_orderly(replies.take(n)),
    decreases replies.len(),
{
    if n == replies.len() {
        assert(replies.take(n) =~= replies);
    } else {
        lemma_prefix_orderly(replies.drop_last(), n);
        assert(replies.drop_last().take(n) =~= replies.take(n));
    }
}

} // verus!
