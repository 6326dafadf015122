//! Rendering the format expression against the playing track.
//!
//! A render borrows up to three resources from the player: the playing track, the current
//! playlist and the compiled format expression. Whatever way the render ends, it asks for
//! the release of each resource that it was handed, once, before it reports its outcome.

use crate::error::{api_unavailable, Failure, NowPlayingError};
use crate::handle::{HandleKind, ScopedHandle};
use crate::protocol::{
    playing_context, EvaluationContext, Reply, ReplyKind, ReplyModel, Request, RequestModel,
};
use crate::settings::TextSetting;
use crate::text::{
    buffer_text, decode_buffer, decoded, outcome_view, text_of_buffer, BUFFER_CAPACITY,
};
use vstd::prelude::*;
use vstd::string::*;

verus! {

/// The text rendered while no track is playing.
pub open spec fn nothing_playing() -> Seq<char> {
    "no song playing"@
}

/// Where a render stands: the outside work whose result it is waiting for.
#[derive(Clone, Copy, Debug, PartialEq, Eq, Structural)]
pub enum Stage {
    /// The playing track was asked for.
    Track,
    /// The current playlist was asked for.
    Playlist,
    /// The format expression is being read from the settings.
    Format,
    /// The format expression is being compiled.
    Script,
    /// The compiled expression is being evaluated.
    Evaluation,
    /// A resource is being given back; the outcome is known.
    Teardown,
    /// The outcome was reported.
    Finished,
}

/// A render as a mathematical value.
pub struct RenderModel {
    pub stage: Stage,
    /// The playing track, or zero where none is held.
    pub track: usize,
    /// The current playlist, or zero where none is held.
    pub playlist: usize,
    /// The compiled format expression, or zero where none is held.
    pub script: usize,
    /// The outcome, from the moment it is known until it is reported.
    pub pending: Option<Result<Seq<char>, Failure>>,
}

impl RenderModel {
    /// What each stage holds.
    pub open spec fn wf(self) -> bool {
        &&& self.stage is Teardown <==> self.pending is Some
        &&& match self.stage {
            Stage::Track => self.track == 0 && self.playlist == 0 && self.script == 0,
            Stage::Playlist => self.track != 0 && self.playlist == 0 && self.script == 0,
            Stage::Format => self.track != 0 && self.script == 0,
            Stage::Script => self.track != 0 && self.script == 0,
            Stage::Evaluation => self.track != 0 && self.script != 0,
            Stage::Teardown => true,
            Stage::Finished => self.track == 0 && self.playlist == 0 && self.script == 0,
        }
    }

    /// The shape of the reply that the render is waiting for; `None` once it is over.
    pub open spec fn expects(self) -> Option<ReplyKind> {
        match self.stage {
            Stage::Track => Some(ReplyKind::Handle),
            Stage::Playlist => Some(ReplyKind::Handle),
            Stage::Format => Some(ReplyKind::Buffer),
            Stage::Script => Some(ReplyKind::Handle),
            Stage::Evaluation => Some(ReplyKind::Buffer),
            Stage::Teardown => Some(ReplyKind::Released),
            Stage::Finished => None,
        }
    }

    /// A resource of this kind is held and its release has not been asked for.
    pub open spec fn holds(self, kind: HandleKind) -> bool {
        match kind {
            HandleKind::PlayingTrack => self.track != 0,
            HandleKind::PlayingPlaylist => self.playlist != 0,
            HandleKind::CompiledScript => self.script != 0,
        }
    }
}

/// The end of a render whose outcome is known: the release of the first resource that is
/// still held (script, then playlist, then track), or the report once none is.
pub open spec fn wind_down(
    track: usize,
    playlist: usize,
    script: usize,
    outcome: Result<Seq<char>, Failure>,
) -> (RenderModel, RequestModel) {
    if script != 0 {
        (
            RenderModel { stage: Stage::Teardown, track, playlist, script: 0, pending: Some(outcome) },
            RequestModel::Release { kind: HandleKind::CompiledScript, raw: script },
        )
    } else if playlist != 0 {
        (
            RenderModel { stage: Stage::Teardown, track, playlist: 0, script, pending: Some(outcome) },
            RequestModel::Release { kind: HandleKind::PlayingPlaylist, raw: playlist },
        )
    } else if track != 0 {
        (
            RenderModel { stage: Stage::Teardown, track: 0, playlist, script, pending: Some(outcome) },
            RequestModel::Release { kind: HandleKind::PlayingTrack, raw: track },
        )
    } else {
        (
            RenderModel { stage: Stage::Finished, track, playlist, script, pending: None },
            RequestModel::Rendered(outcome),
        )
    }
}

/// The start of a render: with the player's function table at hand it asks for the playing
/// track, without it the render is over at once.
pub open spec fn render_start(api_bound: bool) -> (RenderModel, RequestModel) {
    if api_bound {
        (
            RenderModel { stage: Stage::Track, track: 0, playlist: 0, script: 0, pending: None },
            RequestModel::AcquireTrack,
        )
    } else {
        (
            RenderModel { stage: Stage::Finished, track: 0, playlist: 0, script: 0, pending: None },
            RequestModel::Rendered(Err(api_unavailable())),
        )
    }
}

/// One step of a render: the state after `reply`, and the next request.
///
/// Of a reply that does not have the shape that the stage is waiting for, nothing is said.
pub open spec fn render_step(model: RenderModel, reply: ReplyModel) -> (RenderModel, RequestModel) {
    match (model.stage, reply) {
        (Stage::Track, ReplyModel::Handle(raw)) => if raw == 0 {
            wind_down(model.track, model.playlist, model.script, Ok(nothing_playing()))
        } else {
            (RenderModel { stage: Stage::Playlist, track: raw, ..model }, RequestModel::AcquirePlaylist)
        },
        (Stage::Playlist, ReplyModel::Handle(raw)) => (
            RenderModel { stage: Stage::Format, playlist: raw, ..model },
            RequestModel::ReadText { setting: TextSetting::Format, capacity: BUFFER_CAPACITY },
        ),
        (Stage::Format, ReplyModel::Buffer(bytes)) => (
            RenderModel { stage: Stage::Script, ..model },
            RequestModel::Compile(buffer_text(bytes)),
        ),
        (Stage::Script, ReplyModel::Handle(raw)) => if raw == 0 {
            wind_down(model.track, model.playlist, model.script, Ok(Seq::empty()))
        } else {
            (
                RenderModel { stage: Stage::Evaluation, script: raw, ..model },
                RequestModel::Evaluate {
                    context: playing_context(model.track, model.playlist),
                    script: raw,
                    capacity: BUFFER_CAPACITY,
                },
            )
        },
        (Stage::Evaluation, ReplyModel::Buffer(bytes)) => wind_down(
            model.track,
            model.playlist,
            model.script,
            decoded(bytes),
        ),
        (Stage::Teardown, ReplyModel::Released) => wind_down(
            model.track,
            model.playlist,
            model.script,
            model.pending.unwrap(),
        ),
        _ => (model, arbitrary()),
    }
}

/// A render in progress.
#[derive(Debug)]
#[must_use]
pub struct Formatter {
    stage: Stage,
    track: ScopedHandle,
    playlist: ScopedHandle,
    script: ScopedHandle,
    pending: Option<Result<String, NowPlayingError>>,
}

impl View for Formatter {
    type V = RenderModel;

    closed spec fn view(&self) -> RenderModel {
        RenderModel {
            stage: self.stage,
            track: self.track.raw(),
            playlist: self.playlist.raw(),
            script: self.script.raw(),
            pending: match self.pending {
                Some(outcome) => Some(outcome_view(outcome)),
                None => None,
            },
        }
    }
}

impl Formatter {
    #[verifier::type_invariant]
    spec fn inv(self) -> bool {
        &&& self@.wf()
        &&& self.track.kind() == HandleKind::PlayingTrack
        &&& self.playlist.kind() == HandleKind::PlayingPlaylist
        &&& self.script.kind() == HandleKind::CompiledScript
    }

    /// Begins a render. `api_bound` says whether the player's function table is at hand.
    pub fn start(api_bound: bool) -> (begun: (Formatter, Request))
        ensures
            (begun.0@, begun.1@) == render_start(api_bound),
            begun.0@.wf(),
            begun.0@.expects() == begun.1@.wants(),
    {
        let track = ScopedHandle::absent(HandleKind::PlayingTrack);
        let playlist = ScopedHandle::absent(HandleKind::PlayingPlaylist);
        let script = ScopedHandle::absent(HandleKind::CompiledScript);
        if api_bound {
            (
                Formatter { stage: Stage::Track, track, playlist, script, pending: None },
                Request::AcquireTrack,
            )
        } else {
            (
                Formatter { stage: Stage::Finished, track, playlist, script, pending: None },
                Request::Rendered(Err(NowPlayingError::api_unavailable())),
            )
        }
    }

    /// Whether the render is waiting for a reply of this shape.
    pub fn expects(&self, kind: ReplyKind) -> (waiting: bool)
        ensures
            waiting == (self@.expects() == Some(kind)),
    {
        match self.stage {
            Stage::Track => kind == ReplyKind::Handle,
            Stage::Playlist => kind == ReplyKind::Handle,
            Stage::Format => kind == ReplyKind::Buffer,
            Stage::Script => kind == ReplyKind::Handle,
            Stage::Evaluation => kind == ReplyKind::Buffer,
            Stage::Teardown => kind == ReplyKind::Released,
            Stage::Finished => false,
        }
    }

    /// Ends the render with `outcome`: asks for the release of the next resource that is
    /// still held, or reports the outcome once none is.
    fn wind_down(
        track: ScopedHandle,
        playlist: ScopedHandle,
        script: ScopedHandle,
        outcome: Result<String, NowPlayingError>,
    ) -> (next: (Formatter, Request))
        requires
            track.kind() == HandleKind::PlayingTrack,
            playlist.kind() == HandleKind::PlayingPlaylist,
            script.kind() == HandleKind::CompiledScript,
        ensures
            (next.0@, next.1@) == wind_down(
                track.raw(),
                playlist.raw(),
                script.raw(),
                outcome_view(outcome),
            ),
    {
        let mut track = track;
        let mut playlist = playlist;
        let mut script = script;
        if let Some(raw) = script.release() {
            (
                Formatter { stage: Stage::Teardown, track, playlist, script, pending: Some(outcome) },
                Request::Release { kind: HandleKind::CompiledScript, raw },
            )
        } else if let Some(raw) = playlist.release() {
            (
                Formatter { stage: Stage::Teardown, track, playlist, script, pending: Some(outcome) },
                Request::Release { kind: HandleKind::PlayingPlaylist, raw },
            )
        } else if let Some(raw) = track.release() {
            (
                Formatter { stage: Stage::Teardown, track, playlist, script, pending: Some(outcome) },
                Request::Release { kind: HandleKind::PlayingTrack, raw },
            )
        } else {
            (
                Formatter { stage: Stage::Finished, track, playlist, script, pending: None },
                Request::Rendered(outcome),
            )
        }
    }

    /// Takes the reply to the last request and says what to do next.
    ///
    /// A reply that does not have the shape that the render is waiting for is not taken:
    /// the render comes back as it was.
    pub fn step(self, reply: Reply) -> (stepped: Result<(Formatter, Request), Formatter>)
        ensures
            stepped is Ok <==> self@.expects() == Some(reply@.kind()),
            stepped matches Ok(next) ==> {
                &&& (next.0@, next.1@) == render_step(self@, reply@)
                &&& next.0@.wf()
                &&& next.0@.expects() == next.1@.wants()
            },
            stepped matches Err(same) ==> same@ == self@,
    {
        proof {
            use_type_invariant(&self);
        }
        let Formatter { stage, track, playlist, script, pending } = self;
        match (stage, reply) {
            (Stage::Track, Reply::Handle(raw)) => {
                if raw == 0 {
                    Ok(
                        Formatter::wind_down(
                            track,
                            playlist,
                            script,
                            Ok(String::from_str("no song playing")),
                        ),
                    )
                } else {
                    let track = ScopedHandle::acquire(HandleKind::PlayingTrack, raw);
                    Ok(
                        (
                            Formatter { stage: Stage::Playlist, track, playlist, script, pending },
                            Request::AcquirePlaylist,
                        ),
                    )
                }
            },
            (Stage::Playlist, Reply::Handle(raw)) => {
                let playlist = ScopedHandle::acquire(HandleKind::PlayingPlaylist, raw);
                Ok(
                    (
                        Formatter { stage: Stage::Format, track, playlist, script, pending },
                        Request::ReadText {
                            setting: TextSetting::Format,
                            capacity: BUFFER_CAPACITY,
                        },
                    ),
                )
            },
            (Stage::Format, Reply::Buffer(bytes)) => {
                let expression = text_of_buffer(bytes.as_slice());
                Ok(
                    (
                        Formatter { stage: Stage::Script, track, playlist, script, pending },
                        Request::Compile(expression),
                    ),
                )
            },
            (Stage::Script, Reply::Handle(raw)) => {
                if raw == 0 {
                    Ok(Formatter::wind_down(track, playlist, script, Ok(String::new())))
                } else {
                    let script = ScopedHandle::acquire(HandleKind::CompiledScript, raw);
                    let context = EvaluationContext::playing(track.get_raw(), playlist.get_raw());
                    Ok(
                        (
                            Formatter { stage: Stage::Evaluation, track, playlist, script, pending },
                            Request::Evaluate { context, script: raw, capacity: BUFFER_CAPACITY },
                        ),
                    )
                }
            },
            (Stage::Evaluation, Reply::Buffer(bytes)) => {
                let outcome = decode_buffer(bytes.as_slice());
                Ok(Formatter::wind_down(track, playlist, script, outcome))
            },
            (Stage::Teardown, Reply::Released) => {
                match pending {
                    Some(outcome) => Ok(Formatter::wind_down(track, playlist, script, outcome)),
                    None => Err(Formatter { stage, track, playlist, script, pending: None }),
                }
            },
            (stage, _) => Err(Formatter { stage, track, playlist, script, pending }),
        }
    }
}

} // verus!
