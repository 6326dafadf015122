//! The exchange between the decision core and the program that hosts it.
//!
//! The core asks for one piece of outside work at a time with a [`Request`]; the host
//! performs it and answers with the matching [`Reply`].

use crate::error::{Failure, NowPlayingError};
use crate::handle::HandleKind;
use crate::settings::TextSetting;
use vstd::prelude::*;

verus! {

/// The collection of tracks that an evaluation iterates over.
#[derive(Clone, Copy, Debug, PartialEq, Eq, Structural)]
pub enum Iteration {
    /// The playlist as shown.
    Main,
    /// The search results.
    Search,
}

/// What a compiled format expression is evaluated against.
#[derive(Clone, Copy, Debug, PartialEq, Eq, Structural)]
pub struct EvaluationContext {
    /// The playing track.
    pub track: usize,
    /// The current playlist, or zero where the player has none.
    pub playlist: usize,
    /// Switches of the evaluation.
    pub flags: u32,
    /// The index of the track, as the evaluation is told it.
    pub index: i32,
    /// The id of the column, as the evaluation is told it.
    pub id: i32,
    /// The collection of tracks that the evaluation iterates over.
    pub iteration: Iteration,
    /// Filled in by the evaluation.
    pub update: i32,
    /// Filled in by the evaluation.
    pub dimmed: i32,
}

/// The context for rendering the playing track: the main iteration, everything else zero.
pub open spec fn playing_context(track: usize, playlist: usize) -> EvaluationContext {
    EvaluationContext {
        track,
        playlist,
        flags: 0,
        index: 0,
        id: 0,
        iteration: Iteration::Main,
        update: 0,
        dimmed: 0,
    }
}

impl EvaluationContext {
    /// The context for rendering the playing track.
    pub fn playing(track: usize, playlist: usize) -> (context: EvaluationContext)
        ensures
            context == playing_context(track, playlist),
    {
        EvaluationContext {
            track,
            playlist,
            flags: 0,
            index: 0,
            id: 0,
            iteration: Iteration::Main,
            update: 0,
            dimmed: 0,
        }
    }
}

/// The shapes of a reply.
#[derive(Clone, Copy, Debug, PartialEq, Eq, Structural)]
pub enum ReplyKind {
    /// What the player handed out.
    Handle,
    /// A buffer that the player filled.
    Buffer,
    /// The acknowledgement of a release.
    Released,
    /// The result of a write.
    Written,
}

/// One piece of outside work, or the end of a session.
#[derive(Debug, PartialEq, Eq)]
pub enum Request {
    /// Read a text setting into a buffer of `capacity` bytes.
    ReadText { setting: TextSetting, capacity: usize },
    /// Get the playing track, with a reference taken on it.
    AcquireTrack,
    /// Get the current playlist, with a reference taken on it.
    AcquirePlaylist,
    /// Compile the format expression given by these bytes.
    Compile(Vec<u8>),
    /// Evaluate the compiled script into a buffer of `capacity` bytes.
    Evaluate { context: EvaluationContext, script: usize, capacity: usize },
    /// Give a resource back to the player.
    Release { kind: HandleKind, raw: usize },
    /// Replace the content of the file at `path`.
    Write { path: String, content: String },
    /// The render is over, with this text or this failure.
    Rendered(Result<String, NowPlayingError>),
    /// The export is over.
    Exported(Result<(), NowPlayingError>),
}

/// A request as a mathematical value.
pub enum RequestModel {
    ReadText { setting: TextSetting, capacity: usize },
    AcquireTrack,
    AcquirePlaylist,
    Compile(Seq<u8>),
    Evaluate { context: EvaluationContext, script: usize, capacity: usize },
    Release { kind: HandleKind, raw: usize },
    Write { path: Seq<char>, content: Seq<char> },
    Rendered(Result<Seq<char>, Failure>),
    Exported(Result<(), Failure>),
}

impl View for Request {
    type V = RequestModel;

    open spec fn view(&self) -> RequestModel {
        match *self {
            Request::ReadText { setting, capacity } => RequestModel::ReadText { setting, capacity },
            Request::AcquireTrack => RequestModel::AcquireTrack,
            Request::AcquirePlaylist => RequestModel::AcquirePlaylist,
            Request::Compile(expression) => RequestModel::Compile(expression@),
            Request::Evaluate { context, script, capacity } => RequestModel::Evaluate {
                context,
                script,
                capacity,
            },
            Request::Release { kind, raw } => RequestModel::Release { kind, raw },
            Request::Write { path, content } => RequestModel::Write {
                path: path@,
                content: content@,
            },
            Request::Rendered(Ok(text)) => RequestModel::Rendered(Ok(text@)),
            Request::Rendered(Err(error)) => RequestModel::Rendered(Err(error@)),
            Request::Exported(Ok(())) => RequestModel::Exported(Ok(())),
            Request::Exported(Err(error)) => RequestModel::Exported(Err(error@)),
        }
    }
}

impl RequestModel {
    /// The shape of the reply that answers this request; `None` where a session ends.
    pub open spec fn wants(self) -> Option<ReplyKind> {
        match self {
            RequestModel::ReadText { .. } => Some(ReplyKind::Buffer),
            RequestModel::AcquireTrack => Some(ReplyKind::Handle),
            RequestModel::AcquirePlaylist => Some(ReplyKind::Handle),
            RequestModel::Compile(_) => Some(ReplyKind::Handle),
            RequestModel::Evaluate { .. } => Some(ReplyKind::Buffer),
            RequestModel::Release { .. } => Some(ReplyKind::Released),
            RequestModel::Write { .. } => Some(ReplyKind::Written),
            RequestModel::Rendered(_) => None,
            RequestModel::Exported(_) => None,
        }
    }

    /// The kind of resource that the player hands out in answer to this request, if any.
    pub open spec fn acquires(self) -> Option<HandleKind> {
        match self {
            RequestModel::AcquireTrack => Some(HandleKind::PlayingTrack),
            RequestModel::AcquirePlaylist => Some(HandleKind::PlayingPlaylist),
            RequestModel::Compile(_) => Some(HandleKind::CompiledScript),
            _ => None,
        }
    }

    /// The kind of resource that this request gives back, if any.
    pub open spec fn releases(self) -> Option<HandleKind> {
        match self {
            RequestModel::Release { kind, .. } => Some(kind),
            _ => None,
        }
    }
}

impl Request {
    /// The shape of the reply that answers this request; `None` where a session ends.
    pub fn wants(&self) -> (kind: Option<ReplyKind>)
        ensures
            kind == self@.wants(),
    {
        match self {
            Request::ReadText { .. } => Some(ReplyKind::Buffer),
            Request::AcquireTrack => Some(ReplyKind::Handle),
            Request::AcquirePlaylist => Some(ReplyKind::Handle),
            Request::Compile(_) => Some(ReplyKind::Handle),
            Request::Evaluate { .. } => Some(ReplyKind::Buffer),
            Request::Release { .. } => Some(ReplyKind::Released),
            Request::Write { .. } => Some(ReplyKind::Written),
            Request::Rendered(_) => None,
            Request::Exported(_) => None,
        }
    }
}

/// The answer to a request.
#[derive(Debug, PartialEq, Eq)]
pub enum Reply {
    /// What an acquisition or a compilation returned; zero where it returned nothing.
    Handle(usize),
    /// The buffer that the player filled.
    Buffer(Vec<u8>),
    /// The resource was given back.
    Released,
    /// The file was written, or the reason why it was not.
    Written(Result<(), String>),
}

/// A reply as a mathematical value.
pub enum ReplyModel {
    Handle(usize),
    Buffer(Seq<u8>),
    Released,
    Written(Result<(), Seq<char>>),
}

impl View for Reply {
    type V = ReplyModel;

    open spec fn view(&self) -> ReplyModel {
        match *self {
            Reply::Handle(raw) => ReplyModel::Handle(raw),
            Reply::Buffer(bytes) => ReplyModel::Buffer(bytes@),
            Reply::Released => ReplyModel::Released,
            Reply::Written(Ok(())) => ReplyModel::Written(Ok(())),
            Reply::Written(Err(reason)) => ReplyModel::Written(Err(reason@)),
        }
    }
}

impl ReplyModel {
    /// The shape of this reply.
    pub open spec fn kind(self) -> ReplyKind {
        match self {
            ReplyModel::Handle(_) => ReplyKind::Handle,
            ReplyModel::Buffer(_) => ReplyKind::Buffer,
            ReplyModel::Released => ReplyKind::Released,
            ReplyModel::Written(_) => ReplyKind::Written,
        }
    }

    /// This reply hands out a resource: it is a handle, and not zero.
    pub open spec fn is_present_handle(self) -> bool {
        self matches ReplyModel::Handle(raw) && raw != 0
    }
}

impl Reply {
    /// The shape of this reply.
    pub fn kind(&self) -> (kind: ReplyKind)
        ensures
            kind == self@.kind(),
    {
        match self {
            Reply::Handle(_) => ReplyKind::Handle,
            Reply::Buffer(_) => ReplyKind::Buffer,
            Reply::Released => ReplyKind::Released,
            Reply::Written(_) => ReplyKind::Written,
        }
    }
}

/// `reply` has the shape that `request` asks for.
pub open spec fn answers(request: RequestModel, reply: ReplyModel) -> bool {
    request.wants() == Some(reply.kind())
}

/// Whether `reply` has the shape that `request` asks for.
pub fn is_answer(request: &Request, reply: &Reply) -> (fits: bool)
    ensures
        fits == answers(request@, reply@),
{
    match request.wants() {
        Some(kind) => kind == reply.kind(),
        None => false,
    }
}

} // verus!
