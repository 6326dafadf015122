//! Exporting: the rendered text goes to the file that the settings name.
//!
//! An export reads the output path, and is over at once where none is set. Otherwise it
//! runs a render, and writes what the render produced.

use crate::error::{api_unavailable, ErrorKind, Failure, NowPlayingError};
use crate::formatter::{render_start, render_step, Formatter, RenderModel};
use crate::protocol::{Reply, ReplyKind, ReplyModel, Request, RequestModel};
use crate::settings::TextSetting;
use crate::text::{buffer_text, decode_buffer, decoded, text_of_buffer, BUFFER_CAPACITY};
use vstd::prelude::*;

verus! {

/// An export as a mathematical value: where it stands, and what it keeps for later.
pub enum ExportModel {
    /// The output path is being read from the settings.
    OutPath,
    /// The text is being rendered; `path` is where it will go.
    Rendering { path: Seq<char>, render: RenderModel },
    /// The file is being written.
    Writing,
    /// The outcome was reported.
    Finished,
}

impl ExportModel {
    /// What each stage holds: a render that is well formed and not yet over.
    pub open spec fn wf(self) -> bool {
        self matches ExportModel::Rendering { render, .. } ==> render.wf() && render.expects() is Some
    }

    /// The shape of the reply that the export is waiting for; `None` once it is over.
    pub open spec fn expects(self) -> Option<ReplyKind> {
        match self {
            ExportModel::OutPath => Some(ReplyKind::Buffer),
            ExportModel::Rendering { render, .. } => render.expects(),
            ExportModel::Writing => Some(ReplyKind::Written),
            ExportModel::Finished => None,
        }
    }
}

/// The start of an export: with the player's function table at hand it reads the output
/// path, without it the export has failed at once.
pub open spec fn export_start(api_bound: bool) -> (ExportModel, RequestModel) {
    if api_bound {
        (
            ExportModel::OutPath,
            RequestModel::ReadText { setting: TextSetting::OutPath, capacity: BUFFER_CAPACITY },
        )
    } else {
        (ExportModel::Finished, RequestModel::Exported(Err(api_unavailable())))
    }
}

/// What an export does with the request that its render made: a rendered text is written,
/// a failed render ends the export, and everything else goes on to the host.
pub open spec fn export_render(path: Seq<char>, render: RenderModel, request: RequestModel) -> (
    ExportModel,
    RequestModel,
) {
    match request {
        RequestModel::Rendered(Ok(content)) => (
            ExportModel::Writing,
            RequestModel::Write { path, content },
        ),
        RequestModel::Rendered(Err(failure)) => (
            ExportModel::Finished,
            RequestModel::Exported(Err(failure)),
        ),
        _ => (ExportModel::Rendering { path, render }, request),
    }
}

/// One step of an export: the state after `reply`, and the next request.
///
/// Of a reply that does not have the shape that the stage is waiting for, nothing is said.
pub open spec fn export_step(model: ExportModel, reply: ReplyModel) -> (ExportModel, RequestModel) {
    match (model, reply) {
        (ExportModel::OutPath, ReplyModel::Buffer(bytes)) => if buffer_text(bytes).len() == 0 {
            (ExportModel::Finished, RequestModel::Exported(Ok(())))
        } else {
            match decoded(bytes) {
                Ok(path) => export_render(path, render_start(true).0, render_start(true).1),
                Err(failure) => (ExportModel::Finished, RequestModel::Exported(Err(failure))),
            }
        },
        (ExportModel::Rendering { path, render }, _) => {
            let (render, request) = render_step(render, reply);
            export_render(path, render, request)
        },
        (ExportModel::Writing, ReplyModel::Written(Ok(()))) => (
            ExportModel::Finished,
            RequestModel::Exported(Ok(())),
        ),
        (ExportModel::Writing, ReplyModel::Written(Err(reason))) => (
            ExportModel::Finished,
            RequestModel::Exported(Err(Failure { kind: ErrorKind::Io, message: reason })),
        ),
        _ => (model, arbitrary()),
    }
}

/// Where an export stands, and what it keeps for later.
#[derive(Debug)]
enum ExportState {
    OutPath,
    Rendering { path: String, render: Formatter },
    Writing,
    Finished,
}

/// An export in progress.
#[derive(Debug)]
#[must_use]
pub struct Exporter {
    state: ExportState,
}

impl View for Exporter {
    type V = ExportModel;

    closed spec fn view(&self) -> ExportModel {
        match self.state {
            ExportState::OutPath => ExportModel::OutPath,
            ExportState::Rendering { path, render } => ExportModel::Rendering {
                path: path@,
                render: render@,
            },
            ExportState::Writing => ExportModel::Writing,
            ExportState::Finished => ExportModel::Finished,
        }
    }
}

impl Exporter {
    #[verifier::type_invariant]
    spec fn inv(self) -> bool {
        self@.wf()
    }

    /// Begins an export. `api_bound` says whether the player's function table is at hand.
    pub fn start(api_bound: bool) -> (begun: (Exporter, Request))
        ensures
            (begun.0@, begun.1@) == export_start(api_bound),
            begun.0@.wf(),
            begun.0@.expects() == begun.1@.wants(),
    {
        if api_bound {
            (
                Exporter { state: ExportState::OutPath },
                Request::ReadText { setting: TextSetting::OutPath, capacity: BUFFER_CAPACITY },
            )
        } else {
            (
                Exporter { state: ExportState::Finished },
                Request::Exported(Err(NowPlayingError::api_unavailable())),
            )
        }
    }

    /// Whether the export is waiting for a reply of this shape.
    pub fn expects(&self, kind: ReplyKind) -> (waiting: bool)
        ensures
            waiting == (self@.expects() == Some(kind)),
    {
        match &self.state {
            ExportState::OutPath => kind == ReplyKind::Buffer,
            ExportState::Rendering { path, render } => render.expects(kind),
            ExportState::Writing => kind == ReplyKind::Written,
            ExportState::Finished => false,
        }
    }

    /// Decides what becomes of the request that the render made.
    fn after_render(path: String, render: Formatter, request: Request) -> (next: (
        Exporter,
        Request,
    ))
        requires
            render@.wf(),
            render@.expects() == request@.wants(),
            !(request@ is Exported),
        ensures
            (next.0@, next.1@) == export_render(path@, render@, request@),
            next.0@.wf(),
            next.0@.expects() == next.1@.wants(),
    {
        match request {
            Request::Rendered(Ok(content)) => (
                Exporter { state: ExportState::Writing },
                Request::Write { path, content },
            ),
            Request::Rendered(Err(error)) => (
                Exporter { state: ExportState::Finished },
                Request::Exported(Err(error)),
            ),
            request => (Exporter { state: ExportState::Rendering { path, render } }, request),
        }
    }

    /// Takes the reply to the last request and says what to do next.
    ///
    /// A reply that does not have the shape that the export is waiting for is not taken:
    /// the export comes back as it was.
    pub fn step(self, reply: Reply) -> (stepped: Result<(Exporter, Request), Exporter>)
        ensures
            stepped is Ok <==> self@.expects() == Some(reply@.kind()),
            stepped matches Ok(next) ==> {
                &&& (next.0@, next.1@) == export_step(self@, reply@)
                &&& next.0@.wf()
                &&& next.0@.expects() == next.1@.wants()
            },
            stepped matches Err(same) ==> same@ == self@,
    {
        proof {
            use_type_invariant(&self);
        }
        match self.state {
            ExportState::OutPath => match reply {
                Reply::Buffer(bytes) => {
                    let text = text_of_buffer(bytes.as_slice());
                    if text.len() == 0 {
                        Ok((Exporter { state: ExportState::Finished }, Request::Exported(Ok(()))))
                    } else {
                        match decode_buffer(bytes.as_slice()) {
                            Ok(path) => {
                                let (render, request) = Formatter::start(true);
                                Ok(Exporter::after_render(path, render, request))
                            },
                            Err(error) => Ok(
                                (
                                    Exporter { state: ExportState::Finished },
                                    Request::Exported(Err(error)),
                                ),
                            ),
                        }
                    }
                },
                _ => Err(Exporter { state: ExportState::OutPath }),
            },
            ExportState::Rendering { path, render } => match render.step(reply) {
                Ok((render, request)) => Ok(Exporter::after_render(path, render, request)),
                Err(render) => Err(Exporter { state: ExportState::Rendering { path, render } }),
            },
            ExportState::Writing => match reply {
                Reply::Written(Ok(())) => Ok(
                    (Exporter { state: ExportState::Finished }, Request::Exported(Ok(()))),
                ),
                Reply::Written(Err(reason)) => Ok(
                    (
                        Exporter { state: ExportState::Finished },
                        Request::Exported(Err(NowPlayingError::io(reason))),
                    ),
                ),
                _ => Err(Exporter { state: ExportState::Writing }),
            },
            ExportState::Finished => Err(Exporter { state: ExportState::Finished }),
        }
    }
}

} // verus!
