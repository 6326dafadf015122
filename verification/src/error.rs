//! What can go wrong while exporting, and the line that reports it.

use vstd::prelude::*;
use vstd::string::*;

verus! {

/// The ways in which an export fails.
#[derive(Clone, Copy, Debug, PartialEq, Eq, Structural)]
pub enum ErrorKind {
    /// The player's function table was never handed over.
    ApiUnavailable,
    /// A buffer filled by the player does not hold UTF-8 text.
    Encoding,
    /// The output file could not be written.
    Io,
}

/// A failed export: its kind, and the message that goes to the log.
#[derive(Debug, PartialEq, Eq)]
pub struct NowPlayingError {
    pub kind: ErrorKind,
    pub message: String,
}

/// A failure as a mathematical value.
pub struct Failure {
    pub kind: ErrorKind,
    pub message: Seq<char>,
}

impl View for NowPlayingError {
    type V = Failure;

    open spec fn view(&self) -> Failure {
        Failure { kind: self.kind, message: self.message@ }
    }
}

/// The failure reported when the player's function table is missing.
pub open spec fn api_unavailable() -> Failure {
    Failure { kind: ErrorKind::ApiUnavailable, message: "couldn't get plugin api pointer"@ }
}

/// The prefix of every line that goes to the log.
pub open spec fn log_prefix() -> Seq<char> {
    "now_playing_to_file: "@
}

/// The log line for a failure with the given message: prefix, message, line feed.
pub open spec fn diagnostic(message: Seq<char>) -> Seq<char> {
    log_prefix() + message + "\n"@
}

impl NowPlayingError {
    /// The player's function table is missing.
    pub fn api_unavailable() -> (error: NowPlayingError)
        ensures
            error@ == api_unavailable(),
    {
        NowPlayingError {
            kind: ErrorKind::ApiUnavailable,
            message: String::from_str("couldn't get plugin api pointer"),
        }
    }

    /// A buffer did not hold UTF-8 text; `reason` says where it went wrong.
    pub fn encoding(reason: String) -> (error: NowPlayingError)
        ensures
            error@ == (Failure { kind: ErrorKind::Encoding, message: reason@ }),
    {
        NowPlayingError { kind: ErrorKind::Encoding, message: reason }
    }

    /// The output file could not be written; `reason` is what the file system said.
    pub fn io(reason: String) -> (error: NowPlayingError)
        ensures
            error@ == (Failure { kind: ErrorKind::Io, message: reason@ }),
    {
        NowPlayingError { kind: ErrorKind::Io, message: reason }
    }

    /// The message, as it is shown to the user.
    pub fn text(&self) -> (message: String)
        ensures
            message@ == self@.message,
    {
        self.message.clone()
    }

    /// The line that reports this failure in the log.
    pub fn diagnostic_line(&self) -> (line: String)
        ensures
            line@ == diagnostic(self@.message),
    {
        let line = String::from_str("now_playing_to_file: ");
        let line = line.concat(self.message.as_str());
        line.concat("\n")
    }
}

} // verus!
