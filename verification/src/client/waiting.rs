//! Connecting to osquery: how long to wait, and what is said where it fails.

use crate::error;
use crate::error::Error;
use crate::text;
use vstd::prelude::*;
use vstd::string::*;

verus! {

broadcast use vstd::string::group_string_axioms;

/// How long to pause between two looks for osquery's socket, in milliseconds.
pub const SOCKET_POLL_MILLIS: u64 = 200;

/// What to do after an attempt.
#[derive(Clone, Copy, Debug, PartialEq, Eq, Structural)]
pub enum Wait {
    /// It succeeded: go on.
    Ready,
    /// It cannot succeed any more: stop trying.
    GiveUp,
    /// Pause, and try once more.
    Again,
}

/// What to do after a look for osquery's socket. The look counts even when
/// the time is up.
pub fn socket_step(exists: bool, time_is_up: bool) -> (r: Wait)
    ensures
        r is Ready <==> exists,
        r is GiveUp <==> !exists && time_is_up,
        r is Again <==> !exists && !time_is_up,
{
    if exists {
        Wait::Ready
    } else if time_is_up {
        Wait::GiveUp
    } else {
        Wait::Again
    }
}

/// What is said where the socket at `path` did not appear within `timeout`.
pub open spec fn missing_socket_text(timeout: Seq<char>, path: Seq<char>) -> Seq<char> {
    "timed out after "@ + timeout + " waiting for socket at "@ + path
}

/// The error that the socket at `path` did not appear within `timeout`.
pub fn missing_socket(timeout: &str, path: &str) -> (r: Error)
    ensures
        r.deep_view() == error::ErrorView::Transport(
            missing_socket_text(timeout@, path@),
        ).in_context("waiting for socket"@),
{
    let s = text::concat("timed out after ", timeout);
    let s = text::concat(s.as_str(), " waiting for socket at ");
    let s = text::concat(s.as_str(), path);
    Error::Transport(s).context("waiting for socket")
}

/// The error that the socket at `path` could not be connected to, for this
/// reason.
pub fn no_connection(path: &str, reason: &str) -> (r: Error)
    ensures
        r.deep_view() == error::ErrorView::Transport(reason@).in_context("connecting to "@ + path@),
{
    let context = text::concat("connecting to ", path);
    Error::Transport(reason.to_string()).context(context.as_str())
}

/// How long a pipe may stay busy before connecting to it fails, in
/// milliseconds.
pub const PIPE_BUSY_MILLIS: u64 = 2000;

/// How long to pause between two attempts on a busy pipe, in milliseconds.
pub const PIPE_POLL_MILLIS: u64 = 10;

/// An attempt to open osquery's pipe.
#[derive(Clone, Copy, Debug, PartialEq, Eq, Structural)]
pub enum PipeAttempt {
    /// The time was up before it could be made.
    TooLate,
    /// The pipe is open.
    Opened,
    /// Every instance of the pipe is in use.
    Busy,
    /// The pipe cannot be opened.
    Failed,
}

/// What to do after an attempt to open osquery's pipe. Only a pipe that is
/// busy is tried again.
pub fn pipe_step(attempt: PipeAttempt) -> (r: Wait)
    ensures
        r is Ready <==> attempt is Opened,
        r is Again <==> attempt is Busy,
        r is GiveUp <==> attempt is TooLate || attempt is Failed,
{
    match attempt {
        PipeAttempt::TooLate => Wait::GiveUp,
        PipeAttempt::Opened => Wait::Ready,
        PipeAttempt::Busy => Wait::Again,
        PipeAttempt::Failed => Wait::GiveUp,
    }
}

/// What is said of a socket that did not appear names the time and the path.
pub proof fn missing_sockets_are_named(timeout: Seq<char>, path: Seq<char>)
    ensures
        missing_socket_text(timeout, path) == "timed out after "@ + timeout
            + " waiting for socket at "@ + path,
{
}

} // verus!
