//! The decisions of a running server: whether osquery is still there, whether
//! its client can be had, and how a run ended.

use crate::client::waiting::Wait;
use crate::error;
use crate::error::Error;
use crate::number;
use crate::client::wire;
use crate::text;
use vstd::prelude::*;
use vstd::string::*;

verus! {

broadcast use vstd::string::group_string_axioms;

/// How long shutdown waits for the client, in milliseconds. A call that hangs
/// in a dead connection may keep the client forever; shutdown must not.
pub const CLIENT_LOCK_MILLIS: u64 = 1000;

/// How long to pause between two attempts to get the client, in milliseconds.
pub const CLIENT_LOCK_POLL_MILLIS: u64 = 10;

/// An attempt to get the client.
#[derive(Clone, Copy, Debug, PartialEq, Eq, Structural)]
pub enum LockAttempt {
    /// It was free.
    Locked,
    /// Its last user failed while using it.
    Poisoned,
    /// It is in use.
    Busy,
}

/// What to do after an attempt to get the client. The attempt counts even
/// when the time is up.
pub fn lock_step(attempt: LockAttempt, time_is_up: bool) -> (r: Wait)
    ensures
        r is Ready <==> attempt is Locked,
        r is GiveUp <==> attempt is Poisoned || (attempt is Busy && time_is_up),
        r is Again <==> attempt is Busy && !time_is_up,
{
    match attempt {
        LockAttempt::Locked => Wait::Ready,
        LockAttempt::Poisoned => Wait::GiveUp,
        LockAttempt::Busy => if time_is_up {
            Wait::GiveUp
        } else {
            Wait::Again
        },
    }
}

/// Something that happens to the watcher, which pings osquery now and then.
#[derive(Debug)]
pub enum WatchEvent {
    /// It was told to stop, or whoever would tell it is gone.
    StopRequested,
    /// Another ping is due.
    PingDue,
    /// The client could not be locked for the ping.
    ClientPoisoned,
    /// There is no client any more.
    ClientGone,
    /// The ping was made, with this outcome.
    Pinged(Result<(), Error>),
}

/// What the watcher does next.
#[derive(Debug)]
pub enum WatchAction {
    /// Ping osquery.
    Ping,
    /// Wait until the next ping is due.
    Sleep,
    /// Stop watching.
    Stop,
    /// Stop watching, and shut the server down with this error.
    Fail(Error),
}

/// A [`WatchAction`] in terms of its characters.
pub enum WatchActionView {
    Ping,
    Sleep,
    Stop,
    Fail(error::ErrorView),
}

impl DeepView for WatchAction {
    type V = WatchActionView;

    open spec fn deep_view(&self) -> WatchActionView {
        match self {
            WatchAction::Ping => WatchActionView::Ping,
            WatchAction::Sleep => WatchActionView::Sleep,
            WatchAction::Stop => WatchActionView::Stop,
            WatchAction::Fail(e) => WatchActionView::Fail(e.deep_view()),
        }
    }
}

/// The error that ends a run when a ping failed: a status that osquery
/// reports is named by its code, and anything else is put in context.
pub open spec fn ping_failure(e: error::ErrorView) -> error::ErrorView {
    match e {
        error::ErrorView::Status { code, .. } => error::ErrorView::Other(
            "ping returned status "@ + number::int_text(code as int),
        ),
        _ => e.in_context("extension ping failed"@),
    }
}

/// What the watcher does after `event`.
pub open spec fn next_action(event: WatchEvent) -> WatchActionView {
    match event {
        WatchEvent::StopRequested => WatchActionView::Stop,
        WatchEvent::PingDue => WatchActionView::Ping,
        WatchEvent::ClientPoisoned => WatchActionView::Fail(
            error::ErrorView::Other("could not lock osquery client for ping"@),
        ),
        WatchEvent::ClientGone => WatchActionView::Stop,
        WatchEvent::Pinged(Ok(_)) => WatchActionView::Sleep,
        WatchEvent::Pinged(Err(e)) => WatchActionView::Fail(ping_failure(e.deep_view())),
    }
}

/// Decides what the watcher does after `event`.
pub fn watch_step(event: WatchEvent) -> (r: WatchAction)
    ensures
        r.deep_view() == next_action(event),
{
    match event {
        WatchEvent::StopRequested => WatchAction::Stop,
        WatchEvent::PingDue => WatchAction::Ping,
        WatchEvent::ClientPoisoned => WatchAction::Fail(
            Error::Other("could not lock osquery client for ping".to_string()),
        ),
        WatchEvent::ClientGone => WatchAction::Stop,
        WatchEvent::Pinged(Ok(_)) => WatchAction::Sleep,
        WatchEvent::Pinged(Err(e)) => match e {
            Error::Status { code, .. } => {
                let n = number::i64_text(code as i64);
                WatchAction::Fail(Error::Other(text::concat("ping returned status ", n.as_str())))
            },
            e => WatchAction::Fail(e.context("extension ping failed")),
        },
    }
}

/// How the wait for a shutdown signal ended.
#[derive(Debug)]
pub enum StopSignal {
    /// Somebody asked for a shutdown.
    Clean,
    /// Something failed.
    Failed(Error),
    /// Nobody is left who could ask.
    Lost,
}

/// How a run ends once `received` came out of the channel for signals, or
/// nothing did because no sender is left.
pub open spec fn signal_meaning(received: Option<Option<Error>>) -> Result<(), error::ErrorView> {
    match received {
        Some(None) => Ok(()),
        Some(Some(e)) => Err(e.deep_view()),
        None => Err(error::ErrorView::Other("shutdown signal error"@)),
    }
}

impl StopSignal {
    /// How the wait ended, given what came out of the channel for signals, or
    /// that nothing did because no sender is left.
    pub fn received(received: Option<Option<Error>>) -> (r: StopSignal)
        ensures
            r is Clean <==> received matches Some(None),
            r matches StopSignal::Failed(e) ==> received == Some(Some(e)),
            r is Lost <==> received is None,
            run_meaning(r) == signal_meaning(received),
    {
        match received {
            Some(None) => StopSignal::Clean,
            Some(Some(e)) => StopSignal::Failed(e),
            None => StopSignal::Lost,
        }
    }
}

/// How a run ends after this signal.
pub open spec fn run_meaning(signal: StopSignal) -> Result<(), error::ErrorView> {
    match signal {
        StopSignal::Clean => Ok(()),
        StopSignal::Failed(e) => Err(e.deep_view()),
        StopSignal::Lost => Err(error::ErrorView::Other("shutdown signal error"@)),
    }
}

/// How a run ends, given how its shutdown went and the signal that caused it.
pub fn run_outcome(shutdown: Result<(), Error>, signal: StopSignal) -> (r: Result<(), Error>)
    ensures
        wire::plain_outcome(r) == match shutdown {
            Ok(_) => run_meaning(signal),
            Err(e) => Err(e.deep_view()),
        },
{
    match shutdown {
        Err(e) => Err(e),
        Ok(_) => match signal {
            StopSignal::Clean => Ok(()),
            StopSignal::Failed(e) => Err(e),
            StopSignal::Lost => Err(Error::Other("shutdown signal error".to_string())),
        },
    }
}

/// The watcher goes on only after a ping that succeeded. A ping that failed
/// ends the run with its words, after saying that it was the ping; a status
/// that osquery gave is named by its code.
pub proof fn pings_decide(words: Seq<char>, code: i32, e: Error)
    ensures
        next_action(WatchEvent::PingDue) is Ping,
        next_action(WatchEvent::Pinged(Ok(()))) is Sleep,
        e.deep_view() == error::ErrorView::Transport(words) ==> next_action(
            WatchEvent::Pinged(Err(e)),
        ) == WatchActionView::Fail(
            error::ErrorView::Transport("extension ping failed"@ + " - "@ + words),
        ),
        e.deep_view() == error::ErrorView::Other(words) ==> next_action(WatchEvent::Pinged(Err(e)))
            == WatchActionView::Fail(
            error::ErrorView::Other("extension ping failed"@ + " - "@ + words),
        ),
        e.deep_view() == (error::ErrorView::Status { code, message: words }) ==> next_action(
            WatchEvent::Pinged(Err(e)),
        ) == WatchActionView::Fail(
            error::ErrorView::Other("ping returned status "@ + number::int_text(code as int)),
        ),
{
}

/// Somebody's wish, or a client that is gone, stops the watcher quietly; a
/// client that cannot be locked stops it with an error.
pub proof fn watchers_stop(e: Error)
    ensures
        next_action(WatchEvent::StopRequested) is Stop,
        next_action(WatchEvent::ClientGone) is Stop,
        next_action(WatchEvent::ClientPoisoned) == WatchActionView::Fail(
            error::ErrorView::Other("could not lock osquery client for ping"@),
        ),
        WatchAction::Fail(e).deep_view() == WatchActionView::Fail(e.deep_view()),
        WatchAction::Stop.deep_view() is Stop,
        WatchAction::Sleep.deep_view() is Sleep,
        WatchAction::Ping.deep_view() is Ping,
{
}

/// Only a request for a shutdown is a good end: a signal with an error ends
/// the run with that error, and the loss of every sender is an error, too.
pub proof fn signals_decide_the_end(e: Error)
    ensures
        run_meaning(StopSignal::Clean) is Ok,
        run_meaning(StopSignal::Failed(e)) == Err::<(), _>(e.deep_view()),
        run_meaning(StopSignal::Lost) == Err::<(), _>(
            error::ErrorView::Other("shutdown signal error"@),
        ),
        signal_meaning(Some(None)) is Ok,
        signal_meaning(Some(Some(e))) == Err::<(), _>(e.deep_view()),
        signal_meaning(None) == Err::<(), _>(error::ErrorView::Other("shutdown signal error"@)),
{
}

} // verus!
