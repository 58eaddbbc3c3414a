//! The course of a run: what happens when, from the start to the end.

use crate::client::wire;
use crate::error;
use crate::error::Error;
use crate::server::watch;
use crate::server::watch::StopSignal;
use vstd::prelude::*;

verus! {

/// How far a run has come.
#[derive(Debug)]
pub enum RunState {
    /// Nothing has happened yet.
    Idle,
    /// The server registers the extension and starts to listen.
    Starting,
    /// The server runs, watches osquery and waits for a signal.
    Running,
    /// The signal came; the watcher is being told to stop.
    Stopping(StopSignal),
    /// The watcher was told; the server shuts down.
    ShuttingDown(StopSignal),
    /// The server is down; the watcher is waited for. This is how the run
    /// ends.
    Collecting(Result<(), Error>),
    /// The run is over.
    Over,
}

/// Something that happened in a run.
#[derive(Debug)]
pub enum RunEvent {
    /// Somebody called for a run. The signals could be taken, or not, because
    /// they were taken before.
    Called(Result<(), Error>),
    /// The start succeeded or failed.
    Started(Result<(), Error>),
    /// The wait for a signal ended.
    Signalled(StopSignal),
    /// The watcher was told to stop.
    WatcherTold,
    /// The shutdown ended.
    ShutDown(Result<(), Error>),
    /// The watcher ended, or did not in time.
    WatcherWaitedFor { ended: bool },
}

/// What to do next in a run.
#[derive(Debug)]
pub enum RunAction {
    /// Register the extension and start to listen.
    Start,
    /// Start the watcher and wait for a signal.
    AwaitSignal,
    /// Tell the watcher to stop, so that it does not compete with the shutdown
    /// for the client.
    TellWatcher,
    /// Shut the server down.
    ShutDown,
    /// Wait for the watcher, but not long: it may hang in a ping.
    AwaitWatcher,
    /// End the run like this. A watcher that has ended is joined, and one that
    /// hangs is left to itself.
    Finish {
        /// Whether to join the watcher.
        join: bool,
        /// How the run ended.
        outcome: Result<(), Error>,
    },
    /// Nothing: this does not happen at this point of a run.
    Ignore,
}

/// A [`RunState`] in terms of its characters.
pub enum RunStateView {
    Idle,
    Starting,
    Running,
    Stopping(Result<(), error::ErrorView>),
    ShuttingDown(Result<(), error::ErrorView>),
    Collecting(Result<(), error::ErrorView>),
    Over,
}

/// A [`RunAction`] in terms of its characters.
pub enum RunActionView {
    Start,
    AwaitSignal,
    TellWatcher,
    ShutDown,
    AwaitWatcher,
    Finish { join: bool, outcome: Result<(), error::ErrorView> },
    Ignore,
}

impl DeepView for RunState {
    type V = RunStateView;

    open spec fn deep_view(&self) -> RunStateView {
        match self {
            RunState::Idle => RunStateView::Idle,
            RunState::Starting => RunStateView::Starting,
            RunState::Running => RunStateView::Running,
            RunState::Stopping(s) => RunStateView::Stopping(watch::run_meaning(*s)),
            RunState::ShuttingDown(s) => RunStateView::ShuttingDown(watch::run_meaning(*s)),
            RunState::Collecting(o) => RunStateView::Collecting(wire::plain_outcome(*o)),
            RunState::Over => RunStateView::Over,
        }
    }
}

impl DeepView for RunAction {
    type V = RunActionView;

    open spec fn deep_view(&self) -> RunActionView {
        match self {
            RunAction::Start => RunActionView::Start,
            RunAction::AwaitSignal => RunActionView::AwaitSignal,
            RunAction::TellWatcher => RunActionView::TellWatcher,
            RunAction::ShutDown => RunActionView::ShutDown,
            RunAction::AwaitWatcher => RunActionView::AwaitWatcher,
            RunAction::Finish { join, outcome } => RunActionView::Finish {
                join: *join,
                outcome: wire::plain_outcome(*outcome),
            },
            RunAction::Ignore => RunActionView::Ignore,
        }
    }
}

/// Where a run stands after `event`, and what to do next. A run that cannot
/// take the signals or cannot start ends at once. Any other goes on until a
/// signal comes; then the watcher is told to stop, the server shuts down, and
/// the watcher is waited for. An error of the shutdown decides the end before
/// the signal does.
pub open spec fn next(state: RunStateView, event: RunEvent) -> (RunStateView, RunActionView) {
    match (state, event) {
        (RunStateView::Idle, RunEvent::Called(Ok(_))) => (
            RunStateView::Starting,
            RunActionView::Start,
        ),
        (RunStateView::Idle, RunEvent::Called(Err(e))) => (
            RunStateView::Over,
            RunActionView::Finish { join: false, outcome: Err(e.deep_view()) },
        ),
        (RunStateView::Starting, RunEvent::Started(Ok(_))) => (
            RunStateView::Running,
            RunActionView::AwaitSignal,
        ),
        (RunStateView::Starting, RunEvent::Started(Err(e))) => (
            RunStateView::Over,
            RunActionView::Finish { join: false, outcome: Err(e.deep_view()) },
        ),
        (RunStateView::Running, RunEvent::Signalled(s)) => (
            RunStateView::Stopping(watch::run_meaning(s)),
            RunActionView::TellWatcher,
        ),
        (RunStateView::Stopping(s), RunEvent::WatcherTold) => (
            RunStateView::ShuttingDown(s),
            RunActionView::ShutDown,
        ),
        (RunStateView::ShuttingDown(s), RunEvent::ShutDown(Ok(_))) => (
            RunStateView::Collecting(s),
            RunActionView::AwaitWatcher,
        ),
        (RunStateView::ShuttingDown(_), RunEvent::ShutDown(Err(e))) => (
            RunStateView::Collecting(Err(e.deep_view())),
            RunActionView::AwaitWatcher,
        ),
        (RunStateView::Collecting(o), RunEvent::WatcherWaitedFor { ended }) => (
            RunStateView::Over,
            RunActionView::Finish { join: ended, outcome: o },
        ),
        (state, _) => (state, RunActionView::Ignore),
    }
}

/// Takes a run one step further.
pub fn run_step(state: RunState, event: RunEvent) -> (r: (RunState, RunAction))
    ensures
        (r.0.deep_view(), r.1.deep_view()) == next(state.deep_view(), event),
{
    match (state, event) {
        (RunState::Idle, RunEvent::Called(Ok(_))) => (RunState::Starting, RunAction::Start),
        (RunState::Idle, RunEvent::Called(Err(e))) => (
            RunState::Over,
            RunAction::Finish { join: false, outcome: Err(e) },
        ),
        (RunState::Starting, RunEvent::Started(Ok(_))) => (
            RunState::Running,
            RunAction::AwaitSignal,
        ),
        (RunState::Starting, RunEvent::Started(Err(e))) => (
            RunState::Over,
            RunAction::Finish { join: false, outcome: Err(e) },
        ),
        (RunState::Running, RunEvent::Signalled(s)) => (
            RunState::Stopping(s),
            RunAction::TellWatcher,
        ),
        (RunState::Stopping(s), RunEvent::WatcherTold) => (
            RunState::ShuttingDown(s),
            RunAction::ShutDown,
        ),
        (RunState::ShuttingDown(s), RunEvent::ShutDown(stopped)) => (
            RunState::Collecting(watch::run_outcome(stopped, s)),
            RunAction::AwaitWatcher,
        ),
        (RunState::Collecting(outcome), RunEvent::WatcherWaitedFor { ended }) => (
            RunState::Over,
            RunAction::Finish { join: ended, outcome },
        ),
        (state, _) => (state, RunAction::Ignore),
    }
}

/// Where a run stands after `events`.
pub open spec fn after(events: Seq<RunEvent>) -> RunStateView
    decreases events.len(),
{
    if events.len() == 0 {
        RunStateView::Idle
    } else {
        next(after(events.drop_last()), events.last()).0
    }
}

/// What is done upon the last of `events`.
pub open spec fn done_upon(events: Seq<RunEvent>) -> RunActionView {
    next(after(events.drop_last()), events.last()).1
}

/// Whether `action` is done upon one of `events`.
pub open spec fn was_done(events: Seq<RunEvent>, action: RunActionView) -> bool {
    exists|n: int| 0 < n <= events.len() && #[trigger] done_upon(events.take(n)) == action
}

proof fn lemma_done_before(events: Seq<RunEvent>, action: RunActionView)
    requires
        events.len() > 0,
    ensures
        was_done(events.drop_last(), action) ==> was_done(events, action),
        done_upon(events) == action ==> was_done(events, action),
{
    let before = events.drop_last();
    if was_done(before, action) {
        let n = choose|n: int| 0 < n <= before.len() && #[trigger] done_upon(before.take(n)) == action;
        assert(before.take(n) =~= events.take(n));
    }
    assert(events.take(events.len() as int) =~= events);
}

proof fn lemma_shutdown_order(events: Seq<RunEvent>)
    ensures
        match after(events) {
            RunStateView::Stopping(_) => was_done(events, RunActionView::TellWatcher),
            RunStateView::ShuttingDown(_) => {
                &&& was_done(events, RunActionView::TellWatcher)
                &&& was_done(events, RunActionView::ShutDown)
            },
            RunStateView::Collecting(_) => {
                &&& was_done(events, RunActionView::TellWatcher)
                &&& was_done(events, RunActionView::ShutDown)
                &&& was_done(events, RunActionView::AwaitWatcher)
            },
            _ => true,
        },
    decreases events.len(),
{
    if events.len() > 0 {
        lemma_shutdown_order(events.drop_last());
        lemma_done_before(events, RunActionView::TellWatcher);
        lemma_done_before(events, RunActionView::ShutDown);
        lemma_done_before(events, RunActionView::AwaitWatcher);
    }
}

/// No run shuts the server down before it told the watcher to stop.
pub proof fn watcher_is_told_before_shutdown(events: Seq<RunEvent>)
    requires
        events.len() > 0,
        done_upon(events) is ShutDown,
    ensures
        was_done(events.drop_last(), RunActionView::TellWatcher),
{
    lemma_shutdown_order(events.drop_last());
}

/// A run that told its watcher to stop has, when it ends, shut the server down
/// and waited for the watcher.
pub proof fn signalled_runs_shut_down(events: Seq<RunEvent>)
    requires
        events.len() > 0,
        done_upon(events) is Finish,
        was_done(events, RunActionView::TellWatcher),
    ensures
        was_done(events, RunActionView::ShutDown),
        was_done(events, RunActionView::AwaitWatcher),
{
    let before = events.drop_last();
    lemma_shutdown_order(before);
    lemma_done_before(events, RunActionView::ShutDown);
    lemma_done_before(events, RunActionView::AwaitWatcher);
    if !(after(before) is Collecting) {
        lemma_not_told_yet(before);
        let n = choose|n: int|
            0 < n <= events.len() && #[trigger] done_upon(events.take(n)) == RunActionView::TellWatcher;
        if n < events.len() {
            assert(events.take(n) =~= before.take(n));
        }
    }
}

proof fn lemma_not_told_yet(events: Seq<RunEvent>)
    requires
        after(events) is Idle || after(events) is Starting || after(events) is Running,
    ensures
        !was_done(events, RunActionView::TellWatcher),
    decreases events.len(),
{
    if events.len() > 0 {
        let before = events.drop_last();
        lemma_not_told_yet(before);
        if was_done(events, RunActionView::TellWatcher) {
            let n = choose|n: int|
                0 < n <= events.len() && #[trigger] done_upon(events.take(n))
                    == RunActionView::TellWatcher;
            if n < events.len() {
                assert(events.take(n) =~= before.take(n));
            } else {
                assert(events.take(n) =~= events);
            }
        }
    }
}

/// A run ends once: after that nothing more is done.
pub proof fn runs_end_once(events: Seq<RunEvent>, more: RunEvent)
    requires
        after(events) is Over,
    ensures
        after(events.push(more)) is Over,
        done_upon(events.push(more)) is Ignore,
{
    assert(events.push(more).drop_last() =~= events);
}

/// A run that is called for starts, and one that started waits for a signal.
/// Where it cannot take the signals or cannot start, it ends at once, with that
/// error and without a watcher to join.
pub proof fn runs_start(e: Error)
    ensures
        done_upon(seq![RunEvent::Called(Ok(()))]) is Start,
        done_upon(seq![RunEvent::Called(Ok(())), RunEvent::Started(Ok(()))]) is AwaitSignal,
        after(seq![RunEvent::Called(Ok(())), RunEvent::Started(Ok(()))]) is Running,
        done_upon(seq![RunEvent::Called(Err(e))]) == (RunActionView::Finish {
            join: false,
            outcome: Err(e.deep_view()),
        }),
        done_upon(seq![RunEvent::Called(Ok(())), RunEvent::Started(Err(e))]) == (
        RunActionView::Finish { join: false, outcome: Err(e.deep_view()) }),
{
    reveal_with_fuel(after, 3);
    let called = seq![RunEvent::Called(Ok(()))];
    assert(called.drop_last() =~= Seq::<RunEvent>::empty());
    assert(seq![RunEvent::Called(Err(e))].drop_last() =~= Seq::<RunEvent>::empty());
    assert(seq![RunEvent::Called(Ok(())), RunEvent::Started(Ok(()))].drop_last() =~= called);
    assert(seq![RunEvent::Called(Ok(())), RunEvent::Started(Err(e))].drop_last() =~= called);
}

/// A run that was signalled tells the watcher, shuts down, waits for the
/// watcher, and ends: with the shutdown's error, if it had one; else well after
/// a clean signal, with the error of a signal that had one, and with an error
/// of its own where the signal was lost. Whether the watcher ended in time
/// decides whether it is joined, and nothing else.
pub proof fn signalled_runs_end_as_they_were_told(
    events: Seq<RunEvent>,
    signal: StopSignal,
    stopped: Result<(), Error>,
    ended: bool,
)
    requires
        after(events) is Running,
    ensures
        ({
            let signalled = events.push(RunEvent::Signalled(signal));
            let told = signalled.push(RunEvent::WatcherTold);
            let down = told.push(RunEvent::ShutDown(stopped));
            let over = down.push(RunEvent::WatcherWaitedFor { ended });
            &&& done_upon(signalled) is TellWatcher
            &&& done_upon(told) is ShutDown
            &&& done_upon(down) is AwaitWatcher
            &&& done_upon(over) == (RunActionView::Finish {
                join: ended,
                outcome: match (stopped, signal) {
                    (Err(e), _) => Err(e.deep_view()),
                    (Ok(_), StopSignal::Clean) => Ok(()),
                    (Ok(_), StopSignal::Failed(e)) => Err(e.deep_view()),
                    (Ok(_), StopSignal::Lost) => Err(
                        error::ErrorView::Other("shutdown signal error"@),
                    ),
                },
            })
            &&& after(over) is Over
        }),
{
    let signalled = events.push(RunEvent::Signalled(signal));
    let told = signalled.push(RunEvent::WatcherTold);
    let down = told.push(RunEvent::ShutDown(stopped));
    let over = down.push(RunEvent::WatcherWaitedFor { ended });
    assert(signalled.drop_last() =~= events);
    assert(told.drop_last() =~= signalled);
    assert(down.drop_last() =~= told);
    assert(over.drop_last() =~= down);
}

/// Whether `told` is how a run ends that was signalled with `signal` and whose
/// shutdown went like `stopped`.
pub open spec fn ends_like(
    told: Result<(), error::ErrorView>,
    signal: StopSignal,
    stopped: Result<(), Error>,
) -> bool {
    match told {
        Ok(_) => stopped is Ok && signal is Clean,
        Err(told) => {
            ||| stopped matches Err(e) && told == e.deep_view()
            ||| stopped is Ok && (signal matches StopSignal::Failed(e) && told == e.deep_view())
            ||| stopped is Ok && signal is Lost && told == error::ErrorView::Other(
                "shutdown signal error"@,
            )
        },
    }
}

/// However a run goes, it ends in one of three ways: because it could not take
/// the signals, because it could not start, or because a signal came. Then the
/// signal upon which the watcher was told, and the shutdown after it, decide
/// how.
pub proof fn every_end_has_its_cause(events: Seq<RunEvent>)
    requires
        events.len() > 0,
        done_upon(events) is Finish,
    ensures
        match events.last() {
            RunEvent::Called(called) => called matches Err(e) && done_upon(events) == (
            RunActionView::Finish { join: false, outcome: Err(e.deep_view()) }),
            RunEvent::Started(started) => started matches Err(e) && done_upon(events) == (
            RunActionView::Finish { join: false, outcome: Err(e.deep_view()) }),
            RunEvent::WatcherWaitedFor { ended } => {
                &&& done_upon(events)->join == ended
                &&& exists|i: int, j: int|
                    {
                        &&& 0 <= i < j < events.len() - 1
                        &&& (#[trigger] events[i]) is Signalled
                        &&& done_upon(events.take(i + 1)) is TellWatcher
                        &&& (#[trigger] events[j]) is ShutDown
                        &&& done_upon(events.take(j + 1)) is AwaitWatcher
                        &&& ends_like(
                            done_upon(events)->outcome,
                            events[i]->Signalled_0,
                            events[j]->ShutDown_0,
                        )
                    }
            },
            _ => false,
        },
{
    lemma_signal_is_kept(events.drop_last());
    let before = events.drop_last();
    if after(before) is Collecting {
        let (i, j) = choose|i: int, j: int|
            {
                &&& 0 <= i < j < before.len()
                &&& (#[trigger] before[i]) is Signalled
                &&& done_upon(before.take(i + 1)) is TellWatcher
                &&& (#[trigger] before[j]) is ShutDown
                &&& done_upon(before.take(j + 1)) is AwaitWatcher
                &&& ends_like(
                    after(before)->Collecting_0,
                    before[i]->Signalled_0,
                    before[j]->ShutDown_0,
                )
            };
        assert(events[i] == before[i] && events[j] == before[j]);
        assert(events.take(i + 1) =~= before.take(i + 1));
        assert(events.take(j + 1) =~= before.take(j + 1));
    }
}

proof fn lemma_signal_is_kept(events: Seq<RunEvent>)
    ensures
        match after(events) {
            RunStateView::Stopping(told) | RunStateView::ShuttingDown(told) => exists|i: int|
                {
                    &&& 0 <= i < events.len()
                    &&& (#[trigger] events[i]) is Signalled
                    &&& done_upon(events.take(i + 1)) is TellWatcher
                    &&& ends_like(told, events[i]->Signalled_0, Ok(()))
                },
            RunStateView::Collecting(told) => exists|i: int, j: int|
                {
                    &&& 0 <= i < j < events.len()
                    &&& (#[trigger] events[i]) is Signalled
                    &&& done_upon(events.take(i + 1)) is TellWatcher
                    &&& (#[trigger] events[j]) is ShutDown
                    &&& done_upon(events.take(j + 1)) is AwaitWatcher
                    &&& ends_like(told, events[i]->Signalled_0, events[j]->ShutDown_0)
                },
            _ => true,
        },
    decreases events.len(),
{
    if events.len() > 0 {
        let before = events.drop_last();
        let last = events.len() - 1;
        lemma_signal_is_kept(before);
        assert(events.take(last + 1) =~= events);
        assert forall|i: int| 0 <= i < last implies #[trigger] events[i] == before[i] && events.take(
            i + 1,
        ) == before.take(i + 1) by {
            assert(events.take(i + 1) =~= before.take(i + 1));
        }
        match after(before) {
            RunStateView::Running => {
                if events.last() is Signalled {
                    assert(events[last] is Signalled);
                }
            },
            RunStateView::Stopping(told) | RunStateView::ShuttingDown(told) => {
                let i = choose|i: int|
                    {
                        &&& 0 <= i < before.len()
                        &&& (#[trigger] before[i]) is Signalled
                        &&& done_upon(before.take(i + 1)) is TellWatcher
                        &&& ends_like(told, before[i]->Signalled_0, Ok(()))
                    };
                assert(events[i] is Signalled);
                if after(events) is Collecting {
                    assert(events[last] is ShutDown);
                    assert(ends_like(
                        after(events)->Collecting_0,
                        events[i]->Signalled_0,
                        events[last]->ShutDown_0,
                    ));
                }
            },
            RunStateView::Collecting(told) => {
                let (i, j) = choose|i: int, j: int|
                    {
                        &&& 0 <= i < j < before.len()
                        &&& (#[trigger] before[i]) is Signalled
                        &&& done_upon(before.take(i + 1)) is TellWatcher
                        &&& (#[trigger] before[j]) is ShutDown
                        &&& done_upon(before.take(j + 1)) is AwaitWatcher
                        &&& ends_like(told, before[i]->Signalled_0, before[j]->ShutDown_0)
                    };
                assert(events[i] is Signalled && events[j] is ShutDown);
            },
            _ => {},
        }
    }
}

/// What happens out of its turn changes nothing and causes nothing.
pub proof fn runs_ignore_what_is_out_of_turn(state: RunStateView, event: RunEvent)
    requires
        match state {
            RunStateView::Idle => !(event is Called),
            RunStateView::Starting => !(event is Started),
            RunStateView::Running => !(event is Signalled),
            RunStateView::Stopping(_) => !(event is WatcherTold),
            RunStateView::ShuttingDown(_) => !(event is ShutDown),
            RunStateView::Collecting(_) => !(event is WatcherWaitedFor),
            RunStateView::Over => true,
        },
    ensures
        next(state, event) == (state, RunActionView::Ignore),
{
}

/// The view of an action shows which it is, and of the last one how the run
/// ends.
pub proof fn actions_show_what_to_do(join: bool, outcome: Result<(), Error>)
    ensures
        RunAction::Start.deep_view() is Start,
        RunAction::AwaitSignal.deep_view() is AwaitSignal,
        RunAction::TellWatcher.deep_view() is TellWatcher,
        RunAction::ShutDown.deep_view() is ShutDown,
        RunAction::AwaitWatcher.deep_view() is AwaitWatcher,
        RunAction::Ignore.deep_view() is Ignore,
        ({
            let shown = RunAction::Finish { join, outcome }.deep_view();
            &&& shown is Finish
            &&& shown->join == join
            &&& outcome is Ok ==> shown->outcome is Ok
            &&& outcome matches Err(e) ==> shown->outcome == Err::<(), _>(e.deep_view())
        }),
{
}

} // verus!
