//! The order of a shutdown: osquery hears of it first, then nobody can reach
//! the plugins any more, then the plugins hear of it, and the client goes last.

use crate::server::manager::ClientOwnership;
use vstd::prelude::*;

verus! {

/// How far a shutdown has come.
#[derive(Clone, Copy, Debug, PartialEq, Eq, Structural)]
pub enum ShutdownState {
    /// Nothing has happened yet.
    Registered,
    /// osquery was told.
    TakenAway,
    /// The server does not listen any more.
    Silent,
    /// The plugins were told.
    Told,
    /// The server is down.
    Down,
}

/// What to do next in a shutdown.
#[derive(Clone, Copy, Debug, PartialEq, Eq, Structural)]
pub enum ShutdownAction {
    /// Ask osquery to take the extension away.
    TakeAway,
    /// Stop listening.
    StopListening,
    /// Tell every plugin.
    TellPlugins,
    /// Close the client.
    CloseClient,
    /// Nothing: it is done.
    Finish,
}

/// Where a shutdown goes from `state`, and what to do on the way. Only a
/// client of the server's own is closed.
pub open spec fn next_step(state: ShutdownState, ownership: ClientOwnership) -> (
    ShutdownState,
    ShutdownAction,
) {
    match state {
        ShutdownState::Registered => (ShutdownState::TakenAway, ShutdownAction::TakeAway),
        ShutdownState::TakenAway => (ShutdownState::Silent, ShutdownAction::StopListening),
        ShutdownState::Silent => (ShutdownState::Told, ShutdownAction::TellPlugins),
        ShutdownState::Told => match ownership {
            ClientOwnership::Owned => (ShutdownState::Down, ShutdownAction::CloseClient),
            ClientOwnership::Borrowed => (ShutdownState::Down, ShutdownAction::Finish),
        },
        ShutdownState::Down => (ShutdownState::Down, ShutdownAction::Finish),
    }
}

/// Takes a shutdown one step further.
pub fn shutdown_step(state: ShutdownState, ownership: ClientOwnership) -> (r: (
    ShutdownState,
    ShutdownAction,
))
    ensures
        r == next_step(state, ownership),
{
    match state {
        ShutdownState::Registered => (ShutdownState::TakenAway, ShutdownAction::TakeAway),
        ShutdownState::TakenAway => (ShutdownState::Silent, ShutdownAction::StopListening),
        ShutdownState::Silent => (ShutdownState::Told, ShutdownAction::TellPlugins),
        ShutdownState::Told => match ownership {
            ClientOwnership::Owned => (ShutdownState::Down, ShutdownAction::CloseClient),
            ClientOwnership::Borrowed => (ShutdownState::Down, ShutdownAction::Finish),
        },
        ShutdownState::Down => (ShutdownState::Down, ShutdownAction::Finish),
    }
}

/// How many steps a shutdown at `state` has before it.
pub open spec fn steps_left(state: ShutdownState) -> nat {
    match state {
        ShutdownState::Registered => 4,
        ShutdownState::TakenAway => 3,
        ShutdownState::Silent => 2,
        ShutdownState::Told => 1,
        ShutdownState::Down => 0,
    }
}

/// Where a shutdown stands after `n` steps.
pub open spec fn state_after(n: nat, ownership: ClientOwnership) -> ShutdownState
    decreases n,
{
    if n == 0 {
        ShutdownState::Registered
    } else {
        next_step(state_after((n - 1) as nat, ownership), ownership).0
    }
}

/// What is done in step `n`, counted from 0.
pub open spec fn action_in(n: nat, ownership: ClientOwnership) -> ShutdownAction {
    next_step(state_after(n, ownership), ownership).1
}

/// What was done when a shutdown stands at `state`, in order.
pub open spec fn done_at(state: ShutdownState, ownership: ClientOwnership) -> Seq<ShutdownAction> {
    match state {
        ShutdownState::Registered => seq![],
        ShutdownState::TakenAway => seq![ShutdownAction::TakeAway],
        ShutdownState::Silent => seq![ShutdownAction::TakeAway, ShutdownAction::StopListening],
        ShutdownState::Told => seq![
            ShutdownAction::TakeAway,
            ShutdownAction::StopListening,
            ShutdownAction::TellPlugins,
        ],
        ShutdownState::Down => match ownership {
            ClientOwnership::Owned => seq![
                ShutdownAction::TakeAway,
                ShutdownAction::StopListening,
                ShutdownAction::TellPlugins,
                ShutdownAction::CloseClient,
            ],
            ClientOwnership::Borrowed => seq![
                ShutdownAction::TakeAway,
                ShutdownAction::StopListening,
                ShutdownAction::TellPlugins,
            ],
        },
    }
}

/// Everything that a shutdown does, in order.
pub open spec fn full_course(ownership: ClientOwnership) -> Seq<ShutdownAction> {
    done_at(ShutdownState::Down, ownership)
}

/// A step adds what it does to what was done, and changes nothing where there
/// is nothing left to do.
pub proof fn steps_make_the_course(state: ShutdownState, ownership: ClientOwnership)
    ensures
        ({
            let (next, action) = next_step(state, ownership);
            done_at(next, ownership) == if action is Finish {
                done_at(state, ownership)
            } else {
                done_at(state, ownership).push(action)
            }
        }),
{
    let (next, action) = next_step(state, ownership);
    assert(done_at(state, ownership).push(action) =~= done_at(state, ownership) + seq![action]);
}

/// Step by step, osquery is told first, then the listening stops, then the
/// plugins are told, and then a client of the server's own is closed. After
/// that nothing is done.
pub proof fn steps_come_in_order(n: nat, ownership: ClientOwnership)
    ensures
        action_in(n, ownership) is TakeAway <==> n == 0,
        action_in(n, ownership) is StopListening <==> n == 1,
        action_in(n, ownership) is TellPlugins <==> n == 2,
        action_in(n, ownership) is CloseClient <==> n == 3 && ownership is Owned,
        n >= 4 ==> action_in(n, ownership) is Finish,
{
    reveal_with_fuel(state_after, 5);
    if n >= 4 {
        lemma_down_stays_down((n - 4) as nat, ownership);
    }
}

proof fn lemma_down_stays_down(n: nat, ownership: ClientOwnership)
    ensures
        state_after(n + 4, ownership) is Down,
    decreases n,
{
    reveal_with_fuel(state_after, 5);
    if n > 0 {
        lemma_down_stays_down((n - 1) as nat, ownership);
    }
}

} // verus!
