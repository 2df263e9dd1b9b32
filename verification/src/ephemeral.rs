//! The throwaway session behind one-shot generation: create it, run the work
//! on it, close it whatever the work returned, and return the work's result.

use vstd::prelude::*;

verus! {

/// Where a one-shot generation stands.
pub enum EphemeralState<T, E> {
    /// Waiting for the session to be created.
    Creating,
    /// The work runs on session `0`.
    Running(u64),
    /// Session `0` is being closed; the work's result is kept meanwhile.
    Closing(u64, Result<T, E>),
    /// The result has been handed back.
    Done,
}

/// What the caller reports back after performing an action.
pub enum EphemeralEvent<T, E> {
    /// The session was created, or creating it failed.
    Created(Result<u64, E>),
    /// The work finished with this result.
    Ran(Result<T, E>),
    /// The session was closed; whether closing succeeded does not matter.
    Closed,
}

/// What the caller does next.
pub enum EphemeralAction<T, E> {
    /// Run the work on this session.
    Run(u64),
    /// Close this session.
    Close(u64),
    /// Hand back this result; nothing is left to do.
    Return(Result<T, E>),
    /// The event does not belong to this state; nothing to do.
    Wait,
}

/// The next state and action after `event` in `state`.
pub open spec fn ephemeral_next<T, E>(state: EphemeralState<T, E>, event: EphemeralEvent<T, E>) -> (
    EphemeralState<T, E>,
    EphemeralAction<T, E>,
) {
    match (state, event) {
        (EphemeralState::Creating, EphemeralEvent::Created(Err(e))) => (
            EphemeralState::Done,
            EphemeralAction::Return(Err(e)),
        ),
        (EphemeralState::Creating, EphemeralEvent::Created(Ok(id))) => (
            EphemeralState::Running(id),
            EphemeralAction::Run(id),
        ),
        (EphemeralState::Running(id), EphemeralEvent::Ran(r)) => (
            EphemeralState::Closing(id, r),
            EphemeralAction::Close(id),
        ),
        (EphemeralState::Closing(_, r), EphemeralEvent::Closed) => (
            EphemeralState::Done,
            EphemeralAction::Return(r),
        ),
        (s, _) => (s, EphemeralAction::Wait),
    }
}

/// Advances a one-shot generation by one event.
pub fn ephemeral_step<T, E>(state: EphemeralState<T, E>, event: EphemeralEvent<T, E>) -> (next: (
    EphemeralState<T, E>,
    EphemeralAction<T, E>,
))
    ensures
        next == ephemeral_next(state, event),
{
    match (state, event) {
        (EphemeralState::Creating, EphemeralEvent::Created(Err(e))) => (
            EphemeralState::Done,
            EphemeralAction::Return(Err(e)),
        ),
        (EphemeralState::Creating, EphemeralEvent::Created(Ok(id))) => (
            EphemeralState::Running(id),
            EphemeralAction::Run(id),
        ),
        (EphemeralState::Running(id), EphemeralEvent::Ran(r)) => (
            EphemeralState::Closing(id, r),
            EphemeralAction::Close(id),
        ),
        (EphemeralState::Closing(_, r), EphemeralEvent::Closed) => (
            EphemeralState::Done,
            EphemeralAction::Return(r),
        ),
        (s, _) => (s, EphemeralAction::Wait),
    }
}

/// A session that could not be created runs no work and closes nothing: its
/// creation error is handed back at once.
pub proof fn lemma_failed_creation_runs_nothing<T, E>(e: E)
    ensures
        ephemeral_next(EphemeralState::<T, E>::Creating, EphemeralEvent::Created(Err(e))) == (
            EphemeralState::<T, E>::Done,
            EphemeralAction::<T, E>::Return(Err(e)),
        ),
{
}

/// A created session runs the work once, is then closed whatever the work
/// returned, and the work's result is handed back whatever closing did.
pub proof fn lemma_created_session_is_closed_before_return<T, E>(id: u64, r: Result<T, E>)
    ensures
        ({
            let (s1, a1) = ephemeral_next(
                EphemeralState::<T, E>::Creating,
                EphemeralEvent::Created(Ok(id)),
            );
            let (s2, a2) = ephemeral_next(s1, EphemeralEvent::Ran(r));
            let (s3, a3) = ephemeral_next(s2, EphemeralEvent::Closed);
            &&& a1 == EphemeralAction::<T, E>::Run(id)
            &&& a2 == EphemeralAction::<T, E>::Close(id)
            &&& a3 == EphemeralAction::<T, E>::Return(r)
            &&& s3 == EphemeralState::<T, E>::Done
        }),
{
}

/// Once done, a generation stays done: no later event leads to another action.
pub proof fn lemma_done_is_final<T, E>(event: EphemeralEvent<T, E>)
    ensures
        ephemeral_next(EphemeralState::<T, E>::Done, event) == (
            EphemeralState::<T, E>::Done,
            EphemeralAction::<T, E>::Wait,
        ),
{
}

} // verus!
