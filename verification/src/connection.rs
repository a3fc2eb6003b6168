//! The handle that a pool and its manager pass back and forth.

use vstd::prelude::*;

verus! {

/// A pooled connection: a live session handle, or the marker that is left
/// once the session was consumed or failed during a validation.
#[derive(Debug, PartialEq, Eq)]
pub enum ManagedConnection<S> {
    /// The session is believed usable. Whoever holds this value owns the
    /// session.
    Present(S),
    /// The session is gone. No operation brings such a connection back to
    /// `Present`: the pool discards it and creates a new one.
    Absent,
}

impl<S> ManagedConnection<S> {
    /// The session that the connection carries, if it still has one.
    pub open spec fn session(self) -> Option<S> {
        match self {
            ManagedConnection::Present(s) => Some(s),
            ManagedConnection::Absent => None,
        }
    }

    /// What a user of the pool hands back after work on a session. Work that
    /// succeeded returns its value and the session, which goes back as a
    /// usable connection. Work that failed has lost the session: the error
    /// goes back with a connection that has none, and the pool discards it.
    pub open spec fn handed_back<T, E>(outcome: Result<(T, S), E>) -> Result<
        (T, ManagedConnection<S>),
        (E, ManagedConnection<S>),
    > {
        match outcome {
            Ok((value, session)) => Ok((value, ManagedConnection::Present(session))),
            Err(error) => Err((error, ManagedConnection::Absent)),
        }
    }

    /// Pairs the outcome of work on a session with the connection that the
    /// pool gets back: the session after success, none after a failure. No
    /// outcome goes back without a connection beside it.
    pub fn hand_back<T, E>(outcome: Result<(T, S), E>) -> (result: Result<
        (T, ManagedConnection<S>),
        (E, ManagedConnection<S>),
    >)
        ensures
            result == Self::handed_back(outcome),
            result is Ok <==> outcome is Ok,
            result matches Ok((_, conn)) ==> conn is Present,
            result matches Err((_, conn)) ==> conn is Absent,
    {
        match outcome {
            Ok((value, session)) => Ok((value, ManagedConnection::Present(session))),
            Err(error) => Err((error, ManagedConnection::Absent)),
        }
    }

    /// Tells whether the connection still carries a session.
    pub fn is_present(&self) -> (b: bool)
        ensures
            b == (self is Present),
    {
        match self {
            ManagedConnection::Present(_) => true,
            ManagedConnection::Absent => false,
        }
    }

    /// Tells whether the session is gone.
    pub fn is_absent(&self) -> (b: bool)
        ensures
            b == (self is Absent),
    {
        match self {
            ManagedConnection::Present(_) => false,
            ManagedConnection::Absent => true,
        }
    }

    /// Gives up the connection for the session inside it.
    pub fn into_session(self) -> (s: Option<S>)
        ensures
            s == self.session(),
    {
        match self {
            ManagedConnection::Present(s) => Some(s),
            ManagedConnection::Absent => None,
        }
    }
}

} // verus!
