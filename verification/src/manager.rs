//! The manager and its four operations.

use crate::connection::ManagedConnection;
use crate::error::{ErrorCategory, ManagerError};
use vstd::prelude::*;
use vstd::string::*;

verus! {

/// The query that a validation sends: the cheapest one that makes a round
/// trip.
pub const PROBE_QUERY: &'static str = "SELECT 1";

/// The text of the error that stands for an elapsed wait.
pub const TIMEOUT_MESSAGE: &'static str = "TiberiusConnectionManager timed out!";

/// Connection manager for SQL sessions: the target to connect to, and
/// nothing else. It is made once and never changes.
pub struct TiberiusConnectionManager {
    connection_string: String,
}

/// What a validation asks of the session driver: run `query` on `session`
/// and read its rows to the end.
#[derive(Debug, PartialEq, Eq)]
pub struct Probe<S> {
    /// The session under test, taken out of its connection.
    pub session: S,
    /// The text to execute.
    pub query: &'static str,
}

impl View for TiberiusConnectionManager {
    type V = Seq<char>;

    /// The connection target, as text.
    closed spec fn view(&self) -> Seq<char> {
        self.connection_string@
    }
}

impl TiberiusConnectionManager {
    /// Creates a manager for the target that `connection_string` describes.
    /// The text is kept as it is: only the session driver reads it.
    pub fn new(connection_string: &str) -> (manager: TiberiusConnectionManager)
        ensures
            manager@ == connection_string@,
    {
        TiberiusConnectionManager { connection_string: connection_string.to_string() }
    }

    /// The connection target, to be handed to the session driver unchanged
    /// whenever the pool asks for a new connection.
    pub fn connection_string(&self) -> (target: &str)
        ensures
            target@ == self@,
    {
        self.connection_string.as_str()
    }

    /// How the manager shows itself when it is printed for debugging: its
    /// name and the connection target.
    pub open spec fn debug_text(&self) -> Seq<char> {
        "TiberiusConnectionManager { connection_string: "@ + self@ + " }"@
    }

    /// The manager as text, for debugging. The connection target is shown
    /// whole, credentials included.
    pub fn debug_string(&self) -> (text: String)
        ensures
            text@ == self.debug_text(),
    {
        let mut text = String::from_str("TiberiusConnectionManager { connection_string: ");
        text.append(self.connection_string.as_str());
        text.append(" }");
        text
    }

    /// What the pool gets from an attempt to establish a session: the
    /// session as a usable connection, or the driver's error as it came.
    pub open spec fn established<S, E>(
        &self,
        outcome: Result<S, E>,
    ) -> Result<ManagedConnection<S>, ManagerError<E>> {
        match outcome {
            Ok(session) => Ok(ManagedConnection::Present(session)),
            Err(error) => Err(ManagerError::Establishment(error)),
        }
    }

    /// What a validation asks of the session driver for a usable connection.
    pub open spec fn probe_of<S>(&self, conn: ManagedConnection<S>) -> Probe<S>
        recommends
            conn is Present,
    {
        Probe { session: conn->Present_0, query: PROBE_QUERY }
    }

    /// What the pool gets from a validation, given how the probe ended: `Ok`
    /// with whatever rows it read and the session it hands back, or the
    /// driver's error. The rows do not matter. After an error the session is lost with
    /// the probe, so the connection comes back without one.
    pub open spec fn validated<R, S, E>(
        &self,
        outcome: Result<(R, S), E>,
    ) -> Result<ManagedConnection<S>, (ManagerError<E>, ManagedConnection<S>)> {
        match outcome {
            Ok((_, session)) => Ok(ManagedConnection::Present(session)),
            Err(error) => Err((ManagerError::Validation(error), ManagedConnection::Absent)),
        }
    }

    /// Whether the pool must discard a connection instead of keeping it.
    pub open spec fn broken<S>(&self, conn: ManagedConnection<S>) -> bool {
        conn is Absent
    }

    /// The error that stands for an elapsed wait.
    pub open spec fn timeout<E>(&self) -> ManagerError<E> {
        ManagerError::TimedOut { message: TIMEOUT_MESSAGE }
    }

    /// Completes the creation of a connection. The caller has asked the
    /// session driver to establish a session with `connection_string()`, and
    /// passes what came back. A session becomes a usable connection; a
    /// failure is reported once, with the driver's error inside, and nothing
    /// is tried again.
    pub fn connect<S, E>(&self, outcome: Result<S, E>) -> (result: Result<
        ManagedConnection<S>,
        ManagerError<E>,
    >)
        ensures
            result == self.established(outcome),
            result is Ok <==> outcome is Ok,
            outcome matches Ok(session) ==> result == Ok::<
                ManagedConnection<S>,
                ManagerError<E>,
            >(ManagedConnection::Present(session)),
            outcome matches Err(error) ==> result == Err::<
                ManagedConnection<S>,
                ManagerError<E>,
            >(ManagerError::Establishment(error)),
    {
        match outcome {
            Ok(session) => Ok(ManagedConnection::Present(session)),
            Err(error) => Err(ManagerError::Establishment(error)),
        }
    }

    /// Begins a validation: takes the session out of the connection and says
    /// which query to run on it. The caller runs the query, reads its rows
    /// to the end, and passes the outcome to `is_valid`.
    ///
    /// A connection without a session cannot be validated. The pool has to
    /// sort such connections out with `has_broken` before it comes here.
    pub fn probe<S>(&self, conn: ManagedConnection<S>) -> (probe: Probe<S>)
        requires
            conn is Present,
        ensures
            probe == self.probe_of(conn),
            conn == ManagedConnection::Present(probe.session),
            probe.query@ == PROBE_QUERY@,
    {
        match conn {
            ManagedConnection::Present(session) => Probe { session, query: PROBE_QUERY },
            ManagedConnection::Absent => unreached(),
        }
    }

    /// Completes a validation with the outcome of the probe. After a probe that
    /// ran to its end the session it handed back is a usable connection
    /// again. After one that failed, the pool gets the driver's error
    /// together with a connection that has no session, which it must discard.
    pub fn is_valid<R, S, E>(&self, outcome: Result<(R, S), E>) -> (result: Result<
        ManagedConnection<S>,
        (ManagerError<E>, ManagedConnection<S>),
    >)
        ensures
            result == self.validated(outcome),
            result is Ok <==> outcome is Ok,
            outcome matches Ok((_, session)) ==> result == Ok::<
                ManagedConnection<S>,
                (ManagerError<E>, ManagedConnection<S>),
            >(ManagedConnection::Present(session)),
            outcome matches Err(error) ==> result == Err::<
                ManagedConnection<S>,
                (ManagerError<E>, ManagedConnection<S>),
            >((ManagerError::Validation(error), ManagedConnection::Absent)),
    {
        match ManagedConnection::hand_back(outcome) {
            Ok((_, conn)) => Ok(conn),
            Err((error, conn)) => Err((ManagerError::Validation(error), conn)),
        }
    }

    /// Tells whether the pool must discard the connection: exactly when it
    /// has no session. Looks at the connection and leaves it as it is.
    pub fn has_broken<S>(&self, conn: &mut ManagedConnection<S>) -> (discard: bool)
        ensures
            discard == self.broken(*old(conn)),
            discard <==> *old(conn) is Absent,
            *final(conn) == *old(conn),
    {
        conn.is_absent()
    }

    /// Makes the error that the pool reports when it has waited in vain for
    /// a free connection. The manager does not wait itself.
    pub fn timed_out<E>(&self) -> (error: ManagerError<E>)
        ensures
            error == self.timeout::<E>(),
            error == (ManagerError::<E>::TimedOut { message: TIMEOUT_MESSAGE }),
            error.category() == ErrorCategory::Io,
    {
        ManagerError::TimedOut { message: TIMEOUT_MESSAGE }
    }
}

} // verus!
