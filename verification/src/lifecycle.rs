//! What holds of a connection over several calls of its manager.
//!
//! The statements here are about what the manager decides from what the
//! session driver returned. Whether the driver reaches its server is
//! not theirs to say: each speaks of the case in which it did, or did not.

use crate::connection::ManagedConnection;
use crate::error::{ErrorCategory, ManagerError};
use crate::manager::{TiberiusConnectionManager, PROBE_QUERY, TIMEOUT_MESSAGE};
use vstd::prelude::*;

verus! {

/// A connection that was just created passes its first validation. Where the
/// driver establishes `session`, `connect` gives a connection that `probe`
/// accepts; the probe carries that session and the fixed query; and where the
/// probe runs to its end and hands `returned` back, `is_valid` gives a usable
/// connection around it, and no error.
pub proof fn lemma_fresh_connection_is_valid<R, S, E>(
    manager: TiberiusConnectionManager,
    session: S,
    rows: R,
    returned: S,
)
    ensures
        manager.established::<S, E>(Ok(session)) matches Ok(conn) && {
            &&& conn is Present
            &&& manager.probe_of(conn).session == session
            &&& manager.probe_of(conn).query == PROBE_QUERY
        },
        manager.validated::<R, S, E>(Ok((rows, returned))) == Ok::<
            ManagedConnection<S>,
            (ManagerError<E>, ManagedConnection<S>),
        >(ManagedConnection::Present(returned)),
{
}

/// A validation that fails takes the session with it. Where the probe ends with
/// `error`, `is_valid` gives that error, marked as a failed validation,
/// together with a connection that has no session, and `has_broken` says of
/// that connection that it must be discarded.
pub proof fn lemma_failed_validation_poisons<R, S, E>(manager: TiberiusConnectionManager, error: E)
    ensures
        manager.validated::<R, S, E>(Err(error)) matches Err((reported, conn)) && {
            &&& reported == ManagerError::Validation(error)
            &&& reported.source() == Some(error)
            &&& conn is Absent
            &&& manager.broken(conn)
        },
{
}

/// `has_broken` is false of every connection that `connect` returns and of
/// every connection that passed a validation, and true of every connection
/// that comes back from a failed one. A connection is discarded exactly when it
/// has no session left that anyone could use.
pub proof fn lemma_broken_exactly_after_failed_validation<R, S, E>(
    manager: TiberiusConnectionManager,
    established: Result<S, E>,
    probed: Result<(R, S), E>,
    conn: ManagedConnection<S>,
)
    ensures
        manager.established(established) matches Ok(fresh) ==> !manager.broken(fresh),
        manager.validated(probed) matches Ok(valid) ==> !manager.broken(valid),
        manager.validated(probed) matches Err((_, poisoned)) ==> manager.broken(poisoned),
        manager.broken(conn) <==> conn.session() is None,
{
}

/// A validation is a use of the session of which the pool keeps only whether
/// it went well. The rows are dropped, and an error is marked as a failed
/// validation. The connection that comes back is the one that any user would
/// hand back after the same outcome.
pub proof fn lemma_validation_is_a_use_of_the_session<R, S, E>(
    manager: TiberiusConnectionManager,
    outcome: Result<(R, S), E>,
)
    ensures
        manager.validated(outcome) == match ManagedConnection::<S>::handed_back(outcome) {
            Ok((_, conn)) => Ok(conn),
            Err((error, conn)) => Err((ManagerError::Validation(error), conn)),
        },
{
}

/// A user of the pool that reports a failure gives the session up for good:
/// the connection that goes back with the error has no session, and
/// `has_broken` says that it must be discarded. After success the connection
/// that goes back is usable and is kept.
pub proof fn lemma_reported_failure_poisons<T, S, E>(
    manager: TiberiusConnectionManager,
    outcome: Result<(T, S), E>,
)
    ensures
        ManagedConnection::<S>::handed_back(outcome) matches Err((error, conn)) ==> {
            &&& outcome == Err::<(T, S), E>(error)
            &&& conn is Absent
            &&& manager.broken(conn)
        },
        ManagedConnection::<S>::handed_back(outcome) matches Ok((value, conn)) ==> {
            &&& outcome matches Ok((v, s)) && v == value && conn == ManagedConnection::Present(s)
            &&& !manager.broken(conn)
        },
{
}

/// The error for an elapsed wait is always the same, whatever the manager was
/// made with and however often it is asked: an I/O error with the fixed
/// text, which no error that came from the session driver equals.
pub proof fn lemma_timeout_is_always_the_same<E>(
    first: TiberiusConnectionManager,
    second: TiberiusConnectionManager,
    other: ManagerError<E>,
)
    ensures
        first.timeout::<E>() == second.timeout::<E>(),
        first.timeout::<E>() == (ManagerError::<E>::TimedOut { message: TIMEOUT_MESSAGE }),
        first.timeout::<E>().category() == ErrorCategory::Io,
        first.timeout::<E>().source() is None,
        other.category() == ErrorCategory::Driver ==> other != first.timeout::<E>(),
{
}

/// What a manager decides depends on what the session driver returned, and
/// on nothing else: two managers, made with whatever targets, decide the
/// same from the same outcome. `connect` succeeds exactly when the driver
/// established a session, and a validation exactly when the probe ran to its
/// end.
pub proof fn lemma_decisions_follow_the_driver_alone<R, S, E>(
    first: TiberiusConnectionManager,
    second: TiberiusConnectionManager,
    established: Result<S, E>,
    probed: Result<(R, S), E>,
    conn: ManagedConnection<S>,
)
    ensures
        first.established(established) == second.established(established),
        first.validated(probed) == second.validated(probed),
        first.broken(conn) == second.broken(conn),
        first.probe_of(conn) == second.probe_of(conn),
        first.established(established) is Ok <==> established is Ok,
        first.validated(probed) is Ok <==> probed is Ok,
{
}

/// A connection that passed a validation is the connection that `connect`
/// would have made of the same session: the pool cannot tell the two apart.
/// It can be validated again, and it is not to be discarded.
pub proof fn lemma_valid_connection_is_as_new<R, S, E>(
    manager: TiberiusConnectionManager,
    rows: R,
    session: S,
)
    ensures
        manager.validated::<R, S, E>(Ok((rows, session))) matches Ok(valid)
            && manager.established::<S, E>(Ok(session)) matches Ok(fresh) && {
            &&& valid == fresh
            &&& valid is Present
            &&& !manager.broken(valid)
            &&& manager.probe_of(valid) == manager.probe_of(fresh)
        },
{
}

} // verus!
