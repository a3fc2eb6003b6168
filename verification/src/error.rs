//! What can go wrong between a pool and its sessions.

use vstd::prelude::*;

verus! {

/// Where an error comes from.
#[derive(Debug, Clone, Copy, PartialEq, Eq, Structural)]
pub enum ErrorCategory {
    /// The session driver reported it: a network, authentication or
    /// protocol failure.
    Driver,
    /// An I/O condition that the manager reports by itself.
    Io,
}

/// An error of the connection manager, with `E` the session driver's error.
#[derive(Debug, PartialEq, Eq)]
pub enum ManagerError<E> {
    /// No session could be established. Carries the driver's error as it
    /// came.
    Establishment(E),
    /// The probe on an existing session failed. Carries the driver's error
    /// as it came.
    Validation(E),
    /// The pool gave up waiting for a free connection.
    TimedOut {
        /// The text that the error is reported with.
        message: &'static str,
    },
}

impl<E> ManagerError<E> {
    /// The category under which the error is reported.
    pub open spec fn category(self) -> ErrorCategory {
        match self {
            ManagerError::Establishment(_) => ErrorCategory::Driver,
            ManagerError::Validation(_) => ErrorCategory::Driver,
            ManagerError::TimedOut { .. } => ErrorCategory::Io,
        }
    }

    /// The driver's error inside this one, if it has one.
    pub open spec fn source(self) -> Option<E> {
        match self {
            ManagerError::Establishment(e) => Some(e),
            ManagerError::Validation(e) => Some(e),
            ManagerError::TimedOut { .. } => None,
        }
    }

    /// Tells whether the error stands for an elapsed wait.
    pub fn is_timeout(&self) -> (b: bool)
        ensures
            b == (self is TimedOut),
    {
        match self {
            ManagerError::TimedOut { .. } => true,
            _ => false,
        }
    }

    /// Classifies the error.
    pub fn classify(&self) -> (c: ErrorCategory)
        ensures
            c == self.category(),
    {
        match self {
            ManagerError::Establishment(_) => ErrorCategory::Driver,
            ManagerError::Validation(_) => ErrorCategory::Driver,
            ManagerError::TimedOut { .. } => ErrorCategory::Io,
        }
    }

    /// Gives up the error for the driver's error inside it.
    pub fn into_source(self) -> (e: Option<E>)
        ensures
            e == self.source(),
    {
        match self {
            ManagerError::Establishment(e) => Some(e),
            ManagerError::Validation(e) => Some(e),
            ManagerError::TimedOut { .. } => None,
        }
    }
}

} // verus!
