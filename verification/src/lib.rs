//! The connection-manager side of a connection pool for SQL sessions.
//!
//! A pool that knows nothing about the wire protocol asks its manager for
//! four things: to create a connection, to validate one, to tell whether one
//! must be thrown away, and to produce the error it reports when it has
//! waited too long. The operations that touch the network are split in two:
//! the manager says what to ask of the session driver, the caller asks it,
//! and the manager decides what the driver's answer means for the pool.

pub mod connection;
pub mod error;
pub mod lifecycle;
pub mod manager;

pub use connection::ManagedConnection;
pub use error::{ErrorCategory, ManagerError};
pub use manager::{Probe, TiberiusConnectionManager, PROBE_QUERY, TIMEOUT_MESSAGE};
