//! Client-side core for driving a package-management daemon over an
//! inter-process message bus.
//!
//! The library models the session and transaction lifecycle of a `dnf5`
//! daemon client: opening and tearing down a remote session exactly once,
//! staging package operations, resolving them against the remote dependency
//! solver, and conditionally executing the resolved transaction.  The bus
//! transport itself is an opaque collaborator: the caller performs the
//! remote calls and feeds the plain replies to the types of this crate,
//! which decide every step and are verified to do so correctly.

pub mod attrs;
pub mod daemon;
pub mod errors;
pub mod package;
pub mod text;
pub mod transaction;

pub use crate::daemon::DnfDaemon;
pub use crate::errors::Error;
