//! A unit-of-work transaction coordinator.
//!
//! Callers stage mutations against heterogeneous aggregates and apply them as
//! one atomic database transaction. The coordinator performs no I/O itself: it
//! decides which operation the storage adapter must perform next and consumes
//! the outcome of each one.

pub mod domain;
pub mod error;
pub mod port;
pub mod replay;
pub mod classical;
pub mod practical;
pub mod refactored;
pub mod laws;
