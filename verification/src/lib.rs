//! Verified core of a C-callable binding layer for the Signal protocol.
//!
//! The binding hands C callers opaque handles and lets them plug their own
//! storage in through callback tables. What this crate proves is the part
//! of that layer that decides things on its own: how the status codes that
//! the callbacks return are read, which error a missing record becomes, how
//! enumerations cross the boundary as integers, and which argument checks
//! are made before any work is done.
pub mod callback;
pub mod checks;
pub mod compare;
pub mod direction;
pub mod store;
