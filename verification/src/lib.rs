//! A safety layer for an incremental weighted partial MaxSAT engine that is
//! reached through the IPAMIR C interface.
//!
//! The layer decides *which* engine entry points are invoked, with which
//! arguments and in which order; it never touches the engine itself. Every
//! operation hands the caller the [`Call`]s to perform, and the one answer the
//! layer needs back, the status of a solve call, is handed in again through
//! [`SolveSession::conclude`]. The party that performs the calls is referred
//! to as the *driver*.

pub mod call;
pub mod engine;
pub mod handle;
pub mod laws;
pub mod script;
pub mod status;
pub mod text;

pub use call::{Call, TimeLimit};
pub use handle::{MaxSatResult, Solution, SolveSession, IPAMIR};
pub use status::{
    check_status, STATUS_ERROR, STATUS_INTERRUPTED, STATUS_INTERRUPTED_WITH_MODEL, STATUS_OPTIMAL,
    STATUS_UNSAT,
};
