//! Compute-side core: errors, wire models, the task state machine and the
//! request shapes of the compute API.
pub mod client;
pub mod constant;
pub mod hardware_constraint;
pub mod models;
pub mod status;
pub mod task_io;
pub mod task;

use vstd::prelude::*;

verus! {

/// Errors surfaced by operations against the compute API.
#[derive(Debug, Clone, Copy, PartialEq, Eq, Structural)]
pub enum ComputeError {
    /// The service answered 401.
    Unauthorized,
    /// The service answered 403.
    Forbidden,
    /// The service answered 404.
    NotFound,
    /// Any other failure: transport, decode, or an unexpected status.
    Generic,
}

} // verus!
