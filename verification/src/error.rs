//! The error kinds shared by every operation of the crate.

use vstd::prelude::*;

verus! {

/// Why an operation against the process image or the control channel failed.
#[derive(Debug, Clone, Copy, PartialEq, Eq)]
pub enum PiControlError {
    /// A caller-supplied value failed a precondition check before any
    /// transfer was attempted. The payload names the offending argument.
    InvalidArgument(&'static str),
    /// A device query named an address at which no module is connected.
    DeviceNotFound(u8),
    /// Name resolution was attempted while the resource has no configured
    /// variables at all (distinct from "name not found").
    NoVarEntries,
    /// A reset's wait for the bridge to restart exceeded its bound.
    Timeout,
    /// The underlying transport failed (resource unavailable, handle closed
    /// mid-call, or an unexpected transport error).
    IoFailure,
    /// The resource returned data that violates this crate's documented
    /// invariants; the condition is surfaced, never silently clamped.
    ProtocolViolation,
}

/// Holds when `r` is an `InvalidArgument` error naming the argument `msg`.
pub open spec fn invalid_arg<T>(r: Result<T, PiControlError>, msg: Seq<char>) -> bool {
    &&& r matches Err(e)
    &&& e matches PiControlError::InvalidArgument(m)
    &&& m@ == msg
}

} // verus!
