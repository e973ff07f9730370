//! Kernel-resident request pipeline for brokered cross-process memory access.
//!
//! A privileged service accepts one synchronous control request at a time,
//! decodes the fixed-layout request record, screens every caller-supplied
//! address range, resolves the target process, orders one cross-address-space
//! copy, and writes a textual status back to the caller.  The pipeline runs
//! with no fault isolation, so each step is specified and verified: the
//! validator is exact, the dispatcher releases its process reference on every
//! exit path, and nothing outside the two recognized control-code families
//! ever reaches the privileged primitives.

pub mod args;
pub mod dispatch;
pub mod ioctl;
pub mod ipc;
pub mod logger;
pub mod memory;
pub mod text;
pub mod unicode;

use vstd::prelude::*;

verus! {

/// Coarse status surfaced to the caller.  Every error is detected at the
/// earliest possible stage and short-circuits the request to completion;
/// the privileged primitive's richer status is deliberately not propagated.
#[derive(Clone, Copy, PartialEq, Eq, Structural, Debug)]
pub enum Status {
    /// The request ran to completion and the confirmation text was written.
    Success,
    /// Bad, short or absent request buffer, or an unsupported control code.
    MalformedInput,
    /// The address range failed the user-memory validity screen.
    AccessViolation,
    /// The identifier did not resolve to a live process.
    ProcessNotFound,
    /// The privileged copy primitive reported failure.
    AccessDenied,
    /// The response buffer was missing at the final step.
    OutputUnavailable,
}

} // verus!
