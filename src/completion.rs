//! Completion records as plain values, and the reserved correlation tags.
use vstd::prelude::*;

verus! {

/// Correlation tag of the internal read of the wake signal's event object.
pub const WAKE_TOKEN: u64 = 0;

/// Correlation tag of the internal timeout record.
pub const TIMEOUT_TOKEN: u64 = 0xffff_ffff_ffff_ffff;

/// The kernel's report of one finished operation.
#[derive(Clone, Copy, Debug, PartialEq, Eq, Structural)]
pub struct Completion {
    /// Correlation field copied from the submission record.
    pub user_data: u64,
    /// Operation result: a byte count, or a negated error number.
    pub result: i32,
    /// Completion flags reported by the kernel.
    pub flags: u32,
}

/// A tag reserved for internal bookkeeping records.
pub open spec fn is_sentinel(tag: u64) -> bool {
    tag == WAKE_TOKEN || tag == TIMEOUT_TOKEN
}

/// Whether a correlation tag marks an internal record rather than a ticket.
pub fn is_internal(tag: u64) -> (r: bool)
    ensures
        r == is_sentinel(tag),
{
    tag == WAKE_TOKEN || tag == TIMEOUT_TOKEN
}

} // verus!
