//! Memory validator: a pure screen over caller-supplied address ranges.
//!
//! Kernel code has no structured recovery from an invalid dereference, so
//! every caller-controlled pointer is screened before any privileged access.
//! The screen is a range check, not a page-table walk: it is defense in
//! depth, and an address that passes it may still be unmapped.

use vstd::prelude::*;

verus! {

/// Lowest address of the legitimate non-privileged window.
pub const USER_MODE_ADDRESS_LOWER_BOUND: u64 = 0x10000;

/// Highest address (inclusive) of the legitimate non-privileged window.
pub const USER_MODE_ADDRESS_UPPER_BOUND: u64 = 0x7FF_FFFF_FFFF;

/// A range is acceptable when its extent does not overflow the pointer
/// width and it lies entirely inside the user-mode window.
pub open spec fn valid_user_range(address: int, size: int) -> bool {
    &&& address + size <= usize::MAX
    &&& address >= USER_MODE_ADDRESS_LOWER_BOUND
    &&& address + size <= USER_MODE_ADDRESS_UPPER_BOUND
}

/// Decides whether `size` bytes starting at `address` lie wholly inside the
/// user-mode window, with no overflow in `address + size`.  Pure; no side
/// effects.
pub fn is_valid_user_memory(address: usize, size: usize) -> (valid: bool)
    ensures
        valid == valid_user_range(address as int, size as int),
{
    match address.checked_add(size) {
        Some(end) => address as u64 >= USER_MODE_ADDRESS_LOWER_BOUND
            && end as u64 <= USER_MODE_ADDRESS_UPPER_BOUND,
        None => false,
    }
}

/// Law: every pair whose extent overflows the pointer width is rejected.
pub proof fn lemma_overflowing_range_invalid(address: usize, size: usize)
    requires
        address + size > usize::MAX,
    ensures
        !valid_user_range(address as int, size as int),
{
}

/// Law: a pair that starts below the window or ends above it is rejected.
pub proof fn lemma_out_of_window_invalid(address: usize, size: usize)
    requires
        address < USER_MODE_ADDRESS_LOWER_BOUND
            || address + size > USER_MODE_ADDRESS_UPPER_BOUND,
    ensures
        !valid_user_range(address as int, size as int),
{
}

/// Law: every pair that lies fully inside the window, with no overflow in
/// `address + size`, is accepted.
pub proof fn lemma_in_window_valid(address: usize, size: usize)
    requires
        address + size <= usize::MAX,
        address >= USER_MODE_ADDRESS_LOWER_BOUND,
        address + size <= USER_MODE_ADDRESS_UPPER_BOUND,
    ensures
        valid_user_range(address as int, size as int),
{
}

} // verus!
