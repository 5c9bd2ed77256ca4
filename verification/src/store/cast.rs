//! Revision numbers as the store keeps them: in signed 64-bit columns.

use vstd::prelude::*;

verus! {

/// The signed number with the bits of `n`.
pub open spec fn signed(n: u64) -> int {
    if n <= i64::MAX {
        n as int
    } else {
        n - 0x1_0000_0000_0000_0000
    }
}

/// The unsigned number with the bits of `n`.
pub open spec fn unsigned(n: i64) -> int {
    if n >= 0 {
        n as int
    } else {
        n + 0x1_0000_0000_0000_0000
    }
}

/// The signed number with the bits of `n`.
pub fn to_signed(n: u64) -> (result: i64)
    ensures
        result == signed(n),
{
    if n <= i64::MAX as u64 {
        n as i64
    } else {
        -((u64::MAX - n) as i64) - 1
    }
}

/// The unsigned number with the bits of `n`.
pub fn to_unsigned(n: i64) -> (result: u64)
    ensures
        result == unsigned(n),
{
    if n >= 0 {
        n as u64
    } else {
        u64::MAX - (-(n + 1)) as u64
    }
}

/// Storing a revision number and reading it back gives the number.
pub proof fn law_stored_numbers_read_back(n: u64)
    ensures
        i64::MIN <= signed(n) <= i64::MAX,
        unsigned(signed(n) as i64) == n,
{
}

} // verus!
