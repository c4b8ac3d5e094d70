//! Saturating arithmetic. Battle-state arithmetic saturates instead of
//! wrapping or panicking: no underflow below zero and no overflow past the
//! type's maximum.

use vstd::prelude::*;

verus! {

/// `a + b`, capped at `u64::MAX`.
pub open spec fn sat_add64(a: u64, b: u64) -> u64 {
    if a + b > u64::MAX {
        u64::MAX
    } else {
        (a + b) as u64
    }
}

/// `a - b`, floored at zero.
pub open spec fn sat_sub64(a: u64, b: u64) -> u64 {
    if a - b < 0 {
        0u64
    } else {
        (a - b) as u64
    }
}

/// `a * b`, capped at `u64::MAX`.
pub open spec fn sat_mul64(a: u64, b: u64) -> u64 {
    if a * b > u64::MAX {
        u64::MAX
    } else {
        (a * b) as u64
    }
}

/// `a + b` on `u16`, capped at `u16::MAX`.
pub open spec fn sat_add16(a: u16, b: u16) -> u16 {
    if a + b > u16::MAX {
        u16::MAX
    } else {
        (a + b) as u16
    }
}

pub fn add_sat64(a: u64, b: u64) -> (r: u64)
    ensures
        r == sat_add64(a, b),
{
    a.saturating_add(b)
}

pub fn sub_sat64(a: u64, b: u64) -> (r: u64)
    ensures
        r == sat_sub64(a, b),
{
    a.saturating_sub(b)
}

pub fn mul_sat64(a: u64, b: u64) -> (r: u64)
    ensures
        r == sat_mul64(a, b),
{
    match a.checked_mul(b) {
        Some(v) => v,
        None => u64::MAX,
    }
}

pub fn add_sat16(a: u16, b: u16) -> (r: u16)
    ensures
        r == sat_add16(a, b),
{
    a.saturating_add(b)
}

} // verus!
