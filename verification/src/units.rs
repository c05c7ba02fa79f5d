//! Lengths and times as fixed-point numbers with three decimal places.

use vstd::prelude::*;

verus! {

/// A quantity in thousandths: feet for a length, seconds for a time. `1500`
/// is one and a half.
pub type Milli = i64;

/// One whole unit.
pub const MILLI: i64 = 1000;

/// `v` moved into the range of `i64`.
pub open spec fn sat64(v: int) -> int {
    if v > i64::MAX {
        i64::MAX as int
    } else if v < i64::MIN {
        i64::MIN as int
    } else {
        v
    }
}

/// `n` whole units.
pub fn whole(n: i32) -> (m: Milli)
    ensures
        m == n * MILLI,
{
    (n as i64) * MILLI
}

/// `a + b`, kept within `i64`.
pub fn add_milli(a: Milli, b: Milli) -> (sum: Milli)
    ensures
        sum == sat64(a + b),
{
    match a.checked_add(b) {
        Some(v) => v,
        None => if b > 0 {
            i64::MAX
        } else {
            i64::MIN
        },
    }
}

/// `a - b`, kept within `i64`.
pub fn sub_milli(a: Milli, b: Milli) -> (difference: Milli)
    ensures
        difference == sat64(a - b),
{
    match a.checked_sub(b) {
        Some(v) => v,
        None => if b < 0 {
            i64::MAX
        } else {
            i64::MIN
        },
    }
}

/// The larger of `a` and `b`.
pub open spec fn max_of(a: int, b: int) -> int {
    if a >= b {
        a
    } else {
        b
    }
}

/// The smaller of `a` and `b`.
pub open spec fn min_of(a: int, b: int) -> int {
    if a <= b {
        a
    } else {
        b
    }
}

/// The absolute value of `v`.
pub open spec fn abs_of(v: int) -> int {
    if v >= 0 {
        v
    } else {
        -v
    }
}

/// How far `a` and `b` lie apart, kept within `i64`.
pub fn apart_milli(a: Milli, b: Milli) -> (span: Milli)
    ensures
        span == sat64(abs_of(a - b)),
        span >= 0,
{
    if a >= b {
        sub_milli(a, b)
    } else {
        sub_milli(b, a)
    }
}

/// The larger of `a` and `b`.
pub fn max_milli(a: Milli, b: Milli) -> (m: Milli)
    ensures
        m == max_of(a as int, b as int),
{
    if a >= b {
        a
    } else {
        b
    }
}

/// The smaller of `a` and `b`.
pub fn min_milli(a: Milli, b: Milli) -> (m: Milli)
    ensures
        m == min_of(a as int, b as int),
{
    if a <= b {
        a
    } else {
        b
    }
}

} // verus!
