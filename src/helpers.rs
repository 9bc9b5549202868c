use vstd::prelude::*;

verus! {

pub open spec fn spec_sign(a: int) -> int {
    if a > 0 {
        1
    } else if a < 0 {
        -1
    } else {
        0
    }
}

/// Signed push along one axis that separates range `a` from range `b`:
/// the shorter of pushing `a` below `b` and pushing it above `b`.
pub open spec fn spec_push(a_min: int, a_max: int, b_min: int, b_max: int) -> int {
    let right = a_max - b_min;
    let left = b_max - a_min;
    if right < left {
        right
    } else {
        -left
    }
}

pub open spec fn spec_ranges_intersect(a_min: int, a_max: int, b_min: int, b_max: int) -> bool {
    a_min < b_max && b_min < a_max
}

/// A product of two bounded factors is bounded by the product of the bounds.
pub proof fn lemma_mul_bound(a: int, b: int, ka: int, kb: int)
    requires
        -ka <= a <= ka,
        -kb <= b <= kb,
    ensures
        -(ka * kb) <= a * b <= ka * kb,
{
    assert(-(ka * kb) <= a * b <= ka * kb) by (nonlinear_arith)
        requires
            -ka <= a <= ka,
            -kb <= b <= kb,
    ;
}

/// Return the sign of an integer (+1, -1, or 0 for zero)
pub fn sign(a: i64) -> (r: i64)
    ensures
        r == spec_sign(a as int),
{
    if a > 0 {
        1
    } else if a < 0 {
        -1
    } else {
        0
    }
}

/// Returns true if a range contains a value
pub fn in_range(value: i64, min: i64, max: i64) -> (r: bool)
    ensures
        r == (min <= value && value <= max),
{
    min <= value && value <= max
}

/// Returns true if two open ranges intersect
pub fn ranges_intersect(a_min: i64, a_max: i64, b_min: i64, b_max: i64) -> (r: bool)
    ensures
        r == spec_ranges_intersect(a_min as int, a_max as int, b_min as int, b_max as int),
{
    a_min < b_max && b_min < a_max
}

/// Returns the signed overlap of two ranges, or `None` when they do not intersect
pub fn range_overlap(a_min: i64, a_max: i64, b_min: i64, b_max: i64) -> (r: Option<i64>)
    requires
        i64::MIN < a_max - b_min <= i64::MAX,
        i64::MIN < b_max - a_min <= i64::MAX,
    ensures
        match r {
            Some(v) => spec_ranges_intersect(a_min as int, a_max as int, b_min as int, b_max as int)
                && v == spec_push(a_min as int, a_max as int, b_min as int, b_max as int),
            None => !spec_ranges_intersect(a_min as int, a_max as int, b_min as int, b_max as int),
        },
{
    if ranges_intersect(a_min, a_max, b_min, b_max) {
        let right = a_max - b_min;
        let left = b_max - a_min;
        if right < left {
            Some(right)
        } else {
            Some(-left)
        }
    } else {
        None
    }
}

} // verus!
