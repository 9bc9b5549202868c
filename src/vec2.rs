use vstd::prelude::*;

verus! {

/// A two-dimensional vector with components of any copyable type.
#[derive(Copy, Clone, Debug)]
pub struct Vec2<T: Copy> {
    pub x: T,
    pub y: T,
}

impl<T: Copy> Vec2<T> {
    pub fn new(x: T, y: T) -> (r: Vec2<T>)
        ensures
            r.x == x,
            r.y == y,
    {
        Vec2 { x, y }
    }
}

/// Floor of the square root of `n`.
fn isqrt(n: i32) -> (r: i32)
    requires
        n >= 0,
    ensures
        r >= 0,
        r * r <= n < (r + 1) * (r + 1),
{
    let mut lo: i32 = 0;
    let mut hi: i32 = 46341;
    assert(n < 46341 * 46341);
    while hi - lo > 1
        invariant
            0 <= lo < hi <= 46341,
            lo * lo <= n,
            n < hi * hi,
        decreases hi - lo,
    {
        let mid = lo + (hi - lo) / 2;
        assert(mid * mid <= 46340 * 46340) by (nonlinear_arith)
            requires
                0 <= mid <= 46340,
        ;
        if mid * mid <= n {
            lo = mid;
        } else {
            hi = mid;
        }
    }
    lo
}

impl Vec2<i32> {
    pub open spec fn spec_dot(self, a: Vec2<i32>) -> int {
        self.x * a.x + self.y * a.y
    }

    /// Dot multiplication
    pub fn dot(&self, a: Vec2<i32>) -> (r: i32)
        requires
            i32::MIN <= self.x * a.x <= i32::MAX,
            i32::MIN <= self.y * a.y <= i32::MAX,
            i32::MIN <= self.spec_dot(a) <= i32::MAX,
        ensures
            r == self.spec_dot(a),
    {
        self.x * a.x + self.y * a.y
    }

    /// Squared length/magnitude of vector
    pub fn squared_length(&self) -> (r: i32)
        requires
            self.spec_dot(*self) <= i32::MAX,
        ensures
            r == self.spec_dot(*self),
            r >= 0,
    {
        proof {
            assert(0 <= self.x * self.x && 0 <= self.y * self.y) by (nonlinear_arith);
        }
        self.x * self.x + self.y * self.y
    }

    /// Length of vector, rounded down
    pub fn length(&self) -> (r: i32)
        requires
            self.spec_dot(*self) <= i32::MAX,
        ensures
            r >= 0,
            r * r <= self.spec_dot(*self) < (r + 1) * (r + 1),
    {
        isqrt(self.squared_length())
    }
}

} // verus!
