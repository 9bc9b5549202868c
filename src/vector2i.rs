use vstd::prelude::*;

verus! {

/// A two-dimensional vector of signed integers.
#[derive(Copy, Clone, Debug, PartialEq, Eq, Structural)]
pub struct Vector2i {
    pub x: i64,
    pub y: i64,
}

/// True when both components of `v` lie in `[-k, k]`.
pub open spec fn bounded(v: Vector2i, k: int) -> bool {
    -k <= v.x <= k && -k <= v.y <= k
}

pub open spec fn spec_abs(a: int) -> int {
    if a < 0 {
        -a
    } else {
        a
    }
}

/// `a / b` rounded toward zero.
pub open spec fn trunc_div(a: int, b: int) -> int {
    if a >= 0 {
        if b > 0 {
            a / b
        } else {
            -(a / (-b))
        }
    } else {
        if b > 0 {
            -((-a) / b)
        } else {
            (-a) / (-b)
        }
    }
}

/// `a / b` may be computed: no division by zero and no overflow.
pub open spec fn can_divide(a: i64, b: i64) -> bool {
    b != 0 && !(a == i64::MIN && b == -1)
}

/// Integer division rounded toward zero.
fn div_toward_zero(a: i64, b: i64) -> (r: i64)
    requires
        can_divide(a, b),
    ensures
        r == trunc_div(a as int, b as int),
{
    if b > 0 {
        a / b
    } else if b == i64::MIN {
        if a == i64::MIN {
            1
        } else {
            0
        }
    } else if b == -1 {
        -a
    } else {
        let q = a / (-b);
        proof {
            let (x, d) = (-(a as int), -(b as int));
            if a < 0 {
                assert(x / d < x) by (nonlinear_arith)
                    requires
                        x > 0,
                        d >= 2,
                ;
            }
        }
        -q
    }
}

impl Vector2i {
    /// Create a new vector with a x and y value
    pub fn new(x: i64, y: i64) -> (r: Vector2i)
        ensures
            r.x == x,
            r.y == y,
    {
        Vector2i { x, y }
    }

    pub open spec fn spec_zero() -> Vector2i {
        Vector2i { x: 0, y: 0 }
    }

    /// Create a vector filled with zeroes
    pub fn zero() -> (r: Vector2i)
        ensures
            r == Vector2i::spec_zero(),
            r.x == 0,
            r.y == 0,
    {
        Vector2i { x: 0, y: 0 }
    }

    pub open spec fn spec_dot(self, other: Vector2i) -> int {
        self.x * other.x + self.y * other.y
    }

    /// Compute the dot product
    pub fn dot(self, other: Vector2i) -> (r: i64)
        requires
            i64::MIN <= self.x * other.x <= i64::MAX,
            i64::MIN <= self.y * other.y <= i64::MAX,
            i64::MIN <= self.spec_dot(other) <= i64::MAX,
        ensures
            r == self.spec_dot(other),
    {
        self.x * other.x + self.y * other.y
    }

    /// Return a vector with both elements being the absolute counterparts of this vector
    pub fn abs(self) -> (r: Vector2i)
        requires
            self.x > i64::MIN,
            self.y > i64::MIN,
        ensures
            r.x == spec_abs(self.x as int),
            r.y == spec_abs(self.y as int),
    {
        Vector2i {
            x: if self.x < 0 { -self.x } else { self.x },
            y: if self.y < 0 { -self.y } else { self.y },
        }
    }

    /// Return the vector that is perpendicular to this vector
    pub fn perpendicular(&self) -> (r: Vector2i)
        requires
            self.y > i64::MIN,
        ensures
            r.x == -self.y,
            r.y == self.x,
            r.spec_dot(*self) == 0,
    {
        proof {
            assert(-self.y * self.x + self.x * self.y == 0) by (nonlinear_arith);
        }
        Vector2i { x: -self.y, y: self.x }
    }

    /// Componentwise sum
    pub fn add(self, rhs: Vector2i) -> (r: Vector2i)
        requires
            i64::MIN <= self.x + rhs.x <= i64::MAX,
            i64::MIN <= self.y + rhs.y <= i64::MAX,
        ensures
            r.x == self.x + rhs.x,
            r.y == self.y + rhs.y,
    {
        Vector2i { x: self.x + rhs.x, y: self.y + rhs.y }
    }

    /// Componentwise difference
    pub fn sub(self, rhs: Vector2i) -> (r: Vector2i)
        requires
            i64::MIN <= self.x - rhs.x <= i64::MAX,
            i64::MIN <= self.y - rhs.y <= i64::MAX,
        ensures
            r.x == self.x - rhs.x,
            r.y == self.y - rhs.y,
    {
        Vector2i { x: self.x - rhs.x, y: self.y - rhs.y }
    }

    /// Componentwise product
    pub fn mul(self, rhs: Vector2i) -> (r: Vector2i)
        requires
            i64::MIN <= self.x * rhs.x <= i64::MAX,
            i64::MIN <= self.y * rhs.y <= i64::MAX,
        ensures
            r.x == self.x * rhs.x,
            r.y == self.y * rhs.y,
    {
        Vector2i { x: self.x * rhs.x, y: self.y * rhs.y }
    }

    /// Multiply both components by a scalar
    pub fn scale(self, k: i64) -> (r: Vector2i)
        requires
            i64::MIN <= self.x * k <= i64::MAX,
            i64::MIN <= self.y * k <= i64::MAX,
        ensures
            r.x == self.x * k,
            r.y == self.y * k,
    {
        Vector2i { x: self.x * k, y: self.y * k }
    }

    /// Negate the vector
    pub fn neg(self) -> (r: Vector2i)
        requires
            self.x > i64::MIN,
            self.y > i64::MIN,
        ensures
            r.x == -self.x,
            r.y == -self.y,
    {
        Vector2i { x: -self.x, y: -self.y }
    }

    /// Componentwise quotient, rounded toward zero
    pub fn div(self, rhs: Vector2i) -> (r: Vector2i)
        requires
            can_divide(self.x, rhs.x),
            can_divide(self.y, rhs.y),
        ensures
            r.x == trunc_div(self.x as int, rhs.x as int),
            r.y == trunc_div(self.y as int, rhs.y as int),
    {
        Vector2i { x: div_toward_zero(self.x, rhs.x), y: div_toward_zero(self.y, rhs.y) }
    }

    /// Divide both components by a scalar, rounding toward zero
    pub fn div_scalar(self, k: i64) -> (r: Vector2i)
        requires
            can_divide(self.x, k),
            can_divide(self.y, k),
        ensures
            r.x == trunc_div(self.x as int, k as int),
            r.y == trunc_div(self.y as int, k as int),
    {
        Vector2i { x: div_toward_zero(self.x, k), y: div_toward_zero(self.y, k) }
    }

    /// The component along an axis: 0 for x, 1 for y
    pub fn index(&self, axis: usize) -> (r: i64)
        requires
            axis < 2,
        ensures
            r == if axis == 0 { self.x } else { self.y },
    {
        if axis == 0 {
            self.x
        } else {
            self.y
        }
    }
}

} // verus!
