use vstd::prelude::*;
use crate::helpers::spec_sign;
use crate::vector2i::Vector2i;

verus! {

/// For shapes that can collide with shapes of type `C`.
pub trait Collide<C> {
    /// The two shapes lie where the overlap test is exact.
    spec fn overlap_fits(&self, other: &C) -> bool;

    /// The interiors of the two shapes intersect.
    spec fn spec_collides(&self, other: &C) -> bool;

    /// The push that separates the two shapes, if they intersect.
    spec fn spec_overlap_with(&self, other: &C) -> Option<Overlap>;

    /// Return true if two objects intersect each other
    fn intersects(&self, other: &C) -> (r: bool)
        ensures
            r == self.spec_collides(other),
    ;

    /// Return the overlap of two objects
    fn overlap(&self, other: &C) -> (r: Option<Overlap>)
        requires
            self.overlap_fits(other),
        ensures
            r == self.spec_overlap_with(other),
            r is Some == self.spec_collides(other),
    ;
}

/// For shapes that can be swept along a path against shapes of type `S`.
pub trait Sweep<S> {
    /// The shapes and the path lie where the sweep is exact.
    spec fn sweep_fits(&self, path: Vector2i, other: &S) -> bool;

    /// The first impact of this shape moving along `path` with `other`.
    spec fn spec_sweep_with(&self, path: Vector2i, other: &S) -> Option<Impact>;

    /// Return the first impact of this shape moving along `path` with `other`
    fn sweep(&self, path: Vector2i, other: &S) -> (r: Option<Impact>)
        requires
            self.sweep_fits(path, other),
        ensures
            r == self.spec_sweep_with(path, other),
            r matches Some(i) ==> i.time.in_unit() && axis_unit(i.normal),
    ;
}

/// An obstacle that a body can collide with and sweep against.
pub trait Body<T>: Collide<T> + Sweep<T> {}

/// The overlap of two shapes.
#[derive(Copy, Clone, Debug, PartialEq, Eq, Structural)]
pub struct Overlap {
    /// The signed penetration along the axis of least penetration
    pub depth: i64,
    /// How much and in what direction the first shape has to move in order to not overlap anymore
    pub resolve: Vector2i,
}

/// A rational number `num / den`; every fraction produced here has `den > 0`.
#[derive(Copy, Clone, Debug, PartialEq, Eq, Structural)]
pub struct Fraction {
    pub num: i64,
    pub den: i64,
}

impl Fraction {
    /// The fraction's value is in `[0, 1]`.
    pub open spec fn in_unit(self) -> bool {
        self.den > 0 && 0 <= self.num <= self.den
    }

    /// `self < other` as rational numbers (both with positive denominators).
    pub open spec fn spec_lt(self, other: Fraction) -> bool {
        self.num * other.den < other.num * self.den
    }

    /// Compare two fractions with positive denominators
    pub fn lt(&self, other: &Fraction) -> (r: bool)
        requires
            self.den > 0,
            other.den > 0,
            i64::MIN <= self.num * other.den <= i64::MAX,
            i64::MIN <= other.num * self.den <= i64::MAX,
        ensures
            r == self.spec_lt(*other),
    {
        self.num * other.den < other.num * self.den
    }
}

/// A normal that points along exactly one axis, with length one.
pub open spec fn axis_unit(n: Vector2i) -> bool {
    (n.x == 0 && (n.y == 1 || n.y == -1)) || (n.y == 0 && (n.x == 1 || n.x == -1))
}

/// The normal facing against a motion `d` along one axis.
pub open spec fn facing_normal(d: Vector2i, along_x: bool) -> Vector2i {
    if along_x {
        Vector2i { x: -spec_sign(d.x as int) as i64, y: 0 }
    } else {
        Vector2i { x: 0, y: -spec_sign(d.y as int) as i64 }
    }
}

/// The first point where a ray enters a shape.
#[derive(Copy, Clone, Debug, PartialEq, Eq, Structural)]
pub struct Intersection {
    /// How far along the ray's direction the entry lies
    pub time: Fraction,
    /// The entry point, scaled by `time.den`: the point is `point / time.den`
    pub point: Vector2i,
    /// The outward normal of the side that was hit
    pub normal: Vector2i,
}

/// The moment a moving shape first touches another.
#[derive(Copy, Clone, Debug, PartialEq, Eq, Structural)]
pub struct Impact {
    /// The fraction of the path travelled before contact
    pub time: Fraction,
    /// The normal of the contact surface
    pub normal: Vector2i,
}

impl Impact {
    pub open spec fn spec_from(i: Intersection) -> Impact {
        Impact { time: i.time, normal: i.normal }
    }

    /// The impact at an intersection: its time and normal
    pub fn from_intersection(intersection: Intersection) -> (r: Impact)
        ensures
            r == Impact::spec_from(intersection),
    {
        Impact { time: intersection.time, normal: intersection.normal }
    }

    pub open spec fn spec_inverse(self) -> Impact {
        Impact { time: self.time, normal: Vector2i { x: -self.normal.x as i64, y: -self.normal.y as i64 } }
    }

    /// The same impact seen from the other shape: the normal flips, the time stays
    pub fn inverse(self) -> (r: Impact)
        requires
            axis_unit(self.normal),
        ensures
            r == self.spec_inverse(),
            axis_unit(r.normal),
    {
        Impact { time: self.time, normal: Vector2i { x: -self.normal.x, y: -self.normal.y } }
    }
}

/// A line segment from `start` to `end`.
#[derive(Copy, Clone, Debug, PartialEq, Eq, Structural)]
pub struct Line {
    pub start: Vector2i,
    pub end: Vector2i,
}

impl Line {
    /// Create a new line
    pub fn new(start: Vector2i, end: Vector2i) -> (r: Line)
        ensures
            r.start == start,
            r.end == end,
    {
        Line { start, end }
    }

    pub open spec fn spec_delta(self) -> Vector2i {
        Vector2i { x: (self.end.x - self.start.x) as i64, y: (self.end.y - self.start.y) as i64 }
    }

    /// Return the vector between the start and end of the line
    pub fn get_delta(&self) -> (r: Vector2i)
        requires
            i64::MIN <= self.end.x - self.start.x <= i64::MAX,
            i64::MIN <= self.end.y - self.start.y <= i64::MAX,
        ensures
            r == self.spec_delta(),
            r.x == self.end.x - self.start.x,
            r.y == self.end.y - self.start.y,
    {
        self.end.sub(self.start)
    }
}

} // verus!
