use vstd::prelude::*;
use crate::collision::{axis_unit, Body, Collide, Sweep, facing_normal, Fraction, Impact, Intersection, Line, Overlap};
use crate::helpers::{in_range, lemma_mul_bound, sign, range_overlap, ranges_intersect, spec_push, spec_ranges_intersect};
use crate::vector2i::{bounded, spec_abs, Vector2i};

verus! {

/// Largest coordinate magnitude accepted by the ray tests.
pub const RAY_LIMIT: i64 = 0x4000_0000;

/// Largest coordinate magnitude of the shapes and paths accepted by the
/// overlap and sweep tests.
pub const COORD_LIMIT: i64 = 0x0800_0000;

/// An axis-aligned rectangle spanning `min` to `max` on both axes.
#[derive(Copy, Clone, Debug, PartialEq, Eq, Structural)]
pub struct Rectangle {
    pub min: Vector2i,
    pub max: Vector2i,
}

/// Floor of `a / 2`.
fn floor_half(a: i64) -> (r: i64)
    ensures
        r == a as int / 2,
{
    if a >= 0 {
        a / 2
    } else {
        -((-(a + 1)) / 2) - 1
    }
}

/// Time, over the denominator `|d|`, at which a ray from `o` moving `d`
/// per unit of time enters the slab `[lo, hi]`.
pub open spec fn axis_entry(o: i64, d: i64, lo: i64, hi: i64) -> Fraction {
    if d > 0 {
        Fraction { num: (lo - o) as i64, den: d }
    } else {
        Fraction { num: (o - hi) as i64, den: (-d) as i64 }
    }
}

/// Time, over the denominator `|d|`, at which that ray leaves the slab.
pub open spec fn axis_exit(o: i64, d: i64, lo: i64, hi: i64) -> Fraction {
    if d > 0 {
        Fraction { num: (hi - o) as i64, den: d }
    } else {
        Fraction { num: (o - lo) as i64, den: (-d) as i64 }
    }
}

/// The bounds that entry and exit times of a bounded ray keep.
pub open spec fn fraction_fits(f: Fraction) -> bool {
    -2 * RAY_LIMIT <= f.num <= 2 * RAY_LIMIT && 0 < f.den <= RAY_LIMIT
}

/// Two such fractions can be compared without overflow.
proof fn lemma_fits_compare(a: Fraction, b: Fraction)
    requires
        fraction_fits(a),
        fraction_fits(b),
    ensures
        i64::MIN <= a.num * b.den <= i64::MAX,
        i64::MIN <= b.num * a.den <= i64::MAX,
{
    lemma_mul_bound(a.num as int, b.den as int, 2 * RAY_LIMIT, RAY_LIMIT as int);
    lemma_mul_bound(b.num as int, a.den as int, 2 * RAY_LIMIT, RAY_LIMIT as int);
}

/// Entry and exit times of a ray through one slab.
fn slab(o: i64, d: i64, lo: i64, hi: i64) -> (r: (Fraction, Fraction))
    requires
        d != 0,
        -RAY_LIMIT <= o <= RAY_LIMIT,
        -RAY_LIMIT <= d <= RAY_LIMIT,
        -RAY_LIMIT <= lo <= RAY_LIMIT,
        -RAY_LIMIT <= hi <= RAY_LIMIT,
    ensures
        r.0 == axis_entry(o, d, lo, hi),
        r.1 == axis_exit(o, d, lo, hi),
        fraction_fits(r.0),
        fraction_fits(r.1),
{
    if d > 0 {
        (Fraction { num: lo - o, den: d }, Fraction { num: hi - o, den: d })
    } else {
        (Fraction { num: o - hi, den: -d }, Fraction { num: o - lo, den: -d })
    }
}

impl Rectangle {
    /// Neither side has negative length.
    pub open spec fn wf(self) -> bool {
        self.min.x <= self.max.x && self.min.y <= self.max.y
    }

    /// Both corners lie within `[-k, k]` on both axes.
    pub open spec fn within(self, k: int) -> bool {
        bounded(self.min, k) && bounded(self.max, k)
    }

    /// Create a new rectangle of a given size around a point; an odd side
    /// puts its extra unit on the high side.
    pub fn centered(center: Vector2i, size: Vector2i) -> (r: Rectangle)
        requires
            bounded(center, COORD_LIMIT as int),
            bounded(size, COORD_LIMIT as int),
        ensures
            r.min.x == center.x - spec_abs(size.x as int) / 2,
            r.min.y == center.y - spec_abs(size.y as int) / 2,
            r.max.x == r.min.x + spec_abs(size.x as int),
            r.max.y == r.min.y + spec_abs(size.y as int),
            r.wf(),
    {
        let extent = size.abs();
        let half_size = Vector2i::new(floor_half(extent.x), floor_half(extent.y));
        let min = center.sub(half_size);
        Rectangle { min, max: min.add(extent) }
    }

    pub open spec fn spec_contains(self, point: Vector2i) -> bool {
        self.min.x <= point.x <= self.max.x && self.min.y <= point.y <= self.max.y
    }

    /// Return true if rectangle contains the point, borders included
    pub fn contains(&self, point: Vector2i) -> (r: bool)
        ensures
            r == self.spec_contains(point),
    {
        in_range(point.x, self.min.x, self.max.x) && in_range(point.y, self.min.y, self.max.y)
    }

    /// Calculate the center of the rectangle, rounded down on each axis
    pub fn center(&self) -> (r: Vector2i)
        requires
            i64::MIN <= self.min.x + self.max.x <= i64::MAX,
            i64::MIN <= self.min.y + self.max.y <= i64::MAX,
        ensures
            r.x == (self.min.x + self.max.x) / 2,
            r.y == (self.min.y + self.max.y) / 2,
    {
        Vector2i::new(floor_half(self.min.x + self.max.x), floor_half(self.min.y + self.max.y))
    }

    pub open spec fn spec_size(self) -> Vector2i {
        Vector2i {
            x: spec_abs(self.max.x - self.min.x) as i64,
            y: spec_abs(self.max.y - self.min.y) as i64,
        }
    }

    /// Calculate the size of the rectangle
    pub fn size(&self) -> (r: Vector2i)
        requires
            i64::MIN < self.max.x - self.min.x <= i64::MAX,
            i64::MIN < self.max.y - self.min.y <= i64::MAX,
        ensures
            r == self.spec_size(),
            r.x == spec_abs(self.max.x - self.min.x),
            r.y == spec_abs(self.max.y - self.min.y),
    {
        self.max.sub(self.min).abs()
    }

    pub open spec fn spec_translated(self, delta: Vector2i) -> Rectangle {
        Rectangle {
            min: Vector2i { x: (self.min.x + delta.x) as i64, y: (self.min.y + delta.y) as i64 },
            max: Vector2i { x: (self.max.x + delta.x) as i64, y: (self.max.y + delta.y) as i64 },
        }
    }

    /// Translate rectangle in a direction
    pub fn translate(&mut self, delta: Vector2i)
        requires
            i64::MIN <= old(self).min.x + delta.x <= i64::MAX,
            i64::MIN <= old(self).min.y + delta.y <= i64::MAX,
            i64::MIN <= old(self).max.x + delta.x <= i64::MAX,
            i64::MIN <= old(self).max.y + delta.y <= i64::MAX,
        ensures
            *final(self) == old(self).spec_translated(delta),
    {
        self.min = self.min.add(delta);
        self.max = self.max.add(delta);
    }

    pub open spec fn spec_intersects(self, other: Rectangle) -> bool {
        spec_ranges_intersect(self.min.x as int, self.max.x as int, other.min.x as int, other.max.x as int)
            && spec_ranges_intersect(self.min.y as int, self.max.y as int, other.min.y as int, other.max.y as int)
    }

    /// Return true if the interiors of two rectangles intersect
    pub fn intersects(&self, other: &Rectangle) -> (r: bool)
        ensures
            r == self.spec_intersects(*other),
    {
        ranges_intersect(self.min.x, self.max.x, other.min.x, other.max.x)
            && ranges_intersect(self.min.y, self.max.y, other.min.y, other.max.y)
    }

    pub open spec fn spec_overlap(self, other: Rectangle) -> Option<Overlap> {
        if self.spec_intersects(other) {
            let ox = spec_push(self.min.x as int, self.max.x as int, other.min.x as int, other.max.x as int);
            let oy = spec_push(self.min.y as int, self.max.y as int, other.min.y as int, other.max.y as int);
            if spec_abs(ox) <= spec_abs(oy) {
                Some(Overlap { depth: ox as i64, resolve: Vector2i { x: (-ox) as i64, y: 0 } })
            } else {
                Some(Overlap { depth: oy as i64, resolve: Vector2i { x: 0, y: (-oy) as i64 } })
            }
        } else {
            None
        }
    }

    /// Return the overlap of two rectangles: the push along the axis of least
    /// penetration (the x axis on a tie) that moves `self` out of `other`
    pub fn overlap(&self, other: &Rectangle) -> (r: Option<Overlap>)
        requires
            self.within(COORD_LIMIT as int),
            other.within(COORD_LIMIT as int),
        ensures
            r == self.spec_overlap(*other),
    {
        let overlap_x = range_overlap(self.min.x, self.max.x, other.min.x, other.max.x);
        let overlap_y = range_overlap(self.min.y, self.max.y, other.min.y, other.max.y);
        match (overlap_x, overlap_y) {
            (Some(ox), Some(oy)) => {
                let ax = if ox < 0 { -ox } else { ox };
                let ay = if oy < 0 { -oy } else { oy };
                if ax <= ay {
                    Some(Overlap { depth: ox, resolve: Vector2i::new(-ox, 0) })
                } else {
                    Some(Overlap { depth: oy, resolve: Vector2i::new(0, -oy) })
                }
            },
            _ => None,
        }
    }
    /// The first intersection of a ray with this rectangle, by the slab method.
    /// An axis along which the ray does not move constrains no time when the
    /// origin lies within that slab, and excludes every hit otherwise. The
    /// entry time is the later of the two axes' entry times (the x axis on a
    /// tie), and the hit side faces against the motion on that axis.
    pub open spec fn spec_ray(self, o: Vector2i, d: Vector2i) -> Option<Intersection> {
        if d.x == 0 && d.y == 0 {
            None
        } else if d.x == 0 && !(self.min.x <= o.x <= self.max.x) {
            None
        } else if d.y == 0 && !(self.min.y <= o.y <= self.max.y) {
            None
        } else {
            let ex = axis_entry(o.x, d.x, self.min.x, self.max.x);
            let ey = axis_entry(o.y, d.y, self.min.y, self.max.y);
            let xx = axis_exit(o.x, d.x, self.min.x, self.max.x);
            let xy = axis_exit(o.y, d.y, self.min.y, self.max.y);
            let along_x = d.y == 0 || (d.x != 0 && !ex.spec_lt(ey));
            let entry = if along_x { ex } else { ey };
            let exit = if d.x == 0 {
                xy
            } else if d.y == 0 {
                xx
            } else if xx.spec_lt(xy) {
                xx
            } else {
                xy
            };
            if exit.spec_lt(entry) {
                None
            } else {
                Some(Intersection {
                    time: entry,
                    point: Vector2i {
                        x: (o.x * entry.den + entry.num * d.x) as i64,
                        y: (o.y * entry.den + entry.num * d.y) as i64,
                    },
                    normal: facing_normal(d, along_x),
                })
            }
        }
    }

    /// Return the first intersection of the ray from `origin` along `direction`
    pub fn ray_intersection(&self, origin: Vector2i, direction: Vector2i) -> (r: Option<Intersection>)
        requires
            self.within(RAY_LIMIT as int),
            bounded(origin, RAY_LIMIT as int),
            bounded(direction, RAY_LIMIT as int),
        ensures
            r == self.spec_ray(origin, direction),
            r matches Some(i) ==> 0 < i.time.den <= RAY_LIMIT && axis_unit(i.normal),
            r matches Some(i) ==> i.point.x == origin.x * i.time.den + i.time.num * direction.x
                && i.point.y == origin.y * i.time.den + i.time.num * direction.y,
    {
        if direction.x == 0 && direction.y == 0 {
            return None;
        }
        if direction.x == 0 && !in_range(origin.x, self.min.x, self.max.x) {
            return None;
        }
        if direction.y == 0 && !in_range(origin.y, self.min.y, self.max.y) {
            return None;
        }
        let entry: Fraction;
        let exit: Fraction;
        let along_x: bool;
        if direction.x == 0 {
            let (ey, xy) = slab(origin.y, direction.y, self.min.y, self.max.y);
            entry = ey;
            exit = xy;
            along_x = false;
        } else if direction.y == 0 {
            let (ex, xx) = slab(origin.x, direction.x, self.min.x, self.max.x);
            entry = ex;
            exit = xx;
            along_x = true;
        } else {
            let (ex, xx) = slab(origin.x, direction.x, self.min.x, self.max.x);
            let (ey, xy) = slab(origin.y, direction.y, self.min.y, self.max.y);
            proof {
                lemma_fits_compare(ex, ey);
                lemma_fits_compare(xx, xy);
            }
            along_x = !ex.lt(&ey);
            entry = if along_x { ex } else { ey };
            exit = if xx.lt(&xy) { xx } else { xy };
        }
        proof {
            lemma_fits_compare(exit, entry);
        }
        if exit.lt(&entry) {
            return None;
        }
        proof {
            lemma_mul_bound(origin.x as int, entry.den as int, RAY_LIMIT as int, RAY_LIMIT as int);
            lemma_mul_bound(origin.y as int, entry.den as int, RAY_LIMIT as int, RAY_LIMIT as int);
            lemma_mul_bound(entry.num as int, direction.x as int, 2 * RAY_LIMIT, RAY_LIMIT as int);
            lemma_mul_bound(entry.num as int, direction.y as int, 2 * RAY_LIMIT, RAY_LIMIT as int);
        }
        let normal = if along_x {
            Vector2i::new(-sign(direction.x), 0)
        } else {
            Vector2i::new(0, -sign(direction.y))
        };
        let point = Vector2i::new(
            origin.x * entry.den + entry.num * direction.x,
            origin.y * entry.den + entry.num * direction.y,
        );
        Some(Intersection { time: entry, point, normal })
    }

    /// The first intersection of the ray along the segment, kept only when it
    /// lies on the segment.
    pub open spec fn spec_line(self, line: Line) -> Option<Intersection> {
        match self.spec_ray(line.start, line.spec_delta()) {
            Some(i) => if i.time.in_unit() {
                Some(i)
            } else {
                None
            },
            None => None,
        }
    }

    /// Return the first intersection with a line segment; a segment of zero
    /// length has none
    pub fn line_intersection(&self, line: &Line) -> (r: Option<Intersection>)
        requires
            self.within(RAY_LIMIT as int),
            bounded(line.start, RAY_LIMIT / 2),
            bounded(line.end, RAY_LIMIT / 2),
        ensures
            r == self.spec_line(*line),
            r matches Some(i) ==> i.time.in_unit() && i.time.den <= RAY_LIMIT && axis_unit(i.normal),
    {
        let direction = line.get_delta();
        match self.ray_intersection(line.start, direction) {
            Some(intersection) => {
                if 0 <= intersection.time.num && intersection.time.num <= intersection.time.den {
                    Some(intersection)
                } else {
                    None
                }
            },
            None => None,
        }
    }

    /// The Minkowski sum of `other` with `self` mirrored through its center,
    /// with every coordinate doubled so that the center of `self` is whole.
    pub open spec fn spec_minkowski(self, other: Rectangle) -> Rectangle {
        Rectangle {
            min: Vector2i {
                x: (2 * other.min.x - (self.max.x - self.min.x)) as i64,
                y: (2 * other.min.y - (self.max.y - self.min.y)) as i64,
            },
            max: Vector2i {
                x: (2 * other.max.x + (self.max.x - self.min.x)) as i64,
                y: (2 * other.max.y + (self.max.y - self.min.y)) as i64,
            },
        }
    }

    /// The path of the center of `self`, in the same doubled coordinates.
    pub open spec fn spec_center_path(self, path: Vector2i) -> Line {
        Line {
            start: Vector2i { x: (self.min.x + self.max.x) as i64, y: (self.min.y + self.max.y) as i64 },
            end: Vector2i {
                x: (self.min.x + self.max.x + 2 * path.x) as i64,
                y: (self.min.y + self.max.y + 2 * path.y) as i64,
            },
        }
    }

    /// Sweeping `self` along `path` against `other` is casting the center of
    /// `self` against their Minkowski sum.
    pub open spec fn spec_sweep(self, path: Vector2i, other: Rectangle) -> Option<Impact> {
        match self.spec_minkowski(other).spec_line(self.spec_center_path(path)) {
            Some(i) => Some(Impact::spec_from(i)),
            None => None,
        }
    }

    /// Return the first impact of `self` moving along `path` with `other`
    pub fn sweep(&self, path: Vector2i, other: &Rectangle) -> (r: Option<Impact>)
        requires
            self.wf(),
            other.wf(),
            self.within(COORD_LIMIT as int),
            other.within(COORD_LIMIT as int),
            bounded(path, COORD_LIMIT as int),
        ensures
            r == self.spec_sweep(path, *other),
            r matches Some(i) ==> i.time.in_unit() && i.time.den <= RAY_LIMIT && axis_unit(i.normal),
    {
        // Doubling every coordinate leaves the times unchanged.
        let size = self.size();
        let sum = Rectangle {
            min: other.min.scale(2).sub(size),
            max: other.max.scale(2).add(size),
        };
        let start = self.min.add(self.max);
        let line = Line { start, end: start.add(path.scale(2)) };
        match sum.line_intersection(&line) {
            Some(intersection) => Some(Impact::from_intersection(intersection)),
            None => None,
        }
    }
}

impl Default for Rectangle {
    /// The square from (-1, -1) to (1, 1)
    fn default() -> (r: Rectangle)
        ensures
            r.min.x == -1 && r.min.y == -1,
            r.max.x == 1 && r.max.y == 1,
    {
        Rectangle { min: Vector2i::new(-1, -1), max: Vector2i::new(1, 1) }
    }
}

impl Line {
    /// Return the bounding box of the line
    pub fn bounding_box(&self) -> (r: Rectangle)
        ensures
            r.wf(),
            r.spec_contains(self.start),
            r.spec_contains(self.end),
            r.min.x == self.start.x || r.min.x == self.end.x,
            r.min.y == self.start.y || r.min.y == self.end.y,
            r.max.x == self.start.x || r.max.x == self.end.x,
            r.max.y == self.start.y || r.max.y == self.end.y,
    {
        let (s, e) = (self.start, self.end);
        Rectangle {
            min: Vector2i::new(if s.x < e.x { s.x } else { e.x }, if s.y < e.y { s.y } else { e.y }),
            max: Vector2i::new(if s.x < e.x { e.x } else { s.x }, if s.y < e.y { e.y } else { s.y }),
        }
    }
}

impl Collide<Rectangle> for Rectangle {
    open spec fn overlap_fits(&self, other: &Rectangle) -> bool {
        self.within(COORD_LIMIT as int) && other.within(COORD_LIMIT as int)
    }

    open spec fn spec_collides(&self, other: &Rectangle) -> bool {
        self.spec_intersects(*other)
    }

    open spec fn spec_overlap_with(&self, other: &Rectangle) -> Option<Overlap> {
        self.spec_overlap(*other)
    }

    fn intersects(&self, other: &Rectangle) -> (r: bool) {
        Rectangle::intersects(self, other)
    }

    fn overlap(&self, other: &Rectangle) -> (r: Option<Overlap>) {
        Rectangle::overlap(self, other)
    }
}

impl Sweep<Rectangle> for Rectangle {
    open spec fn sweep_fits(&self, path: Vector2i, other: &Rectangle) -> bool {
        self.wf() && other.wf() && self.within(COORD_LIMIT as int) && other.within(COORD_LIMIT as int)
            && bounded(path, COORD_LIMIT as int)
    }

    open spec fn spec_sweep_with(&self, path: Vector2i, other: &Rectangle) -> Option<Impact> {
        self.spec_sweep(path, *other)
    }

    fn sweep(&self, path: Vector2i, other: &Rectangle) -> (r: Option<Impact>) {
        Rectangle::sweep(self, path, other)
    }
}

impl Body<Rectangle> for Rectangle {}

} // verus!
