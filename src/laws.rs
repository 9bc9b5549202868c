use vstd::prelude::*;
use crate::collision::{axis_unit, Fraction, Line};
use crate::rectangle::{axis_entry, axis_exit, Rectangle, COORD_LIMIT, RAY_LIMIT};
use crate::vector2i::{bounded, Vector2i};

verus! {

/// Whether two rectangles intersect does not depend on the order in which
/// they are given.
pub proof fn lemma_intersects_symmetric(a: Rectangle, b: Rectangle)
    ensures
        a.spec_intersects(b) == b.spec_intersects(a),
{
}

/// Moving a rectangle by the resolve vector of its overlap with another
/// leaves the two no longer overlapping.
pub proof fn lemma_overlap_separates(a: Rectangle, b: Rectangle)
    requires
        a.within(COORD_LIMIT as int),
        b.within(COORD_LIMIT as int),
        a.spec_overlap(b) is Some,
    ensures
        !a.spec_translated(a.spec_overlap(b).unwrap().resolve).spec_intersects(b),
{
}

/// Sweeping along a path of zero length never reports an impact.
pub proof fn lemma_zero_sweep_never_hits(a: Rectangle, b: Rectangle)
    requires
        a.within(COORD_LIMIT as int),
        b.within(COORD_LIMIT as int),
    ensures
        a.spec_sweep(Vector2i { x: 0, y: 0 }, b) is None,
{
}

/// On rectangles that do not overlap, a sweep along a path of zero length
/// and the overlap test agree: neither finds contact.
pub proof fn lemma_zero_sweep_matches_overlap(a: Rectangle, b: Rectangle)
    requires
        a.within(COORD_LIMIT as int),
        b.within(COORD_LIMIT as int),
        !a.spec_intersects(b),
    ensures
        a.spec_sweep(Vector2i { x: 0, y: 0 }, b).is_some() == a.spec_overlap(b).is_some(),
{
    lemma_zero_sweep_never_hits(a, b);
}

/// Every intersection and impact has a normal along exactly one axis, of
/// length one; inverting an impact keeps that so.
pub proof fn lemma_normals_axis_aligned(r: Rectangle, origin: Vector2i, direction: Vector2i, line: Line, path: Vector2i, other: Rectangle)
    ensures
        r.spec_ray(origin, direction) matches Some(i) ==> axis_unit(i.normal),
        r.spec_line(line) matches Some(i) ==> axis_unit(i.normal),
        r.spec_sweep(path, other) matches Some(i) ==> axis_unit(i.normal) && axis_unit(i.spec_inverse().normal),
{
    let m = r.spec_minkowski(other);
    let c = r.spec_center_path(path);
    assert(m.spec_line(c) matches Some(i) ==> axis_unit(i.normal));
}

/// The point reached at time `t` along the ray from `o` moving `d` per unit
/// of time lies in the rectangle, borders included (all scaled by `t.den`).
pub open spec fn reaches_at(r: Rectangle, o: Vector2i, d: Vector2i, t: Fraction) -> bool {
    r.min.x * t.den <= o.x * t.den + t.num * d.x <= r.max.x * t.den
        && r.min.y * t.den <= o.y * t.den + t.num * d.y <= r.max.y * t.den
}

/// `a <= b <= c` as fractions with positive denominators gives `a <= c`.
proof fn lemma_frac_le_trans(a: Fraction, b: Fraction, c: Fraction)
    requires
        a.den > 0,
        b.den > 0,
        c.den > 0,
        !b.spec_lt(a),
        !c.spec_lt(b),
    ensures
        !c.spec_lt(a),
{
    let (an, ad, bn, bd, cn, cd) = (a.num as int, a.den as int, b.num as int, b.den as int, c.num as int, c.den as int);
    assert(an * bd * cd <= bn * ad * cd) by (nonlinear_arith)
        requires
            an * bd <= bn * ad,
            cd > 0,
    ;
    assert(bn * cd * ad <= cn * bd * ad) by (nonlinear_arith)
        requires
            bn * cd <= cn * bd,
            ad > 0,
    ;
    assert(an * cd <= cn * ad) by (nonlinear_arith)
        requires
            an * bd * cd <= bn * ad * cd,
            bn * cd * ad <= cn * bd * ad,
            bd > 0,
    ;
}

/// Along an axis where the ray moves, its point lies in the slab exactly
/// between the entry and the exit time.
proof fn lemma_slab_moving(o: i64, d: i64, lo: i64, hi: i64, t: Fraction)
    requires
        d != 0,
        t.den > 0,
        -RAY_LIMIT <= o <= RAY_LIMIT,
        -RAY_LIMIT <= d <= RAY_LIMIT,
        -RAY_LIMIT <= lo <= RAY_LIMIT,
        -RAY_LIMIT <= hi <= RAY_LIMIT,
    ensures
        (lo * t.den <= o * t.den + t.num * d <= hi * t.den) <==> (!t.spec_lt(axis_entry(o, d, lo, hi))
            && !axis_exit(o, d, lo, hi).spec_lt(t)),
{
    let (n, den) = (t.num as int, t.den as int);
    assert((lo - o) * den == lo * den - o * den) by (nonlinear_arith);
    assert((hi - o) * den == hi * den - o * den) by (nonlinear_arith);
    assert((o - hi) * den == o * den - hi * den) by (nonlinear_arith);
    assert((o - lo) * den == o * den - lo * den) by (nonlinear_arith);
    assert(n * (-d) == -(n * d)) by (nonlinear_arith);
}

/// Along an axis where the ray does not move, its point lies in the slab at
/// every time or at none.
proof fn lemma_slab_still(o: i64, lo: i64, hi: i64, t: Fraction)
    requires
        t.den > 0,
    ensures
        (lo * t.den <= o * t.den + t.num * 0 <= hi * t.den) <==> (lo <= o <= hi),
{
    let den = t.den as int;
    assert(t.num * 0 == 0);
    assert((lo * den <= o * den) <==> (lo <= o)) by (nonlinear_arith)
        requires
            den > 0,
    ;
    assert((o * den <= hi * den) <==> (o <= hi)) by (nonlinear_arith)
        requires
            den > 0,
    ;
}

/// The slab test finds the first contact: a ray that moves reaches the
/// rectangle at some time exactly when the test reports an intersection,
/// the reported point lies in the rectangle, and no earlier time reaches it.
pub proof fn lemma_ray_first_contact(r: Rectangle, o: Vector2i, d: Vector2i, t: Fraction)
    requires
        r.within(RAY_LIMIT as int),
        bounded(o, RAY_LIMIT as int),
        bounded(d, RAY_LIMIT as int),
        d.x != 0 || d.y != 0,
        t.den > 0,
    ensures
        reaches_at(r, o, d, t) ==> r.spec_ray(o, d) is Some,
        r.spec_ray(o, d) matches Some(i) ==> reaches_at(r, o, d, i.time) && (reaches_at(r, o, d, t)
            ==> !t.spec_lt(i.time)),
{
    let ex = axis_entry(o.x, d.x, r.min.x, r.max.x);
    let ey = axis_entry(o.y, d.y, r.min.y, r.max.y);
    let xx = axis_exit(o.x, d.x, r.min.x, r.max.x);
    let xy = axis_exit(o.y, d.y, r.min.y, r.max.y);
    if d.x != 0 && d.y != 0 {
        let entry = if !ex.spec_lt(ey) { ex } else { ey };
        let exit = if xx.spec_lt(xy) { xx } else { xy };
        lemma_slab_moving(o.x, d.x, r.min.x, r.max.x, t);
        lemma_slab_moving(o.y, d.y, r.min.y, r.max.y, t);
        lemma_slab_moving(o.x, d.x, r.min.x, r.max.x, entry);
        lemma_slab_moving(o.y, d.y, r.min.y, r.max.y, entry);
        if reaches_at(r, o, d, t) {
            lemma_frac_le_trans(entry, t, exit);
        }
        if !exit.spec_lt(entry) {
            if xx.spec_lt(xy) {
                lemma_frac_le_trans(entry, xx, xy);
            } else {
                lemma_frac_le_trans(entry, xy, xx);
            }
        }
    } else if d.x == 0 {
        lemma_slab_still(o.x, r.min.x, r.max.x, t);
        lemma_slab_moving(o.y, d.y, r.min.y, r.max.y, t);
        lemma_slab_still(o.x, r.min.x, r.max.x, ey);
        lemma_slab_moving(o.y, d.y, r.min.y, r.max.y, ey);
        if reaches_at(r, o, d, t) {
            lemma_frac_le_trans(ey, t, xy);
        }
    } else {
        lemma_slab_moving(o.x, d.x, r.min.x, r.max.x, t);
        lemma_slab_still(o.y, r.min.y, r.max.y, t);
        lemma_slab_moving(o.x, d.x, r.min.x, r.max.x, ex);
        lemma_slab_still(o.y, r.min.y, r.max.y, ex);
        if reaches_at(r, o, d, t) {
            lemma_frac_le_trans(ex, t, xx);
        }
    }
}

/// At time `t` along `path`, rectangle `a` touches or overlaps `b`, borders
/// included (all scaled by `t.den`).
pub open spec fn touches_at(a: Rectangle, path: Vector2i, b: Rectangle, t: Fraction) -> bool {
    a.min.x * t.den + t.num * path.x <= b.max.x * t.den && b.min.x * t.den <= a.max.x * t.den + t.num * path.x
        && a.min.y * t.den + t.num * path.y <= b.max.y * t.den && b.min.y * t.den <= a.max.y * t.den + t.num
        * path.y
}

/// The moving rectangle touches the other exactly when its center, in
/// doubled coordinates, reaches their Minkowski sum.
proof fn lemma_touch_is_reach(a: Rectangle, path: Vector2i, b: Rectangle, t: Fraction)
    requires
        a.within(COORD_LIMIT as int),
        b.within(COORD_LIMIT as int),
        bounded(path, COORD_LIMIT as int),
        t.den > 0,
    ensures
        touches_at(a, path, b, t) == reaches_at(
            a.spec_minkowski(b),
            a.spec_center_path(path).start,
            a.spec_center_path(path).spec_delta(),
            t,
        ),
{
    let m = a.spec_minkowski(b);
    let c = a.spec_center_path(path);
    let d = c.spec_delta();
    assert(d.x == 2 * path.x && d.y == 2 * path.y);
    lemma_axis_touch(a.min.x as int, a.max.x as int, b.min.x as int, b.max.x as int, path.x as int, t.num as int, t.den as int);
    lemma_axis_touch(a.min.y as int, a.max.y as int, b.min.y as int, b.max.y as int, path.y as int, t.num as int, t.den as int);
}

/// One axis of the touch test, moved into doubled Minkowski coordinates.
proof fn lemma_axis_touch(amin: int, amax: int, bmin: int, bmax: int, p: int, n: int, den: int)
    ensures
        (amin * den + n * p <= bmax * den && bmin * den <= amax * den + n * p) <==> ((2 * bmin - (amax - amin)) * den
            <= (amin + amax) * den + n * (2 * p) <= (2 * bmax + (amax - amin)) * den),
{
    assert((2 * bmin - (amax - amin)) * den == 2 * (bmin * den) - amax * den + amin * den) by (nonlinear_arith);
    assert((2 * bmax + (amax - amin)) * den == 2 * (bmax * den) + amax * den - amin * den) by (nonlinear_arith);
    assert((amin + amax) * den == amin * den + amax * den) by (nonlinear_arith);
    assert(n * (2 * p) == 2 * (n * p)) by (nonlinear_arith);
}

/// A ray point that lies in a slab at a time at or before zero and at a
/// time at or after zero lies in it at time zero.
proof fn lemma_slab_at_zero(o: int, d: int, lo: int, hi: int, t1: Fraction, t2: Fraction)
    requires
        t1.den > 0,
        t2.den > 0,
        t1.num <= 0 <= t2.num,
        lo * t1.den <= o * t1.den + t1.num * d <= hi * t1.den,
        lo * t2.den <= o * t2.den + t2.num * d <= hi * t2.den,
    ensures
        lo <= o <= hi,
{
    let (n1, d1, n2, d2) = (t1.num as int, t1.den as int, t2.num as int, t2.den as int);
    if d >= 0 {
        assert(lo <= o) by (nonlinear_arith)
            requires
                lo * d1 <= o * d1 + n1 * d,
                n1 <= 0,
                d >= 0,
                d1 > 0,
        ;
        assert(o <= hi) by (nonlinear_arith)
            requires
                o * d2 + n2 * d <= hi * d2,
                n2 >= 0,
                d >= 0,
                d2 > 0,
        ;
    } else {
        assert(lo <= o) by (nonlinear_arith)
            requires
                lo * d2 <= o * d2 + n2 * d,
                n2 >= 0,
                d < 0,
                d2 > 0,
        ;
        assert(o <= hi) by (nonlinear_arith)
            requires
                o * d1 + n1 * d <= hi * d1,
                n1 <= 0,
                d < 0,
                d1 > 0,
        ;
    }
}

/// The sweep finds the first contact: a reported impact is a time at which
/// the moving rectangle touches the other, and no earlier time touches it.
/// When no impact is reported, a contact during the path means the two
/// already touched at its start.
pub proof fn lemma_sweep_first_contact(a: Rectangle, path: Vector2i, b: Rectangle, t: Fraction)
    requires
        a.wf(),
        b.wf(),
        a.within(COORD_LIMIT as int),
        b.within(COORD_LIMIT as int),
        bounded(path, COORD_LIMIT as int),
        path.x != 0 || path.y != 0,
        t.den > 0,
    ensures
        a.spec_sweep(path, b) matches Some(i) ==> touches_at(a, path, b, i.time) && (touches_at(a, path, b, t)
            ==> !t.spec_lt(i.time)),
        a.spec_sweep(path, b) is None && t.in_unit() && touches_at(a, path, b, t) ==> touches_at(
            a,
            path,
            b,
            Fraction { num: 0, den: 1 },
        ),
{
    let m = a.spec_minkowski(b);
    let c = a.spec_center_path(path);
    let d = c.spec_delta();
    let zero = Fraction { num: 0, den: 1 };
    let one = Fraction { num: 1, den: 1 };
    lemma_touch_is_reach(a, path, b, t);
    lemma_touch_is_reach(a, path, b, zero);
    lemma_ray_first_contact(m, c.start, d, t);
    if let Some(i) = m.spec_ray(c.start, d) {
        lemma_touch_is_reach(a, path, b, i.time);
        lemma_ray_first_contact(m, c.start, d, i.time);
        if a.spec_sweep(path, b) is None && t.in_unit() && touches_at(a, path, b, t) {
            lemma_frac_le_trans(i.time, t, one);
            assert(i.time.num < 0);
            lemma_slab_at_zero(c.start.x as int, d.x as int, m.min.x as int, m.max.x as int, i.time, t);
            lemma_slab_at_zero(c.start.y as int, d.y as int, m.min.y as int, m.max.y as int, i.time, t);
        }
    }
}

} // verus!
