use crank::{in_range, range_overlap, ranges_intersect, sign};
use crank::{Fraction, Impact, Line, Overlap, Rectangle, Vector2i};

fn v(x: i64, y: i64) -> Vector2i {
    Vector2i::new(x, y)
}

fn rect(min_x: i64, min_y: i64, max_x: i64, max_y: i64) -> Rectangle {
    Rectangle { min: v(min_x, min_y), max: v(max_x, max_y) }
}

fn is_axis_unit(n: Vector2i) -> bool {
    (n.x == 0 && (n.y == 1 || n.y == -1)) || (n.y == 0 && (n.x == 1 || n.x == -1))
}

#[test]
fn collisions() {
    let rect_a = Rectangle::centered(v(0, 0), v(200, 200));
    let mut rect_b = Rectangle::centered(v(90, 0), v(25, 50));
    assert!(rect_b.intersects(&rect_a));

    let overlap = rect_b.overlap(&rect_a).unwrap();
    rect_b.translate(overlap.resolve);
    assert!(!rect_b.intersects(&rect_a));
    assert!(rect_b.overlap(&rect_a).is_none());

    let line = Line::new(v(150, 150), v(0, 0));
    let first = rect_a.line_intersection(&line).unwrap();
    assert_eq!(first.time.num * 3, first.time.den);
    assert_eq!(first.normal, v(1, 0));
    assert_eq!(first.point.x, 100 * first.time.den);
    assert_eq!(first.point.y, 100 * first.time.den);
}

#[test]
fn sweep_time_of_impact() {
    let obstacle = rect(9, -1, 11, 1);
    let moving = Rectangle::centered(v(0, 0), v(2, 2));
    let impact = moving.sweep(v(20, 0), &obstacle).unwrap();
    assert_eq!(impact.time.num * 5, impact.time.den * 2);
    assert_eq!(impact.normal, v(-1, 0));

    let mut contact = moving;
    contact.translate(v(20 * impact.time.num / impact.time.den, 0));
    assert_eq!(contact.center(), v(8, 0));
    assert_eq!(contact, rect(7, -1, 9, 1));
    assert!(!contact.intersects(&obstacle));
}

#[test]
fn overlap_minimum_translation() {
    // Coordinates in half units: A spans (-1,-1)..(1,1), B spans (0.5,-1)..(2.5,1).
    let a = rect(-2, -2, 2, 2);
    let b = rect(1, -2, 5, 2);
    assert_eq!(a.overlap(&b), Some(Overlap { depth: 1, resolve: v(-1, 0) }));
}

#[test]
fn ray_parallel_outside_slab_misses() {
    let target = rect(-1, -1, 1, 1);
    assert_eq!(target.ray_intersection(v(0, 5), v(1, 0)), None);
}

#[test]
fn intersects_is_symmetric() {
    let boxes = [rect(0, 0, 2, 2), rect(1, 1, 3, 3), rect(2, 0, 4, 2), rect(-5, -5, 5, 5), rect(10, 10, 10, 10)];
    for a in boxes.iter() {
        for b in boxes.iter() {
            assert_eq!(a.intersects(b), b.intersects(a));
        }
    }
    assert!(rect(0, 0, 2, 2).intersects(&rect(1, 1, 3, 3)));
    assert!(!rect(0, 0, 2, 2).intersects(&rect(2, 0, 4, 2)));
}

#[test]
fn overlap_resolve_separates() {
    let cases = [
        (rect(0, 0, 4, 4), rect(3, 1, 8, 2)),
        (rect(0, 0, 4, 4), rect(-3, 1, 1, 2)),
        (rect(0, 0, 4, 4), rect(1, 3, 2, 9)),
        (rect(0, 0, 4, 4), rect(1, -9, 2, 1)),
        (rect(0, 0, 4, 4), rect(0, 0, 4, 4)),
    ];
    for (a, b) in cases.iter() {
        let o = a.overlap(b).unwrap();
        let mut moved = *a;
        moved.translate(o.resolve);
        assert!(!moved.intersects(b));
    }
    assert_eq!(rect(0, 0, 4, 4).overlap(&rect(1, -9, 2, 1)), Some(Overlap { depth: -1, resolve: v(0, 1) }));
}

#[test]
fn overlap_tie_prefers_x() {
    let a = rect(0, 0, 2, 2);
    let b = rect(1, 1, 3, 3);
    assert_eq!(a.overlap(&b), Some(Overlap { depth: 1, resolve: v(-1, 0) }));
}

#[test]
fn zero_sweep_agrees_with_overlap() {
    let a = rect(0, 0, 2, 2);
    let apart = rect(5, 5, 7, 7);
    let touching = rect(2, 0, 4, 2);
    assert_eq!(a.sweep(v(0, 0), &apart), None);
    assert_eq!(a.overlap(&apart), None);
    assert_eq!(a.sweep(v(0, 0), &touching), None);
    assert_eq!(a.overlap(&touching), None);
}

#[test]
fn normals_are_axis_aligned() {
    let target = rect(-3, -2, 3, 2);
    let directions = [v(1, 0), v(-1, 0), v(0, 1), v(0, -1), v(1, 1), v(-2, 1), v(3, -7), v(-5, -5)];
    for d in directions.iter() {
        let origin = v(-d.x * 10, -d.y * 10);
        let hit = target.ray_intersection(origin, *d).unwrap();
        assert!(is_axis_unit(hit.normal));
        assert!(is_axis_unit(Impact::from_intersection(hit).inverse().normal));
    }
    let moving = rect(-10, -10, -8, -8);
    let impact = moving.sweep(v(20, 20), &target).unwrap();
    assert!(is_axis_unit(impact.normal));
}

#[test]
fn ray_tie_prefers_x() {
    let target = rect(-1, -1, 1, 1);
    let hit = target.ray_intersection(v(-3, -3), v(1, 1)).unwrap();
    assert_eq!(hit.normal, v(-1, 0));
    assert_eq!(hit.time, Fraction { num: 2, den: 1 });
    assert_eq!(hit.point, v(-1, -1));
}

#[test]
fn ray_entry_point_and_time() {
    let target = rect(4, -10, 6, 10);
    let hit = target.ray_intersection(v(0, 1), v(2, 1)).unwrap();
    assert_eq!(hit.time, Fraction { num: 4, den: 2 });
    assert_eq!(hit.point, v(8, 6));
    assert_eq!(hit.normal, v(-1, 0));
    assert_eq!(target.ray_intersection(v(0, 0), v(0, 0)), None);
    assert_eq!(target.ray_intersection(v(0, 0), v(-1, 0)).map(|i| i.time), Some(Fraction { num: -6, den: 1 }));
}

#[test]
fn line_intersection_stays_on_segment() {
    let target = rect(4, -1, 6, 1);
    assert!(target.line_intersection(&Line::new(v(0, 0), v(3, 0))).is_none());
    assert!(target.line_intersection(&Line::new(v(0, 0), v(0, 0))).is_none());
    assert!(target.line_intersection(&Line::new(v(10, 0), v(20, 0))).is_none());
    let hit = target.line_intersection(&Line::new(v(0, 0), v(4, 0))).unwrap();
    assert_eq!(hit.time, Fraction { num: 4, den: 4 });
    let inside = target.line_intersection(&Line::new(v(5, 0), v(9, 0)));
    assert!(inside.is_none());
}

#[test]
fn sweep_misses_and_diagonal_hits() {
    let obstacle = rect(9, -1, 11, 1);
    let moving = rect(-1, 5, 1, 7);
    assert_eq!(moving.sweep(v(20, 0), &obstacle), None);
    assert_eq!(moving.sweep(v(5, 0), &rect(9, 5, 11, 7)), None);
    let impact = moving.sweep(v(10, -6), &obstacle).unwrap();
    assert_eq!(impact.normal, v(-1, 0));
    assert_eq!(impact.time.num * 5, impact.time.den * 4);
}

#[test]
fn impact_inverse_flips_normal() {
    let impact = Impact { time: Fraction { num: 1, den: 3 }, normal: v(0, -1) };
    let inverse = impact.inverse();
    assert_eq!(inverse.time, Fraction { num: 1, den: 3 });
    assert_eq!(inverse.normal, v(0, 1));
}

#[test]
fn rectangle_basics() {
    let r = Rectangle::centered(v(0, 0), v(3, -5));
    assert_eq!(r, rect(-1, -2, 2, 3));
    assert_eq!(r.size(), v(3, 5));
    assert_eq!(r.center(), v(0, 0));
    assert_eq!(rect(-3, -3, 0, 0).center(), v(-2, -2));
    assert!(r.contains(v(2, 3)));
    assert!(r.contains(v(-1, -2)));
    assert!(!r.contains(v(3, 0)));
    let mut t = r;
    t.translate(v(10, -1));
    assert_eq!(t, rect(9, -3, 12, 2));
    assert_eq!(t.size(), r.size());
}

#[test]
fn range_helpers() {
    assert_eq!(sign(-7), -1);
    assert_eq!(sign(0), 0);
    assert_eq!(sign(12), 1);
    assert!(in_range(3, 3, 5));
    assert!(!in_range(6, 3, 5));
    assert!(ranges_intersect(0, 2, 1, 3));
    assert!(!ranges_intersect(0, 2, 2, 3));
    assert_eq!(range_overlap(0, 4, 3, 10), Some(1));
    assert_eq!(range_overlap(3, 10, 0, 4), Some(-1));
    assert_eq!(range_overlap(0, 2, 2, 3), None);
}

#[test]
fn line_bounding_box_and_default() {
    let line = Line::new(v(5, -2), v(-3, 4));
    assert_eq!(line.bounding_box(), rect(-3, -2, 5, 4));
    assert_eq!(line.get_delta(), v(-8, 6));
    assert_eq!(Rectangle::default(), rect(-1, -1, 1, 1));
}

#[test]
fn stopping_at_impact_does_not_penetrate() {
    let obstacle = rect(9, -1, 11, 1);
    let mut moving = rect(-1, 5, 1, 7);
    let path = v(10, -6);
    let impact = moving.sweep(path, &obstacle).unwrap();
    let moved = v(path.x * impact.time.num / impact.time.den, path.y * impact.time.num / impact.time.den);
    assert_eq!(moved, v(8, -4));
    moving.translate(moved);
    assert!(!moving.intersects(&obstacle));
    assert_eq!(moving.max.x, obstacle.min.x);
}
