use crank::{Fraction, Impact, PhysicsBody, Rectangle, Vec2, Vector2i};

fn v(x: i64, y: i64) -> Vector2i {
    Vector2i::new(x, y)
}

fn rect(min_x: i64, min_y: i64, max_x: i64, max_y: i64) -> Rectangle {
    Rectangle { min: v(min_x, min_y), max: v(max_x, max_y) }
}

#[test]
fn platformer() {
    let ground = rect(-1000, -100, 1000, 0);
    let wall = rect(200, 0, 220, 500);
    let obstacles = vec![ground, wall];
    let mut player = PhysicsBody::new(v(0, 50), v(5, 5));
    player.set_velocity(v(30, 0));
    for _ in 0..40 {
        player.apply_force(v(0, -4));
        player.tick(1, &obstacles);
    }
    assert!(player.is_grounded());
    assert_eq!(player.get_position(), v(195, 5));
    assert_eq!(player.get_velocity(), v(0, 0));
    let collider = player.get_collider();
    assert!(!collider.intersects(&ground));
    assert!(!collider.intersects(&wall));
}

#[test]
fn tick_stops_at_contact() {
    let obstacles = vec![rect(9, -1, 11, 1)];
    let mut body = PhysicsBody::new(v(0, 0), v(1, 1));
    body.set_velocity(v(20, 0));
    body.tick(1, &obstacles);
    assert_eq!(body.get_position(), v(8, 0));
    assert_eq!(body.get_velocity(), v(0, 0));
    assert!(!body.is_grounded());
}

#[test]
fn slide_response_removes_normal_component() {
    let mut body = PhysicsBody::new(v(0, 0), v(1, 1));
    body.set_velocity(v(3, -4));
    body.handle_impact(Impact { time: Fraction { num: 0, den: 1 }, normal: v(0, 1) });
    assert_eq!(body.get_velocity(), v(3, 0));
    assert!(body.is_grounded());
    body.handle_impact(Impact { time: Fraction { num: 0, den: 1 }, normal: v(-1, 0) });
    assert_eq!(body.get_velocity(), v(0, 0));
}

#[test]
fn free_motion_without_obstacles() {
    let mut body = PhysicsBody::new(v(1, 2), v(1, 1));
    body.set_velocity(v(7, -3));
    body.tick(2, &[]);
    assert_eq!(body.get_position(), v(15, -4));
    assert_eq!(body.get_velocity(), v(7, -3));
}

#[test]
fn drag_damps_velocity() {
    let mut body = PhysicsBody::new(v(0, 0), v(1, 1));
    body.set_velocity(v(1000, -1000));
    body.set_drag(v(100, 250));
    body.update_velocity(1);
    assert_eq!(body.get_velocity(), v(900, -750));
    assert_eq!(body.get_drag(), v(100, 250));
}

#[test]
fn overlap_correction_pushes_out() {
    let obstacles = vec![rect(-10, -10, 10, 0)];
    let mut body = PhysicsBody::new(v(0, 1), v(2, 2));
    body.set_velocity(v(0, 0));
    body.tick(1, &obstacles);
    assert_eq!(body.get_position(), v(0, 3));
    assert!(!body.get_collider().intersects(&obstacles[0]));
}

#[test]
fn vector_operations() {
    let a = v(3, -4);
    assert_eq!(Vector2i::zero(), v(0, 0));
    assert_eq!(a.dot(v(2, 1)), 2);
    assert_eq!(a.abs(), v(3, 4));
    assert_eq!(a.perpendicular(), v(4, 3));
    assert_eq!(a.perpendicular().dot(a), 0);
    assert_eq!(a.add(v(1, 1)), v(4, -3));
    assert_eq!(a.sub(v(1, 1)), v(2, -5));
    assert_eq!(a.mul(v(2, 3)), v(6, -12));
    assert_eq!(a.scale(-2), v(-6, 8));
    assert_eq!(a.neg(), v(-3, 4));
    assert_eq!(v(7, -7).div(v(2, 2)), v(3, -3));
    assert_eq!(v(7, -7).div(v(-2, -2)), v(-3, 3));
    assert_eq!(v(9, -9).div_scalar(4), v(2, -2));
    assert_eq!(a.index(0), 3);
    assert_eq!(a.index(1), -4);

    let b = Vec2::new(3, 4);
    assert_eq!(b.dot(Vec2::new(1, 2)), 11);
    assert_eq!(b.squared_length(), 25);
    assert_eq!(b.length(), 5);
    assert_eq!(Vec2::new(1, 1).length(), 1);
    assert_eq!(Vec2::new(0, 0).length(), 0);
}
