//! Axis-aligned collision detection and a sliding physics integrator on
//! exact integer coordinates.
//!
//! Shapes are axis-aligned rectangles with integer corners. Times along a
//! ray or a sweep are exact fractions, so every overlap, ray and sweep
//! result is exact; the integrator rounds each sub-step's motion toward zero.
use vstd::prelude::*;

pub mod collision;
pub mod helpers;
pub mod laws;
pub mod physics;
pub mod rectangle;
pub mod vec2;
pub mod vector2i;

pub use collision::{Body, Collide, Fraction, Impact, Intersection, Line, Overlap, Sweep};
pub use helpers::{in_range, range_overlap, ranges_intersect, sign};
pub use physics::{PhysicsBody, BODY_LIMIT, DRAG_SCALE, ITERATION_CAP, TIME_SCALE};
pub use rectangle::{Rectangle, COORD_LIMIT, RAY_LIMIT};
pub use vec2::Vec2;
pub use vector2i::Vector2i;

verus! {

} // verus!
