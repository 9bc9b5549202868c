use vstd::prelude::*;
use crate::collision::{axis_unit, Impact};
use crate::helpers::{lemma_mul_bound, sign, spec_sign};
use crate::rectangle::{Rectangle, COORD_LIMIT, RAY_LIMIT};
use crate::vector2i::{bounded, spec_abs, Vector2i};

verus! {

/// Largest sub-step count of one position update.
pub const ITERATION_CAP: i64 = 100;

/// Resolution of the time left in a position update: the whole step is
/// `TIME_SCALE` parts.
pub const TIME_SCALE: i64 = 1_000_000;

/// Drag is given in parts of `DRAG_SCALE` of the velocity removed per unit of time.
pub const DRAG_SCALE: i64 = 1000;

/// Largest coordinate magnitude of bodies, obstacles and one step's motion.
pub const BODY_LIMIT: i64 = 0x0010_0000;

/// `a * num / den`, rounded toward zero.
pub open spec fn spec_scale(a: int, num: int, den: int) -> int {
    if a >= 0 {
        a * num / den
    } else {
        -((-a) * num / den)
    }
}

/// Multiply `a` by the fraction `num / den` in `[0, 1]`, rounding toward zero.
fn scale_fraction(a: i64, num: i64, den: i64) -> (r: i64)
    requires
        0 < den <= 0x4000_0000,
        0 <= num <= den,
        -0x1000_0000 <= a <= 0x1000_0000,
    ensures
        r == spec_scale(a as int, num as int, den as int),
        spec_abs(r as int) <= spec_abs(a as int),
        a >= 0 ==> r >= 0,
        a <= 0 ==> r <= 0,
        num == den ==> r == a,
{
    let m: i64 = if a >= 0 { a } else { -a };
    proof {
        assert(0 <= m * num <= m * den) by (nonlinear_arith)
            requires
                0 <= m,
                0 <= num <= den,
        ;
        assert(m * num <= 0x1000_0000 * 0x4000_0000) by (nonlinear_arith)
            requires
                0 <= m <= 0x1000_0000,
                0 <= num <= 0x4000_0000,
        ;
        assert((m * num) / (den as int) <= m) by (nonlinear_arith)
            requires
                0 <= m * num <= m * den,
                0 < den,
        ;
        assert(num == den ==> (m * num) / (den as int) == m) by (nonlinear_arith)
            requires
                0 < den,
        ;
    }
    let q = m * num / den;
    if a >= 0 {
        q
    } else {
        -q
    }
}

/// The sign of each component.
pub open spec fn spec_unit(v: Vector2i) -> Vector2i {
    Vector2i { x: spec_sign(v.x as int) as i64, y: spec_sign(v.y as int) as i64 }
}

/// The velocity `(v . t) t` along the tangent `t = (n.y, n.x)` of a surface
/// with normal `n`: the part of `v` that goes into the surface is removed.
pub open spec fn spec_slide(v: Vector2i, n: Vector2i) -> Vector2i {
    let d = v.x * n.y + v.y * n.x;
    Vector2i { x: (d * n.y) as i64, y: (d * n.x) as i64 }
}

/// The velocity response to an axis-aligned normal.
fn slide(v: Vector2i, n: Vector2i) -> (r: Vector2i)
    requires
        axis_unit(n),
    ensures
        r == spec_slide(v, n),
        n.x == 0 ==> r.x == v.x && r.y == 0,
        n.y == 0 ==> r.x == 0 && r.y == v.y,
{
    if n.x == 0 {
        assert((v.x * n.y + v.y * n.x) * n.y == v.x && (v.x * n.y + v.y * n.x) * n.x == 0)
            by (nonlinear_arith)
            requires
                n.x == 0,
                n.y == 1 || n.y == -1,
        ;
        Vector2i { x: v.x, y: 0 }
    } else {
        assert((v.x * n.y + v.y * n.x) * n.y == 0 && (v.x * n.y + v.y * n.x) * n.x == v.y)
            by (nonlinear_arith)
            requires
                n.y == 0,
                n.x == 1 || n.x == -1,
        ;
        Vector2i { x: 0, y: v.y }
    }
}

/// A moving axis-aligned body: a box of fixed half extent around `position`.
#[derive(Copy, Clone, Debug, PartialEq, Eq, Structural)]
pub struct PhysicsBody {
    pub position: Vector2i,
    pub velocity: Vector2i,
    /// Parts of `DRAG_SCALE` of the velocity removed per unit of time, per axis
    pub drag: Vector2i,
    pub half_size: Vector2i,
    /// Set when the body landed on a surface during the last tick
    pub grounded: bool,
}

/// The box bounding a collider's motion by `delta` in every direction.
pub open spec fn spec_broad_phase(c: Rectangle, delta: Vector2i) -> Rectangle {
    Rectangle {
        min: Vector2i { x: (c.min.x - spec_abs(delta.x as int)) as i64, y: (c.min.y - spec_abs(delta.y as int)) as i64 },
        max: Vector2i { x: (c.max.x + spec_abs(delta.x as int)) as i64, y: (c.max.y + spec_abs(delta.y as int)) as i64 },
    }
}

/// The earliest impact of the collider moving by `delta` with the obstacles
/// whose interiors meet its broad-phase box; of equal times the first obstacle wins.
pub open spec fn spec_first_impact(c: Rectangle, delta: Vector2i, obstacles: Seq<Rectangle>) -> Option<Impact>
    decreases obstacles.len(),
{
    if obstacles.len() == 0 {
        None
    } else {
        let prev = spec_first_impact(c, delta, obstacles.drop_last());
        let o = obstacles.last();
        if !o.spec_intersects(spec_broad_phase(c, delta)) {
            prev
        } else {
            match c.spec_sweep(delta, o) {
                None => prev,
                Some(imp) => match prev {
                    None => Some(imp),
                    Some(p) => if imp.time.spec_lt(p.time) {
                        Some(imp)
                    } else {
                        prev
                    },
                },
            }
        }
    }
}

/// The motion over the part `remaining / TIME_SCALE` of a full step.
pub open spec fn spec_motion(full: Vector2i, remaining: int) -> Vector2i {
    Vector2i {
        x: spec_scale(full.x as int, remaining, TIME_SCALE as int) as i64,
        y: spec_scale(full.y as int, remaining, TIME_SCALE as int) as i64,
    }
}

/// The velocity after one tick's drag.
pub open spec fn spec_damped(v: Vector2i, drag: Vector2i, dt: i64) -> Vector2i {
    Vector2i {
        x: (v.x - spec_scale(v.x * dt, drag.x as int, DRAG_SCALE as int)) as i64,
        y: (v.y - spec_scale(v.y * dt, drag.y as int, DRAG_SCALE as int)) as i64,
    }
}

/// A factor of a bounded product with a nonzero other factor is bounded too.
proof fn lemma_small_factor(v: int, dt: int)
    requires
        -BODY_LIMIT <= v * dt <= BODY_LIMIT,
    ensures
        dt == 0 || -BODY_LIMIT <= v <= BODY_LIMIT,
{
    if dt != 0 {
        assert(-BODY_LIMIT <= v <= BODY_LIMIT) by (nonlinear_arith)
            requires
                -BODY_LIMIT <= v * dt <= BODY_LIMIT,
                dt != 0,
        ;
    }
}

/// Every obstacle has no negative side and lies within `BODY_LIMIT`.
pub open spec fn obstacles_ok(obstacles: Seq<Rectangle>) -> bool {
    forall|i: int| 0 <= i < obstacles.len() ==> #[trigger] obstacles[i].wf() && obstacles[i].within(BODY_LIMIT as int)
}

/// The earliest impact of `collider` moving by `delta` among the obstacles
/// that intersect the box bounding that motion.
fn first_impact(collider: &Rectangle, delta: Vector2i, obstacles: &[Rectangle]) -> (r: Option<Impact>)
    requires
        collider.wf(),
        collider.within((COORD_LIMIT - BODY_LIMIT) as int),
        bounded(delta, BODY_LIMIT as int),
        obstacles_ok(obstacles@),
    ensures
        r == spec_first_impact(*collider, delta, obstacles@),
        r matches Some(f) ==> f.time.in_unit() && f.time.den <= RAY_LIMIT && axis_unit(f.normal),
{
    let extent = delta.abs();
    let broad_phase = Rectangle { min: collider.min.sub(extent), max: collider.max.add(extent) };
    let mut first: Option<Impact> = None;
    let mut i: usize = 0;
    while i < obstacles.len()
        invariant
            i <= obstacles.len(),
            collider.wf(),
            collider.within((COORD_LIMIT - BODY_LIMIT) as int),
            bounded(delta, BODY_LIMIT as int),
            obstacles_ok(obstacles@),
            broad_phase == spec_broad_phase(*collider, delta),
            first == spec_first_impact(*collider, delta, obstacles@.subrange(0, i as int)),
            first matches Some(f) ==> f.time.in_unit() && f.time.den <= RAY_LIMIT && axis_unit(f.normal),
        decreases obstacles.len() - i,
    {
        let obstacle = &obstacles[i];
        assert(obstacles@.subrange(0, i as int + 1).drop_last() =~= obstacles@.subrange(0, i as int));
        assert(obstacles@.subrange(0, i as int + 1).last() == obstacles@[i as int]);
        assert(obstacles@[i as int].wf());
        if obstacle.intersects(&broad_phase) {
            if let Some(impact) = collider.sweep(delta, obstacle) {
                match first {
                    Some(f) => {
                        proof {
                            lemma_mul_bound(impact.time.num as int, f.time.den as int, RAY_LIMIT as int, RAY_LIMIT as int);
                            lemma_mul_bound(f.time.num as int, impact.time.den as int, RAY_LIMIT as int, RAY_LIMIT as int);
                        }
                        if impact.time.lt(&f.time) {
                            first = Some(impact);
                        }
                    },
                    None => {
                        first = Some(impact);
                    },
                }
            }
        }
        i = i + 1;
    }
    assert(obstacles@.subrange(0, obstacles.len() as int) =~= obstacles@);
    first
}

impl PhysicsBody {
    /// Create a body at rest, without drag
    pub fn new(position: Vector2i, half_size: Vector2i) -> (r: PhysicsBody)
        ensures
            r.position == position,
            r.half_size == half_size,
            r.velocity == Vector2i::spec_zero(),
            r.drag == Vector2i::spec_zero(),
            !r.grounded,
    {
        PhysicsBody {
            position,
            velocity: Vector2i::zero(),
            drag: Vector2i::zero(),
            half_size,
            grounded: false,
        }
    }

    /// The box the body occupies
    pub fn get_collider(&self) -> (r: Rectangle)
        requires
            self.wf(),
            bounded(self.position, (COORD_LIMIT - 2 * BODY_LIMIT) as int),
        ensures
            r == self.spec_collider(),
            r.wf(),
            r.within((COORD_LIMIT - BODY_LIMIT) as int),
    {
        Rectangle { min: self.position.sub(self.half_size), max: self.position.add(self.half_size) }
    }

    /// Add a force to the velocity
    pub fn apply_force(&mut self, force: Vector2i)
        requires
            i64::MIN <= old(self).velocity.x + force.x <= i64::MAX,
            i64::MIN <= old(self).velocity.y + force.y <= i64::MAX,
        ensures
            final(self).velocity.x == old(self).velocity.x + force.x,
            final(self).velocity.y == old(self).velocity.y + force.y,
            final(self).position == old(self).position,
            final(self).drag == old(self).drag,
            final(self).half_size == old(self).half_size,
            final(self).grounded == old(self).grounded,
    {
        self.velocity = self.velocity.add(force);
    }

    /// Remove the velocity into a surface and keep the velocity along it;
    /// landing on a surface that faces up grounds the body
    pub fn handle_impact(&mut self, impact: Impact)
        requires
            axis_unit(impact.normal),
        ensures
            *final(self) == old(self).spec_after_impact(impact),
            impact.normal.x == 0 ==> final(self).velocity.x == old(self).velocity.x && final(self).velocity.y == 0,
            impact.normal.y == 0 ==> final(self).velocity.x == 0 && final(self).velocity.y == old(self).velocity.y,
    {
        self.velocity = slide(self.velocity, impact.normal);
        if impact.normal.y == 1 {
            self.grounded = true;
        }
    }

    /// Apply one tick's drag to the velocity
    pub fn update_velocity(&mut self, dt: i64)
        requires
            old(self).wf(),
            -BODY_LIMIT <= old(self).velocity.x * dt <= BODY_LIMIT,
            -BODY_LIMIT <= old(self).velocity.y * dt <= BODY_LIMIT,
        ensures
            *final(self) == (PhysicsBody { velocity: spec_damped(old(self).velocity, old(self).drag, dt), ..*old(self) }),
    {
        let v = self.velocity;
        let full = v.scale(dt);
        let dx = scale_fraction(full.x, self.drag.x, DRAG_SCALE);
        let dy = scale_fraction(full.y, self.drag.y, DRAG_SCALE);
        proof {
            lemma_small_factor(v.x as int, dt as int);
            lemma_small_factor(v.y as int, dt as int);
        }
        self.velocity = Vector2i::new(v.x - dx, v.y - dy);
    }

    /// Move the body by its velocity over `dt`, stopping at each first impact
    /// and sliding along the surface hit for the time left, then push it out
    /// of any obstacle it still overlaps
    pub fn update_position(&mut self, dt: i64, obstacles: &[Rectangle])
        requires
            old(self).wf(),
            bounded(old(self).position, BODY_LIMIT as int),
            -BODY_LIMIT <= old(self).velocity.x * dt <= BODY_LIMIT,
            -BODY_LIMIT <= old(self).velocity.y * dt <= BODY_LIMIT,
            obstacles_ok(obstacles@),
        ensures
            *final(self) == old(self).spec_update_position(dt, obstacles@),
            final(self).half_size == old(self).half_size,
            final(self).drag == old(self).drag,
            final(self).velocity.x == 0 || final(self).velocity.x == old(self).velocity.x,
            final(self).velocity.y == 0 || final(self).velocity.y == old(self).velocity.y,
    {
        let ghost start = *self;
        let mut remaining: i64 = TIME_SCALE;
        let mut iterations: i64 = 0;
        while remaining > 0 && iterations < ITERATION_CAP
            invariant
                0 <= remaining <= TIME_SCALE,
                0 <= iterations <= ITERATION_CAP,
                self.wf(),
                self.half_size == start.half_size,
                self.drag == start.drag,
                self.velocity.x == 0 || self.velocity.x == start.velocity.x,
                self.velocity.y == 0 || self.velocity.y == start.velocity.y,
                -BODY_LIMIT <= start.velocity.x * dt <= BODY_LIMIT,
                -BODY_LIMIT <= start.velocity.y * dt <= BODY_LIMIT,
                bounded(start.position, BODY_LIMIT as int),
                -iterations * BODY_LIMIT <= self.position.x - start.position.x <= iterations * BODY_LIMIT,
                -iterations * BODY_LIMIT <= self.position.y - start.position.y <= iterations * BODY_LIMIT,
                obstacles_ok(obstacles@),
                self.spec_substeps(dt, obstacles@, remaining as int, iterations as int)
                    == start.spec_substeps(dt, obstacles@, TIME_SCALE as int, 0),
            decreases ITERATION_CAP - iterations,
        {
            let full = self.velocity.scale(dt);
            let delta = Vector2i::new(
                scale_fraction(full.x, remaining, TIME_SCALE),
                scale_fraction(full.y, remaining, TIME_SCALE),
            );
            let collider = self.get_collider();
            match first_impact(&collider, delta, obstacles) {
                Some(impact) => {
                    let moved = Vector2i::new(
                        scale_fraction(delta.x, impact.time.num, impact.time.den),
                        scale_fraction(delta.y, impact.time.num, impact.time.den),
                    );
                    self.position = self.position.add(moved);
                    self.handle_impact(impact);
                    remaining = scale_fraction(remaining, impact.time.den - impact.time.num, impact.time.den);
                },
                None => {
                    self.position = self.position.add(delta);
                    remaining = 0;
                },
            }
            iterations = iterations + 1;
        }
        let ghost stepped = *self;
        let mut i: usize = 0;
        while i < obstacles.len()
            invariant
                i <= obstacles.len(),
                self.wf(),
                bounded(self.position, (ITERATION_CAP + 1) * BODY_LIMIT),
                obstacles_ok(obstacles@),
                *self == stepped.spec_correct(obstacles@.subrange(0, i as int)),
                self.half_size == start.half_size,
                self.drag == start.drag,
                self.velocity.x == 0 || self.velocity.x == start.velocity.x,
                self.velocity.y == 0 || self.velocity.y == start.velocity.y,
            decreases obstacles.len() - i,
        {
            assert(obstacles@.subrange(0, i as int + 1).drop_last() =~= obstacles@.subrange(0, i as int));
            assert(obstacles@.subrange(0, i as int + 1).last() == obstacles@[i as int]);
            assert(obstacles@[i as int].wf());
            let collider = self.get_collider();
            if let Some(overlap) = collider.overlap(&obstacles[i]) {
                let unit = Vector2i::new(sign(overlap.resolve.x), sign(overlap.resolve.y));
                self.position = self.position.add(overlap.resolve).add(unit);
                self.velocity = slide(self.velocity, Vector2i::new(-unit.x, -unit.y));
            }
            i = i + 1;
        }
        assert(obstacles@.subrange(0, obstacles.len() as int) =~= obstacles@);
    }

    /// Advance the body by `dt`: clear the grounded flag, apply drag, then
    /// move against the obstacles
    pub fn tick(&mut self, dt: i64, obstacles: &[Rectangle])
        requires
            old(self).wf(),
            bounded(old(self).position, BODY_LIMIT as int),
            -BODY_LIMIT <= old(self).velocity.x * dt <= BODY_LIMIT,
            -BODY_LIMIT <= old(self).velocity.y * dt <= BODY_LIMIT,
            -BODY_LIMIT <= spec_damped(old(self).velocity, old(self).drag, dt).x * dt <= BODY_LIMIT,
            -BODY_LIMIT <= spec_damped(old(self).velocity, old(self).drag, dt).y * dt <= BODY_LIMIT,
            obstacles_ok(obstacles@),
        ensures
            *final(self) == (PhysicsBody {
                velocity: spec_damped(old(self).velocity, old(self).drag, dt),
                grounded: false,
                ..*old(self)
            }).spec_update_position(dt, obstacles@),
    {
        self.grounded = false;
        self.update_velocity(dt);
        self.update_position(dt, obstacles);
    }

    pub fn get_position(&self) -> (r: Vector2i)
        ensures
            r == self.position,
    {
        self.position
    }

    pub fn set_position(&mut self, position: Vector2i)
        ensures
            *final(self) == (PhysicsBody { position, ..*old(self) }),
    {
        self.position = position;
    }

    pub fn get_velocity(&self) -> (r: Vector2i)
        ensures
            r == self.velocity,
    {
        self.velocity
    }

    pub fn set_velocity(&mut self, velocity: Vector2i)
        ensures
            *final(self) == (PhysicsBody { velocity, ..*old(self) }),
    {
        self.velocity = velocity;
    }

    pub fn get_drag(&self) -> (r: Vector2i)
        ensures
            r == self.drag,
    {
        self.drag
    }

    pub fn set_drag(&mut self, drag: Vector2i)
        ensures
            *final(self) == (PhysicsBody { drag, ..*old(self) }),
    {
        self.drag = drag;
    }

    /// Whether the body landed on a surface during the last tick
    pub fn is_grounded(&self) -> (r: bool)
        ensures
            r == self.grounded,
    {
        self.grounded
    }

    /// Half extents are not negative and drag removes at most the whole
    /// velocity per unit of time.
    pub open spec fn wf(self) -> bool {
        0 <= self.half_size.x <= BODY_LIMIT && 0 <= self.half_size.y <= BODY_LIMIT
            && 0 <= self.drag.x <= DRAG_SCALE && 0 <= self.drag.y <= DRAG_SCALE
    }

    pub open spec fn spec_collider(self) -> Rectangle {
        Rectangle {
            min: Vector2i { x: (self.position.x - self.half_size.x) as i64, y: (self.position.y - self.half_size.y) as i64 },
            max: Vector2i { x: (self.position.x + self.half_size.x) as i64, y: (self.position.y + self.half_size.y) as i64 },
        }
    }

    pub open spec fn spec_moved(self, delta: Vector2i) -> PhysicsBody {
        PhysicsBody {
            position: Vector2i { x: (self.position.x + delta.x) as i64, y: (self.position.y + delta.y) as i64 },
            ..self
        }
    }

    pub open spec fn spec_after_impact(self, impact: Impact) -> PhysicsBody {
        PhysicsBody {
            velocity: spec_slide(self.velocity, impact.normal),
            grounded: if impact.normal.y == 1 { true } else { self.grounded },
            ..self
        }
    }

    /// One sub-step: move to the earliest impact and slide, or move the
    /// whole remaining way. Returns the body and the time left.
    pub open spec fn spec_step(self, dt: i64, obstacles: Seq<Rectangle>, remaining: int) -> (PhysicsBody, int) {
        let full = Vector2i { x: (self.velocity.x * dt) as i64, y: (self.velocity.y * dt) as i64 };
        let delta = spec_motion(full, remaining);
        match spec_first_impact(self.spec_collider(), delta, obstacles) {
            Some(imp) => {
                let moved = Vector2i {
                    x: spec_scale(delta.x as int, imp.time.num as int, imp.time.den as int) as i64,
                    y: spec_scale(delta.y as int, imp.time.num as int, imp.time.den as int) as i64,
                };
                (
                    self.spec_moved(moved).spec_after_impact(imp),
                    spec_scale(remaining, imp.time.den - imp.time.num, imp.time.den as int),
                )
            },
            None => (self.spec_moved(delta), 0),
        }
    }

    /// Sub-steps until no time is left or the iteration cap is reached.
    pub open spec fn spec_substeps(self, dt: i64, obstacles: Seq<Rectangle>, remaining: int, iterations: int) -> PhysicsBody
        decreases ITERATION_CAP - iterations,
    {
        if remaining > 0 && iterations < ITERATION_CAP {
            let (next, left) = self.spec_step(dt, obstacles, remaining);
            next.spec_substeps(dt, obstacles, left, iterations + 1)
        } else {
            self
        }
    }

    /// Pushes the body out of one obstacle it still overlaps, one unit past
    /// contact, and removes the velocity into that obstacle.
    pub open spec fn spec_correct_one(self, o: Rectangle) -> PhysicsBody {
        match self.spec_collider().spec_overlap(o) {
            Some(ov) => {
                let u = spec_unit(ov.resolve);
                PhysicsBody {
                    position: Vector2i {
                        x: (self.position.x + ov.resolve.x + u.x) as i64,
                        y: (self.position.y + ov.resolve.y + u.y) as i64,
                    },
                    velocity: spec_slide(self.velocity, Vector2i { x: -u.x as i64, y: -u.y as i64 }),
                    ..self
                }
            },
            None => self,
        }
    }

    /// The overlap correction against each obstacle in turn.
    pub open spec fn spec_correct(self, obstacles: Seq<Rectangle>) -> PhysicsBody
        decreases obstacles.len(),
    {
        if obstacles.len() == 0 {
            self
        } else {
            self.spec_correct(obstacles.drop_last()).spec_correct_one(obstacles.last())
        }
    }

    /// The whole position update of one tick.
    pub open spec fn spec_update_position(self, dt: i64, obstacles: Seq<Rectangle>) -> PhysicsBody {
        self.spec_substeps(dt, obstacles, TIME_SCALE as int, 0).spec_correct(obstacles)
    }
}

/// With no obstacles, a position update moves the body by exactly its
/// velocity times `dt` and leaves its velocity alone.
pub proof fn lemma_free_motion(body: PhysicsBody, dt: i64)
    requires
        -BODY_LIMIT <= body.velocity.x * dt <= BODY_LIMIT,
        -BODY_LIMIT <= body.velocity.y * dt <= BODY_LIMIT,
        bounded(body.position, BODY_LIMIT as int),
    ensures
        body.spec_update_position(dt, Seq::empty()).position.x == body.position.x + body.velocity.x * dt,
        body.spec_update_position(dt, Seq::empty()).position.y == body.position.y + body.velocity.y * dt,
        body.spec_update_position(dt, Seq::empty()).velocity == body.velocity,
{
    let empty = Seq::<Rectangle>::empty();
    let full = Vector2i { x: (body.velocity.x * dt) as i64, y: (body.velocity.y * dt) as i64 };
    let delta = spec_motion(full, TIME_SCALE as int);
    let k = TIME_SCALE as int;
    assert forall|a: int| #[trigger] (a * k) / k == a by {
        assert((a * k) / k == a) by (nonlinear_arith)
            requires
                k > 0,
        ;
    }
    assert(delta == full);
    assert(spec_first_impact(body.spec_collider(), delta, empty) is None);
    let (next, left) = body.spec_step(dt, empty, TIME_SCALE as int);
    assert(left == 0);
    assert(body.spec_substeps(dt, empty, TIME_SCALE as int, 0) == next.spec_substeps(dt, empty, 0, 1));
    assert(next.spec_correct(empty) == next);
}

/// `p * (2 * k) / (2 * p)` is `k` for a positive `p`.
proof fn lemma_cancel_double(p: int, k: int)
    requires
        p > 0,
    ensures
        (p * (2 * k)) / (2 * p) == k,
{
    assert((p * (2 * k)) == k * (2 * p)) by (nonlinear_arith);
    assert((k * (2 * p)) / (2 * p) == k) by (nonlinear_arith)
        requires
            p > 0,
    ;
}

/// Moving a rectangle to its first impact along a path, each component of
/// the motion rounded toward zero, leaves it touching the obstacle without
/// overlapping it: along the axis that was hit the motion is exact.
pub proof fn lemma_impact_stop_does_not_penetrate(a: Rectangle, path: Vector2i, b: Rectangle)
    requires
        a.wf(),
        b.wf(),
        a.within(COORD_LIMIT as int),
        b.within(COORD_LIMIT as int),
        bounded(path, COORD_LIMIT as int),
        a.spec_sweep(path, b) is Some,
    ensures
        ({
            let i = a.spec_sweep(path, b).unwrap();
            let moved = Vector2i {
                x: spec_scale(path.x as int, i.time.num as int, i.time.den as int) as i64,
                y: spec_scale(path.y as int, i.time.num as int, i.time.den as int) as i64,
            };
            !a.spec_translated(moved).spec_intersects(b)
        }),
{
    let m = a.spec_minkowski(b);
    let c = a.spec_center_path(path);
    let d = c.spec_delta();
    assert(d.x == 2 * path.x && d.y == 2 * path.y);
    let i = m.spec_ray(c.start, d).unwrap();
    if i.normal.x != 0 {
        if path.x > 0 {
            lemma_cancel_double(path.x as int, b.min.x - a.max.x);
        } else {
            lemma_cancel_double(-path.x, a.min.x - b.max.x);
        }
    } else {
        if path.y > 0 {
            lemma_cancel_double(path.y as int, b.min.y - a.max.y);
        } else {
            lemma_cancel_double(-path.y, a.min.y - b.max.y);
        }
    }
}

} // verus!
