use vstd::prelude::*;
use crate::geometry::{BoundaryBox, Vec2, UNIT, TURN, within_limit};

verus! {

/// Largest magnitude of a bouncer's speed, in distance units per step.
pub const MAX_SPEED: i64 = 1_000_000;

/// Largest magnitude of a velocity component: `MAX_SPEED * UNIT` sub-units.
pub const MAX_VELOCITY: i64 = 1_000_000_000;

/// Angle steps added on each rotating reflection: a tenth of a turn.
pub const ROTATION_STEP: i64 = 6;

/// How the bouncer responds to leaving its boundary box.
#[derive(Clone, Copy, Debug, PartialEq, Eq, Structural)]
pub enum ReflectionPolicy {
    /// Checks x only; negates the x velocity. Moves along x only.
    SimpleReflect,
    /// Checks x only; negates the speed and recomputes the velocity as
    /// `(sin a * speed, cos a * speed)` with the angle kept.
    AngledReflect,
    /// Checks both axes; turns the angle by a tenth of a turn, restarts from
    /// the box's center and recomputes the velocity as
    /// `(cos a * speed, sin a * speed)`.
    RotatingReflect,
}

/// The scripted entity.
#[derive(Clone, Copy, Debug, PartialEq, Eq, Structural)]
pub struct Bouncer {
    pub position: Vec2,
    /// Sub-units per step.
    pub velocity: Vec2,
    /// In angle steps, `0 <= angle < TURN`.
    pub angle: i64,
    /// Distance units per step; its sign flips under `AngledReflect`.
    pub speed: i64,
}

/// A table of unit direction vectors `(cos, sin)` scaled by `UNIT`, one for
/// each angle step of a turn.
pub open spec fn valid_directions(dirs: Seq<Vec2>) -> bool {
    &&& dirs.len() == TURN
    &&& forall|i: int|
        0 <= i < dirs.len() ==> -UNIT <= #[trigger] dirs[i].x <= UNIT && -UNIT <= dirs[i].y <= UNIT
}

/// The velocity `(sin a * speed, cos a * speed)` for the direction `d = (cos a, sin a)`.
pub open spec fn sin_cos_velocity(d: Vec2, speed: int) -> (int, int) {
    (d.y * speed, d.x * speed)
}

/// The velocity `(cos a * speed, sin a * speed)` for the direction `d = (cos a, sin a)`.
pub open spec fn cos_sin_velocity(d: Vec2, speed: int) -> (int, int) {
    (d.x * speed, d.y * speed)
}

/// Whether a bouncer at `p` reflects under `policy`: strict comparisons, so a
/// position on an edge of the box does not.
pub open spec fn reflects(policy: ReflectionPolicy, bx: BoundaryBox, p: Vec2) -> bool {
    match policy {
        ReflectionPolicy::RotatingReflect => bx.outside_x(p) || bx.outside_y(p),
        _ => bx.outside_x(p),
    }
}

/// Whether `t` is the position `s` moves to by the velocity `v` under `policy`.
pub open spec fn moved(policy: ReflectionPolicy, s: Vec2, v: Vec2, t: Vec2) -> bool {
    &&& t.x == s.x + v.x
    &&& t.y == (if policy == ReflectionPolicy::SimpleReflect {
        s.y as int
    } else {
        s.y + v.y
    })
}

/// Whether `t` is the bouncer `s` after one step under `policy` in `bx`, with
/// the direction table `dirs`.
pub open spec fn stepped(
    policy: ReflectionPolicy,
    bx: BoundaryBox,
    dirs: Seq<Vec2>,
    s: Bouncer,
    t: Bouncer,
) -> bool {
    if !reflects(policy, bx, s.position) {
        &&& t.angle == s.angle
        &&& t.speed == s.speed
        &&& t.velocity == s.velocity
        &&& moved(policy, s.position, t.velocity, t.position)
    } else {
        match policy {
            ReflectionPolicy::SimpleReflect => {
                &&& t.angle == s.angle
                &&& t.speed == s.speed
                &&& t.velocity.x == -s.velocity.x
                &&& t.velocity.y == s.velocity.y
                &&& moved(policy, s.position, t.velocity, t.position)
            },
            ReflectionPolicy::AngledReflect => {
                &&& t.angle == s.angle
                &&& t.speed == -s.speed
                &&& (t.velocity.x as int, t.velocity.y as int) == sin_cos_velocity(
                    dirs[s.angle as int],
                    t.speed as int,
                )
                &&& moved(policy, s.position, t.velocity, t.position)
            },
            ReflectionPolicy::RotatingReflect => {
                &&& t.angle == (s.angle + ROTATION_STEP) % (TURN as int)
                &&& t.speed == s.speed
                &&& (t.velocity.x as int, t.velocity.y as int) == cos_sin_velocity(
                    dirs[t.angle as int],
                    t.speed as int,
                )
                &&& (t.position.x - t.velocity.x, t.position.y - t.velocity.y) == bx.center_spec()
            },
        }
    }
}

pub(crate) proof fn lemma_scaled_bound(a: int, b: int)
    requires
        -UNIT <= a <= UNIT,
        -MAX_SPEED <= b <= MAX_SPEED,
    ensures
        -MAX_VELOCITY <= a * b <= MAX_VELOCITY,
{
    assert(-1_000_000_000 <= a * b <= 1_000_000_000) by (nonlinear_arith)
        requires
            -1000 <= a <= 1000,
            -1_000_000 <= b <= 1_000_000,
    ;
}

/// Scales the direction `d` by `speed`, swapping the components when `swap`.
fn scaled(d: Vec2, speed: i64, swap: bool) -> (r: Vec2)
    requires
        -UNIT <= d.x <= UNIT,
        -UNIT <= d.y <= UNIT,
        -MAX_SPEED <= speed <= MAX_SPEED,
    ensures
        swap ==> (r.x as int, r.y as int) == sin_cos_velocity(d, speed as int),
        !swap ==> (r.x as int, r.y as int) == cos_sin_velocity(d, speed as int),
        -MAX_VELOCITY <= r.x <= MAX_VELOCITY,
        -MAX_VELOCITY <= r.y <= MAX_VELOCITY,
{
    proof {
        lemma_scaled_bound(d.x as int, speed as int);
        lemma_scaled_bound(d.y as int, speed as int);
    }
    if swap {
        Vec2 { x: d.y * speed, y: d.x * speed }
    } else {
        Vec2 { x: d.x * speed, y: d.y * speed }
    }
}

impl ReflectionPolicy {
    /// Whether a bouncer at `p` reflects under this policy in `boundary`.
    pub fn reflects_at(&self, boundary: &BoundaryBox, p: Vec2) -> (r: bool)
        ensures
            r == reflects(*self, *boundary, p),
    {
        let out_x = p.x > boundary.max_x || p.x < boundary.min_x;
        match self {
            ReflectionPolicy::RotatingReflect => out_x || p.y > boundary.max_y || p.y
                < boundary.min_y,
            _ => out_x,
        }
    }
}

impl Bouncer {
    /// Angle in range, speed and velocity no larger than their limits.
    pub open spec fn valid(&self) -> bool {
        &&& 0 <= self.angle < TURN
        &&& -MAX_SPEED <= self.speed <= MAX_SPEED
        &&& -MAX_VELOCITY <= self.velocity.x <= MAX_VELOCITY
        &&& -MAX_VELOCITY <= self.velocity.y <= MAX_VELOCITY
    }

    /// Advances the bouncer by one step and returns its new position.
    pub fn step(
        &mut self,
        policy: ReflectionPolicy,
        boundary: &BoundaryBox,
        directions: &Vec<Vec2>,
    ) -> (r: Vec2)
        requires
            old(self).valid(),
            boundary.valid(),
            valid_directions(directions@),
            within_limit(old(self).position),
        ensures
            final(self).valid(),
            stepped(policy, *boundary, directions@, *old(self), *final(self)),
            r == final(self).position,
    {
        if policy.reflects_at(boundary, self.position) {
            match policy {
                ReflectionPolicy::SimpleReflect => {
                    self.velocity.x = -self.velocity.x;
                },
                ReflectionPolicy::AngledReflect => {
                    self.speed = -self.speed;
                    let d = directions[self.angle as usize];
                    self.velocity = scaled(d, self.speed, true);
                },
                ReflectionPolicy::RotatingReflect => {
                    self.angle = (self.angle + ROTATION_STEP) % TURN;
                    self.position = boundary.center();
                    let d = directions[self.angle as usize];
                    self.velocity = scaled(d, self.speed, false);
                },
            }
        }
        self.position.x = self.position.x + self.velocity.x;
        if policy != ReflectionPolicy::SimpleReflect {
            self.position.y = self.position.y + self.velocity.y;
        }
        self.position
    }
}

} // verus!
