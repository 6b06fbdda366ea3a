use vstd::prelude::*;
use crate::geometry::{BoundaryBox, Vec2, UNIT, TURN, MAX_COORD, within_limit};
use crate::bouncer::{
    Bouncer,
    ReflectionPolicy,
    MAX_SPEED,
    valid_directions,
    sin_cos_velocity,
    stepped,
};
use crate::actor::{Actor, CommandSet, Orientation, actor_stepped};

verus! {

/// Where the actor starts, on the x axis, in sub-units.
pub const ACTOR_START_X: i64 = 100_000;

/// Why a configuration is refused.
#[derive(Clone, Copy, Debug, PartialEq, Eq, Structural)]
pub enum ConfigError {
    /// The box has zero or negative extent on an axis.
    EmptyBoundary,
    /// A box coordinate is larger than `MAX_COORD`.
    BoundaryTooLarge,
    /// The bouncer would never move.
    ZeroSpeed,
    /// The speed is larger than `MAX_SPEED`.
    SpeedTooLarge,
    /// The starting angle is not in `[0, TURN)`.
    AngleOutOfRange,
    /// The direction table does not hold `TURN` vectors no longer than `UNIT`
    /// in each component.
    InvalidDirections,
}

/// The first check that a configuration fails, if any.
pub open spec fn config_error(
    boundary: BoundaryBox,
    speed: int,
    angle: int,
    dirs: Seq<Vec2>,
) -> Option<ConfigError> {
    if !(boundary.min_x < boundary.max_x && boundary.min_y < boundary.max_y) {
        Some(ConfigError::EmptyBoundary)
    } else if !boundary.valid() {
        Some(ConfigError::BoundaryTooLarge)
    } else if speed == 0 {
        Some(ConfigError::ZeroSpeed)
    } else if !(-MAX_SPEED <= speed <= MAX_SPEED) {
        Some(ConfigError::SpeedTooLarge)
    } else if !(0 <= angle < TURN) {
        Some(ConfigError::AngleOutOfRange)
    } else if !valid_directions(dirs) {
        Some(ConfigError::InvalidDirections)
    } else {
        None
    }
}

/// The bouncer's starting velocity: `(speed, 0)` for `SimpleReflect`, else
/// `(sin a * speed, cos a * speed)`.
pub open spec fn initial_velocity(
    policy: ReflectionPolicy,
    speed: int,
    angle: int,
    dirs: Seq<Vec2>,
) -> (int, int) {
    if policy == ReflectionPolicy::SimpleReflect {
        (speed * UNIT, 0)
    } else {
        sin_cos_velocity(dirs[angle], speed)
    }
}

/// The bouncer, the actor and the configuration they move in.
pub struct Simulator {
    pub policy: ReflectionPolicy,
    pub boundary: BoundaryBox,
    /// Unit directions `(cos, sin)` scaled by `UNIT`, one per angle step.
    pub directions: Vec<Vec2>,
    pub bouncer: Bouncer,
    pub actor: Actor,
}

fn directions_ok(dirs: &Vec<Vec2>) -> (r: bool)
    ensures
        r == valid_directions(dirs@),
{
    if dirs.len() != TURN as usize {
        return false;
    }
    let mut i: usize = 0;
    while i < dirs.len()
        invariant
            0 <= i <= dirs.len(),
            dirs@.len() == TURN,
            forall|j: int|
                0 <= j < i ==> -UNIT <= #[trigger] dirs@[j].x <= UNIT && -UNIT <= dirs@[j].y
                    <= UNIT,
        decreases dirs.len() - i,
    {
        let d = dirs[i];
        if d.x < -UNIT || d.x > UNIT || d.y < -UNIT || d.y > UNIT {
            return false;
        }
        i += 1;
    }
    true
}

impl Simulator {
    /// The configuration holds and both entities are within their limits.
    pub open spec fn wf(&self) -> bool {
        &&& self.boundary.valid()
        &&& valid_directions(self.directions@)
        &&& self.bouncer.valid()
        &&& self.actor.valid()
    }

    /// Checks the configuration and places the bouncer at the origin and the
    /// actor at `(ACTOR_START_X, 0)` with no rotation.
    pub fn initialize(
        boundary: BoundaryBox,
        policy: ReflectionPolicy,
        initial_angle: i64,
        speed: i64,
        directions: Vec<Vec2>,
    ) -> (r: Result<Simulator, ConfigError>)
        ensures
            config_error(boundary, speed as int, initial_angle as int, directions@) matches Some(
                e,
            ) ==> r == Err::<Simulator, ConfigError>(e),
            config_error(boundary, speed as int, initial_angle as int, directions@) is None
                ==> r is Ok,
            r matches Ok(s) ==> {
                &&& s.wf()
                &&& s.policy == policy
                &&& s.boundary == boundary
                &&& s.directions@ == directions@
                &&& s.bouncer.position == Vec2 { x: 0, y: 0 }
                &&& s.bouncer.angle == initial_angle
                &&& s.bouncer.speed == speed
                &&& (s.bouncer.velocity.x as int, s.bouncer.velocity.y as int)
                    == initial_velocity(policy, speed as int, initial_angle as int, directions@)
                &&& s.actor.position == Vec2 { x: ACTOR_START_X, y: 0 }
                &&& s.actor.orientation == Orientation { cos: UNIT, sin: 0 }
            },
    {
        if !(boundary.min_x < boundary.max_x && boundary.min_y < boundary.max_y) {
            return Err(ConfigError::EmptyBoundary);
        }
        if boundary.min_x < -MAX_COORD || boundary.max_x > MAX_COORD || boundary.min_y < -MAX_COORD
            || boundary.max_y > MAX_COORD {
            return Err(ConfigError::BoundaryTooLarge);
        }
        if speed == 0 {
            return Err(ConfigError::ZeroSpeed);
        }
        if speed < -MAX_SPEED || speed > MAX_SPEED {
            return Err(ConfigError::SpeedTooLarge);
        }
        if initial_angle < 0 || initial_angle >= TURN {
            return Err(ConfigError::AngleOutOfRange);
        }
        if !directions_ok(&directions) {
            return Err(ConfigError::InvalidDirections);
        }
        let velocity = if policy == ReflectionPolicy::SimpleReflect {
            Vec2 { x: speed * UNIT, y: 0 }
        } else {
            let d = directions[initial_angle as usize];
            proof {
                crate::bouncer::lemma_scaled_bound(d.x as int, speed as int);
                crate::bouncer::lemma_scaled_bound(d.y as int, speed as int);
            }
            Vec2 { x: d.y * speed, y: d.x * speed }
        };
        let bouncer = Bouncer {
            position: Vec2 { x: 0, y: 0 },
            velocity,
            angle: initial_angle,
            speed,
        };
        let actor = Actor {
            position: Vec2 { x: ACTOR_START_X, y: 0 },
            orientation: Orientation::identity(),
        };
        Ok(Simulator { policy, boundary, directions, bouncer, actor })
    }

    /// Advances the bouncer by one step under the configured policy and
    /// returns its new position. The actor is untouched.
    pub fn step_bouncer(&mut self) -> (r: Vec2)
        requires
            old(self).wf(),
            within_limit(old(self).bouncer.position),
        ensures
            final(self).wf(),
            stepped(
                old(self).policy,
                old(self).boundary,
                old(self).directions@,
                old(self).bouncer,
                final(self).bouncer,
            ),
            final(self).policy == old(self).policy,
            final(self).boundary == old(self).boundary,
            final(self).directions@ == old(self).directions@,
            final(self).actor == old(self).actor,
            r == final(self).bouncer.position,
    {
        self.bouncer.step(self.policy, &self.boundary, &self.directions)
    }

    /// Moves the actor by the commands active this tick and returns its new
    /// position. The bouncer is untouched.
    pub fn step_actor(&mut self, commands: &CommandSet) -> (r: Vec2)
        requires
            old(self).wf(),
            within_limit(old(self).actor.position),
        ensures
            final(self).wf(),
            actor_stepped(old(self).actor, *commands, final(self).actor),
            final(self).policy == old(self).policy,
            final(self).boundary == old(self).boundary,
            final(self).directions@ == old(self).directions@,
            final(self).bouncer == old(self).bouncer,
            r == final(self).actor.position,
    {
        self.actor.step(commands)
    }
}

} // verus!
