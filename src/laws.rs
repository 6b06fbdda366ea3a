//! Properties of the step relations, proved for every state.
use vstd::prelude::*;
use crate::geometry::{BoundaryBox, Vec2, UNIT, TURN};
use crate::bouncer::{
    Bouncer,
    ReflectionPolicy,
    ROTATION_STEP,
    reflects,
    moved,
    stepped,
    sin_cos_velocity,
    cos_sin_velocity,
};
use crate::actor::{Actor, CommandSet, Orientation, actor_stepped, along};

verus! {

/// A bouncer step is a function of the state: the same bouncer, policy,
/// box and direction table always give the same next bouncer.
pub proof fn lemma_bouncer_step_deterministic(
    policy: ReflectionPolicy,
    bx: BoundaryBox,
    dirs: Seq<Vec2>,
    s: Bouncer,
    t1: Bouncer,
    t2: Bouncer,
)
    requires
        stepped(policy, bx, dirs, s, t1),
        stepped(policy, bx, dirs, s, t2),
    ensures
        t1 == t2,
{
    assert(t1.velocity == t2.velocity);
    assert(t1.position == t2.position);
}

/// An actor step is a function of the state: the same actor and the same
/// command set always give the same next actor.
pub proof fn lemma_actor_step_deterministic(s: Actor, c: CommandSet, t1: Actor, t2: Actor)
    requires
        actor_stepped(s, c, t1),
        actor_stepped(s, c, t2),
    ensures
        t1 == t2,
{
    assert(t1.position == t2.position);
}

/// A bouncer anywhere in the closed box, on its edges included, does not
/// reflect: it keeps its velocity, angle and speed and moves by its velocity.
pub proof fn lemma_edge_does_not_reflect(
    policy: ReflectionPolicy,
    bx: BoundaryBox,
    dirs: Seq<Vec2>,
    s: Bouncer,
    t: Bouncer,
)
    requires
        stepped(policy, bx, dirs, s, t),
        bx.min_x <= s.position.x <= bx.max_x,
        policy == ReflectionPolicy::RotatingReflect ==> bx.min_y <= s.position.y <= bx.max_y,
    ensures
        !reflects(policy, bx, s.position),
        t.velocity == s.velocity,
        t.angle == s.angle,
        t.speed == s.speed,
        moved(policy, s.position, s.velocity, t.position),
{
}

/// A rotating reflection turns the angle by a tenth of a turn and restarts
/// the bouncer from the box's center, which lies in the box, and from which
/// it moves by the new velocity `(cos a * speed, sin a * speed)`.
pub proof fn lemma_rotating_reflection(bx: BoundaryBox, dirs: Seq<Vec2>, s: Bouncer, t: Bouncer)
    requires
        bx.valid(),
        stepped(ReflectionPolicy::RotatingReflect, bx, dirs, s, t),
        reflects(ReflectionPolicy::RotatingReflect, bx, s.position),
    ensures
        bx.min_x <= bx.center_spec().0 <= bx.max_x,
        bx.min_y <= bx.center_spec().1 <= bx.max_y,
        t.angle == (s.angle + ROTATION_STEP) % (TURN as int),
        t.speed == s.speed,
        (t.velocity.x as int, t.velocity.y as int) == cos_sin_velocity(
            dirs[t.angle as int],
            t.speed as int,
        ),
        (t.position.x - t.velocity.x, t.position.y - t.velocity.y) == bx.center_spec(),
{
}

/// Under the simple policy a bouncer past the upper x edge and moving up turns
/// around: its x velocity is negated and its x decreases on that step; below
/// the lower edge and moving down it turns the other way. Only x moves.
pub proof fn lemma_simple_turns_around(bx: BoundaryBox, dirs: Seq<Vec2>, s: Bouncer, t: Bouncer)
    requires
        stepped(ReflectionPolicy::SimpleReflect, bx, dirs, s, t),
    ensures
        s.position.x > bx.max_x && s.velocity.x > 0 ==> t.velocity.x == -s.velocity.x
            && t.position.x < s.position.x,
        s.position.x < bx.min_x && s.velocity.x < 0 ==> t.velocity.x == -s.velocity.x
            && t.position.x > s.position.x,
        t.position.y == s.position.y,
{
}

/// An angled reflection keeps the angle, flips the sign of the speed and
/// sets the velocity to `(sin a * speed, cos a * speed)` with the new speed.
pub proof fn lemma_angled_reflection(bx: BoundaryBox, dirs: Seq<Vec2>, s: Bouncer, t: Bouncer)
    requires
        stepped(ReflectionPolicy::AngledReflect, bx, dirs, s, t),
        reflects(ReflectionPolicy::AngledReflect, bx, s.position),
    ensures
        t.angle == s.angle,
        t.speed == -s.speed,
        (t.velocity.x as int, t.velocity.y as int) == sin_cos_velocity(
            dirs[t.angle as int],
            t.speed as int,
        ),
{
}

/// With no rotation, each command moves the actor one unit along a world
/// axis: Right and Left along x, Up and Down along y, all applied in one tick.
pub proof fn lemma_unrotated_actor_moves_on_world_axes(s: Actor, c: CommandSet, t: Actor)
    requires
        s.orientation == (Orientation { cos: UNIT, sin: 0 }),
        actor_stepped(s, c, t),
    ensures
        t.position.x == s.position.x + along(c.right, UNIT) - along(c.left, UNIT),
        t.position.y == s.position.y + along(c.up, UNIT) - along(c.down, UNIT),
{
}

} // verus!
