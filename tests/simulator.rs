use motion_sim::actor::{Actor, Command, CommandSet, Orientation};
use motion_sim::bouncer::{ReflectionPolicy, ROTATION_STEP};
use motion_sim::geometry::{BoundaryBox, Vec2, TURN, UNIT};
use motion_sim::simulator::{ConfigError, Simulator, ACTOR_START_X};

fn directions() -> Vec<Vec2> {
    (0..TURN)
        .map(|k| {
            let a = 2.0 * std::f64::consts::PI * (k as f64) / (TURN as f64);
            Vec2::new(
                (a.cos() * UNIT as f64).round() as i64,
                (a.sin() * UNIT as f64).round() as i64,
            )
        })
        .collect()
}

fn simulator(boundary: BoundaryBox, policy: ReflectionPolicy, angle: i64) -> Simulator {
    Simulator::initialize(boundary, policy, angle, 3, directions()).unwrap()
}

fn only(c: Command) -> CommandSet {
    CommandSet::none().with(c)
}

#[test]
fn simple_reflect_rises_then_falls() {
    let mut sim = simulator(BoundaryBox::symmetric(300 * UNIT), ReflectionPolicy::SimpleReflect, 0);
    assert_eq!(sim.bouncer.velocity, Vec2::new(3 * UNIT, 0));
    let mut xs = vec![0i64];
    for _ in 0..150 {
        xs.push(sim.step_bouncer().x);
    }
    let peak = xs.iter().position(|&x| x == 303 * UNIT).unwrap();
    assert_eq!(peak, 101);
    for i in 0..peak {
        assert_eq!(xs[i + 1], xs[i] + 3 * UNIT);
    }
    for i in peak..xs.len() - 1 {
        assert_eq!(xs[i + 1], xs[i] - 3 * UNIT);
    }
    assert_eq!(xs[peak + 1], 300 * UNIT);
    assert_eq!(sim.bouncer.velocity, Vec2::new(-3 * UNIT, 0));
    assert_eq!(sim.bouncer.position.y, 0);
}

#[test]
fn simple_reflect_turns_at_lower_edge() {
    let mut sim = simulator(BoundaryBox::symmetric(300 * UNIT), ReflectionPolicy::SimpleReflect, 0);
    sim.bouncer.position = Vec2::new(-301 * UNIT, 0);
    sim.bouncer.velocity = Vec2::new(-3 * UNIT, 0);
    assert_eq!(sim.step_bouncer(), Vec2::new(-298 * UNIT, 0));
    assert_eq!(sim.bouncer.velocity.x, 3 * UNIT);
}

#[test]
fn rotating_reflection_restarts_from_center() {
    let dirs = directions();
    let mut sim = simulator(
        BoundaryBox::from_origin(300 * UNIT, 300 * UNIT),
        ReflectionPolicy::RotatingReflect,
        5,
    );
    assert_eq!(sim.bouncer.velocity, Vec2::new(dirs[5].y * 3, dirs[5].x * 3));
    assert_eq!(sim.bouncer.velocity, Vec2::new(1500, 2598));
    let mut steps = 0;
    while sim.bouncer.angle == 5 {
        sim.step_bouncer();
        steps += 1;
        assert!(steps < 1000);
    }
    assert_eq!(sim.bouncer.angle, 5 + ROTATION_STEP);
    let v = Vec2::new(dirs[11].x * 3, dirs[11].y * 3);
    assert_eq!(sim.bouncer.velocity, v);
    assert_eq!(sim.bouncer.position, Vec2::new(150 * UNIT + v.x, 150 * UNIT + v.y));
}

#[test]
fn rotating_angle_wraps_after_a_turn() {
    let mut sim = simulator(
        BoundaryBox::from_origin(300 * UNIT, 300 * UNIT),
        ReflectionPolicy::RotatingReflect,
        57,
    );
    sim.bouncer.position = Vec2::new(10, -1);
    sim.step_bouncer();
    assert_eq!(sim.bouncer.angle, 3);
}

#[test]
fn angled_reflection_flips_speed_and_keeps_angle() {
    let dirs = directions();
    let mut sim = simulator(BoundaryBox::symmetric(300 * UNIT), ReflectionPolicy::AngledReflect, 5);
    let before = sim.bouncer;
    assert_eq!(before.velocity, Vec2::new(1500, 2598));
    let mut steps = 0;
    while sim.bouncer.speed == 3 {
        sim.step_bouncer();
        steps += 1;
        assert!(steps < 1000);
    }
    assert_eq!(sim.bouncer.speed, -3);
    assert_eq!(sim.bouncer.angle, 5);
    assert_eq!(sim.bouncer.velocity, Vec2::new(dirs[5].y * -3, dirs[5].x * -3));
    assert_eq!(sim.bouncer.velocity, Vec2::new(-1500, -2598));
}

#[test]
fn actor_right_moves_one_unit() {
    let mut sim = simulator(BoundaryBox::symmetric(300 * UNIT), ReflectionPolicy::SimpleReflect, 0);
    let p = sim.step_actor(&only(Command::Right));
    assert_eq!(p, Vec2::new(ACTOR_START_X + UNIT, 0));
}

#[test]
fn actor_right_and_up_moves_diagonally() {
    let mut sim = simulator(BoundaryBox::symmetric(300 * UNIT), ReflectionPolicy::SimpleReflect, 0);
    let p = sim.step_actor(&only(Command::Right).with(Command::Up));
    assert_eq!(p, Vec2::new(ACTOR_START_X + UNIT, UNIT));
}

#[test]
fn actor_opposite_commands_cancel() {
    let mut sim = simulator(BoundaryBox::symmetric(300 * UNIT), ReflectionPolicy::SimpleReflect, 0);
    let all = only(Command::Left).with(Command::Right).with(Command::Up).with(Command::Down);
    assert_eq!(sim.step_actor(&all), Vec2::new(ACTOR_START_X, 0));
    assert_eq!(sim.step_actor(&CommandSet::none()), Vec2::new(ACTOR_START_X, 0));
    assert_eq!(sim.step_actor(&only(Command::Left).with(Command::Down)), Vec2::new(ACTOR_START_X - UNIT, -UNIT));
}

#[test]
fn rotated_actor_moves_along_its_own_axes() {
    let mut actor = Actor {
        position: Vec2::new(0, 0),
        orientation: Orientation { cos: 0, sin: UNIT },
    };
    assert_eq!(actor.step(&only(Command::Right)), Vec2::new(0, UNIT));
    assert_eq!(actor.step(&only(Command::Up)), Vec2::new(-UNIT, UNIT));
    assert_eq!(actor.orientation, Orientation { cos: 0, sin: UNIT });
}

#[test]
fn steps_are_deterministic() {
    for policy in [
        ReflectionPolicy::SimpleReflect,
        ReflectionPolicy::AngledReflect,
        ReflectionPolicy::RotatingReflect,
    ] {
        let boundary = BoundaryBox::from_origin(300 * UNIT, 300 * UNIT);
        let mut a = simulator(boundary, policy, 5);
        let mut b = simulator(boundary, policy, 5);
        let cmds = only(Command::Right).with(Command::Down);
        for _ in 0..500 {
            assert_eq!(a.step_bouncer(), b.step_bouncer());
            assert_eq!(a.step_actor(&cmds), b.step_actor(&cmds));
        }
        assert_eq!(a.bouncer, b.bouncer);
        assert_eq!(a.actor, b.actor);
    }
}

#[test]
fn position_on_edge_does_not_reflect() {
    let mut sim = simulator(BoundaryBox::symmetric(300 * UNIT), ReflectionPolicy::SimpleReflect, 0);
    sim.bouncer.position = Vec2::new(300 * UNIT, 0);
    assert_eq!(sim.step_bouncer(), Vec2::new(303 * UNIT, 0));
    assert_eq!(sim.bouncer.velocity, Vec2::new(3 * UNIT, 0));
    assert_eq!(sim.step_bouncer(), Vec2::new(300 * UNIT, 0));
    assert_eq!(sim.bouncer.velocity, Vec2::new(-3 * UNIT, 0));
}

#[test]
fn rotating_position_on_corner_does_not_reflect() {
    let mut sim = simulator(
        BoundaryBox::from_origin(300 * UNIT, 300 * UNIT),
        ReflectionPolicy::RotatingReflect,
        5,
    );
    sim.bouncer.position = Vec2::new(300 * UNIT, 300 * UNIT);
    assert_eq!(sim.step_bouncer(), Vec2::new(301_500, 302_598));
    assert_eq!(sim.bouncer.angle, 5);
}

#[test]
fn initialize_places_entities() {
    let sim = simulator(BoundaryBox::symmetric(300 * UNIT), ReflectionPolicy::AngledReflect, 0);
    assert_eq!(sim.bouncer.position, Vec2::new(0, 0));
    assert_eq!(sim.bouncer.velocity, Vec2::new(0, 3 * UNIT));
    assert_eq!(sim.actor.position, Vec2::new(ACTOR_START_X, 0));
    assert_eq!(sim.actor.orientation, Orientation::identity());
    assert_eq!(sim.boundary.center(), Vec2::new(0, 0));
}

#[test]
fn initialize_rejects_bad_configurations() {
    let ok = BoundaryBox::symmetric(300 * UNIT);
    let p = ReflectionPolicy::SimpleReflect;
    let err = |b, a, s, d| Simulator::initialize(b, p, a, s, d).err();
    assert_eq!(err(BoundaryBox::from_origin(0, 10), 0, 3, directions()), Some(ConfigError::EmptyBoundary));
    assert_eq!(err(BoundaryBox::from_origin(10, -1), 0, 3, directions()), Some(ConfigError::EmptyBoundary));
    assert_eq!(
        err(BoundaryBox::from_origin(2_000_000_000_000, 10), 0, 3, directions()),
        Some(ConfigError::BoundaryTooLarge)
    );
    assert_eq!(err(ok, 0, 0, directions()), Some(ConfigError::ZeroSpeed));
    assert_eq!(err(ok, 0, 2_000_000, directions()), Some(ConfigError::SpeedTooLarge));
    assert_eq!(err(ok, TURN, 3, directions()), Some(ConfigError::AngleOutOfRange));
    assert_eq!(err(ok, -1, 3, directions()), Some(ConfigError::AngleOutOfRange));
    assert_eq!(err(ok, 0, 3, Vec::new()), Some(ConfigError::InvalidDirections));
    let mut long = directions();
    long[7] = Vec2::new(UNIT + 1, 0);
    assert_eq!(err(ok, 0, 3, long), Some(ConfigError::InvalidDirections));
    assert_eq!(err(ok, 0, -3, directions()), None);
}

#[test]
fn commands_report_labels_in_order() {
    let set = only(Command::Down).with(Command::Left).with(Command::Up);
    let names: Vec<&str> = set.active().iter().map(|c| c.label()).collect();
    assert_eq!(names, vec!["left", "up", "down"]);
    assert!(set.contains(Command::Up));
    assert!(!set.contains(Command::Right));
    assert_eq!(Command::Right.label(), "right");
    assert!(CommandSet::none().active().is_empty());
}

#[test]
fn range_check_bounds_positions() {
    assert!(Vec2::new(0, 0).in_range());
    assert!(!Vec2::new(i64::MAX, 0).in_range());
    assert!(!Vec2::new(0, i64::MIN).in_range());
    let center = BoundaryBox::from_origin(301, 7).center();
    assert_eq!(center, Vec2::new(150, 3));
}

#[test]
fn policies_check_their_axes() {
    let boundary = BoundaryBox::from_origin(300 * UNIT, 300 * UNIT);
    let above = Vec2::new(10, 300 * UNIT + 1);
    assert!(ReflectionPolicy::RotatingReflect.reflects_at(&boundary, above));
    assert!(!ReflectionPolicy::SimpleReflect.reflects_at(&boundary, above));
    assert!(!ReflectionPolicy::AngledReflect.reflects_at(&boundary, above));
    let left = Vec2::new(-1, 10);
    assert!(ReflectionPolicy::SimpleReflect.reflects_at(&boundary, left));
    assert!(!ReflectionPolicy::AngledReflect.reflects_at(&boundary, Vec2::new(0, 10)));
}
