use vstd::prelude::*;
use crate::geometry::{Vec2, UNIT, within_limit};

verus! {

/// A directional command for the actor.
#[derive(Clone, Copy, Debug, PartialEq, Eq, Structural)]
pub enum Command {
    Left,
    Right,
    Up,
    Down,
}

/// The name under which an active command is reported.
pub open spec fn label_of(c: Command) -> Seq<char> {
    match c {
        Command::Left => "left"@,
        Command::Right => "right"@,
        Command::Up => "up"@,
        Command::Down => "down"@,
    }
}

impl Command {
    pub fn label(&self) -> (r: &'static str)
        ensures
            r@ == label_of(*self),
    {
        match self {
            Command::Left => "left",
            Command::Right => "right",
            Command::Up => "up",
            Command::Down => "down",
        }
    }
}

/// The set of commands active during one tick.
#[derive(Clone, Copy, Debug, PartialEq, Eq, Structural)]
pub struct CommandSet {
    pub left: bool,
    pub right: bool,
    pub up: bool,
    pub down: bool,
}

/// The active commands in the order they apply: Left, Right, Up, Down.
pub open spec fn active_seq(c: CommandSet) -> Seq<Command> {
    (if c.left { seq![Command::Left] } else { seq![] }) + (if c.right {
        seq![Command::Right]
    } else {
        seq![]
    }) + (if c.up { seq![Command::Up] } else { seq![] }) + (if c.down {
        seq![Command::Down]
    } else {
        seq![]
    })
}

impl CommandSet {
    /// The empty set.
    pub fn none() -> (r: CommandSet)
        ensures
            !r.left && !r.right && !r.up && !r.down,
    {
        CommandSet { left: false, right: false, up: false, down: false }
    }

    /// The set with `c` added.
    pub fn with(self, c: Command) -> (r: CommandSet)
        ensures
            r.left == (self.left || c == Command::Left),
            r.right == (self.right || c == Command::Right),
            r.up == (self.up || c == Command::Up),
            r.down == (self.down || c == Command::Down),
    {
        let mut r = self;
        match c {
            Command::Left => r.left = true,
            Command::Right => r.right = true,
            Command::Up => r.up = true,
            Command::Down => r.down = true,
        }
        r
    }

    pub fn contains(&self, c: Command) -> (r: bool)
        ensures
            r == match c {
                Command::Left => self.left,
                Command::Right => self.right,
                Command::Up => self.up,
                Command::Down => self.down,
            },
    {
        match c {
            Command::Left => self.left,
            Command::Right => self.right,
            Command::Up => self.up,
            Command::Down => self.down,
        }
    }

    /// The active commands in the order they apply.
    pub fn active(&self) -> (r: Vec<Command>)
        ensures
            r@ == active_seq(*self),
    {
        let mut r: Vec<Command> = Vec::new();
        if self.left {
            r.push(Command::Left);
        }
        if self.right {
            r.push(Command::Right);
        }
        if self.up {
            r.push(Command::Up);
        }
        if self.down {
            r.push(Command::Down);
        }
        assert(r@ =~= active_seq(*self));
        r
    }
}

/// A rotation, given by its image of the x axis `(cos, sin)` scaled by
/// `UNIT`. The image of the y axis is `(-sin, cos)`.
#[derive(Clone, Copy, Debug, PartialEq, Eq, Structural)]
pub struct Orientation {
    pub cos: i64,
    pub sin: i64,
}

impl Orientation {
    /// Components no larger than `UNIT`.
    pub open spec fn valid(&self) -> bool {
        -UNIT <= self.cos <= UNIT && -UNIT <= self.sin <= UNIT
    }

    /// No rotation: the axes are the world axes.
    pub fn identity() -> (r: Orientation)
        ensures
            r.cos == UNIT,
            r.sin == 0,
            r.valid(),
    {
        Orientation { cos: UNIT, sin: 0 }
    }
}

/// The displacement for the commands `c` under the orientation `o`: one unit
/// along the rotated x axis for Right, back for Left; one unit along the
/// rotated y axis for Up, back for Down.
pub open spec fn displacement(c: CommandSet, o: Orientation) -> (int, int) {
    (
        along(c.right, o.cos) - along(c.left, o.cos) - along(c.up, o.sin) + along(c.down, o.sin),
        along(c.right, o.sin) - along(c.left, o.sin) + along(c.up, o.cos) - along(c.down, o.cos),
    )
}

/// `k` when the command is active, else zero.
pub open spec fn along(active: bool, k: i64) -> int {
    if active {
        k as int
    } else {
        0
    }
}

/// The entity moved by commands.
#[derive(Clone, Copy, Debug, PartialEq, Eq, Structural)]
pub struct Actor {
    pub position: Vec2,
    pub orientation: Orientation,
}

/// Whether `t` is the actor `s` after one tick with the commands `c`.
pub open spec fn actor_stepped(s: Actor, c: CommandSet, t: Actor) -> bool {
    &&& t.orientation == s.orientation
    &&& t.position.x == s.position.x + displacement(c, s.orientation).0
    &&& t.position.y == s.position.y + displacement(c, s.orientation).1
}

impl Actor {
    pub open spec fn valid(&self) -> bool {
        self.orientation.valid()
    }

    /// Moves the actor by the active commands, horizontal axis first, and
    /// returns its new position.
    pub fn step(&mut self, commands: &CommandSet) -> (r: Vec2)
        requires
            old(self).valid(),
            within_limit(old(self).position),
        ensures
            final(self).valid(),
            actor_stepped(*old(self), *commands, *final(self)),
            r == final(self).position,
    {
        let c = self.orientation.cos;
        let s = self.orientation.sin;
        if commands.left {
            self.position.x = self.position.x - c;
            self.position.y = self.position.y - s;
        }
        if commands.right {
            self.position.x = self.position.x + c;
            self.position.y = self.position.y + s;
        }
        if commands.up {
            self.position.x = self.position.x - s;
            self.position.y = self.position.y + c;
        }
        if commands.down {
            self.position.x = self.position.x + s;
            self.position.y = self.position.y - c;
        }
        self.position
    }
}

} // verus!
