use vstd::prelude::*;

verus! {

/// Sub-units per distance unit.
pub const UNIT: i64 = 1000;

/// Angle steps per full turn (one step is 6 degrees).
pub const TURN: i64 = 60;

/// Largest magnitude of a boundary coordinate, in sub-units.
pub const MAX_COORD: i64 = 1_000_000_000_000;

/// Largest magnitude of a position coordinate that a step accepts.
pub const POS_LIMIT: i64 = 4_000_000_000_000_000_000;

/// A point or a vector in fixed point.
#[derive(Clone, Copy, Debug, PartialEq, Eq, Structural)]
pub struct Vec2 {
    pub x: i64,
    pub y: i64,
}

/// Whether both coordinates are small enough for a step to move from them.
pub open spec fn within_limit(p: Vec2) -> bool {
    -POS_LIMIT <= p.x <= POS_LIMIT && -POS_LIMIT <= p.y <= POS_LIMIT
}

impl Vec2 {
    pub fn new(x: i64, y: i64) -> (r: Vec2)
        ensures
            r.x == x,
            r.y == y,
    {
        Vec2 { x, y }
    }

    /// Whether a step may start from this position.
    pub fn in_range(&self) -> (r: bool)
        ensures
            r == within_limit(*self),
    {
        -POS_LIMIT <= self.x && self.x <= POS_LIMIT && -POS_LIMIT <= self.y && self.y <= POS_LIMIT
    }
}

/// An axis-aligned rectangle `[min_x, max_x] x [min_y, max_y]`.
#[derive(Clone, Copy, Debug, PartialEq, Eq, Structural)]
pub struct BoundaryBox {
    pub min_x: i64,
    pub max_x: i64,
    pub min_y: i64,
    pub max_y: i64,
}

impl BoundaryBox {
    /// Positive extent on both axes, and coordinates no larger than `MAX_COORD`.
    pub open spec fn valid(&self) -> bool {
        &&& self.min_x < self.max_x
        &&& self.min_y < self.max_y
        &&& -MAX_COORD <= self.min_x && self.max_x <= MAX_COORD
        &&& -MAX_COORD <= self.min_y && self.max_y <= MAX_COORD
    }

    /// The box's center, rounded down towards its minimum corner.
    pub open spec fn center_spec(&self) -> (int, int) {
        (
            self.min_x + (self.max_x - self.min_x) / 2,
            self.min_y + (self.max_y - self.min_y) / 2,
        )
    }

    /// Whether `x` lies strictly outside `[min_x, max_x]`.
    pub open spec fn outside_x(&self, p: Vec2) -> bool {
        p.x > self.max_x || p.x < self.min_x
    }

    /// Whether `y` lies strictly outside `[min_y, max_y]`.
    pub open spec fn outside_y(&self, p: Vec2) -> bool {
        p.y > self.max_y || p.y < self.min_y
    }

    /// The symmetric range `[-w, w]` on x; y spans the same range.
    pub fn symmetric(w: i64) -> (r: BoundaryBox)
        requires
            w > i64::MIN,
        ensures
            r.min_x == -w,
            r.max_x == w,
            r.min_y == -w,
            r.max_y == w,
    {
        BoundaryBox { min_x: -w, max_x: w, min_y: -w, max_y: w }
    }

    /// The box `[0, w] x [0, h]` with its origin at the bottom left.
    pub fn from_origin(w: i64, h: i64) -> (r: BoundaryBox)
        ensures
            r.min_x == 0,
            r.max_x == w,
            r.min_y == 0,
            r.max_y == h,
    {
        BoundaryBox { min_x: 0, max_x: w, min_y: 0, max_y: h }
    }

    pub fn center(&self) -> (r: Vec2)
        requires
            self.valid(),
        ensures
            (r.x as int, r.y as int) == self.center_spec(),
    {
        Vec2 {
            x: self.min_x + (self.max_x - self.min_x) / 2,
            y: self.min_y + (self.max_y - self.min_y) / 2,
        }
    }
}

} // verus!
