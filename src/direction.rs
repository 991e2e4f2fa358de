use vstd::prelude::*;

verus! {

/// Distance units in one tile. A move covers one unit per microsecond, so a
/// tile takes 0.4 s.
pub const TILE: u64 = 400_000;

/// Angle units in a quarter turn.
pub const QUARTER_TURN: i64 = 1_000_000;

/// Angle units in a half turn.
pub const HALF_TURN: i64 = 2_000_000;

/// Angle units in a full turn.
pub const FULL_TURN: i64 = 4_000_000;

/// Angle units turned per microsecond: three quarter turns per second.
pub const TURN_RATE: u64 = 3;

/// One of the four headings an actor can face and walk in.
#[derive(Debug, Clone, Copy, PartialEq, Eq, Structural)]
pub enum Direction {
    Left,
    Right,
    Up,
    Down,
}

impl Direction {
    /// The heading's position counted in quarter turns from `Right` toward `Up`.
    pub open spec fn index_spec(self) -> int {
        match self {
            Direction::Right => 0,
            Direction::Up => 1,
            Direction::Left => 2,
            Direction::Down => 3,
        }
    }

    pub fn index(self) -> (r: u8)
        ensures
            r == self.index_spec(),
    {
        match self {
            Direction::Right => 0,
            Direction::Up => 1,
            Direction::Left => 2,
            Direction::Down => 3,
        }
    }

    /// The canonical angle of the heading.
    pub open spec fn angle_spec(self) -> int {
        self.index_spec() * QUARTER_TURN
    }

    pub fn angle(self) -> (r: i64)
        ensures
            r == self.angle_spec(),
    {
        self.index() as i64 * QUARTER_TURN
    }

    /// Signed step along the x axis for one unit of travel: `Right` is positive.
    pub open spec fn dx(self) -> int {
        match self {
            Direction::Left => -1,
            Direction::Right => 1,
            _ => 0,
        }
    }

    pub fn dx_exec(self) -> (r: i8)
        ensures
            r == self.dx(),
    {
        match self {
            Direction::Left => -1,
            Direction::Right => 1,
            _ => 0,
        }
    }

    /// Signed step along the z axis for one unit of travel: `Down` is positive.
    pub open spec fn dz(self) -> int {
        match self {
            Direction::Up => -1,
            Direction::Down => 1,
            _ => 0,
        }
    }

    pub fn dz_exec(self) -> (r: i8)
        ensures
            r == self.dz(),
    {
        match self {
            Direction::Up => -1,
            Direction::Down => 1,
            _ => 0,
        }
    }
}

} // verus!
