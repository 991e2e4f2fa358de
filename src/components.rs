use vstd::prelude::*;

use crate::direction::{Direction, TILE};

verus! {

/// A tile step in progress.
#[derive(Debug, Clone, Copy, PartialEq, Eq, Structural)]
pub struct Moving {
    /// Distance still to cover, in distance units.
    pub distance: u64,
    pub direction: Direction,
}

impl Moving {
    /// A step in progress has something left to cover and never more than a tile.
    pub open spec fn wf(self) -> bool {
        0 < self.distance <= TILE
    }
}

/// Marks an actor whose input is being handled.
#[derive(Debug, Clone, Copy, PartialEq, Eq, Structural)]
pub struct ProcessingInput;

/// A turn in progress toward an absolute angle.
#[derive(Debug, Clone, Copy, PartialEq, Eq, Structural)]
pub struct Rotating {
    /// The target angle.
    pub direction: i64,
}

/// The player's orientation.
#[derive(Debug, Clone, Copy, PartialEq, Eq, Structural)]
pub struct Player {
    /// The current angle; it is not reduced to one turn when written.
    pub direction: i64,
}

/// Offset of an actor from where it was spawned, in distance units.
#[derive(Debug, Clone, Copy, PartialEq, Eq, Structural)]
pub struct Position {
    pub x: i64,
    pub z: i64,
}

/// An actor with its orientation, position, and the step and turn that are in
/// progress, if any.
#[derive(Debug, Clone, Copy, PartialEq, Eq, Structural)]
pub struct Actor {
    pub player: Player,
    pub position: Position,
    pub moving: Option<Moving>,
    pub rotating: Option<Rotating>,
}

impl Actor {
    /// A freshly spawned actor: at its spawn point, facing `facing`, neither
    /// stepping nor turning.
    pub fn spawn(facing: Direction) -> (r: Actor)
        ensures
            r.player.direction == facing.angle_spec(),
            r.position == (Position { x: 0, z: 0 }),
            r.moving is None,
            r.rotating is None,
    {
        Actor {
            player: Player { direction: facing.angle() },
            position: Position { x: 0, z: 0 },
            moving: None,
            rotating: None,
        }
    }
}

} // verus!
