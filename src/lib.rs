//! Motion and orientation control for an actor that walks a grid one tile at a
//! time, turning toward each step's direction the short way round.
//!
//! All quantities are integers in fixed units, so that every tick is exact:
//! - time in microseconds;
//! - distance in units of which [`TILE`] make one tile, covered at one unit per
//!   microsecond of movement;
//! - angles in units of which [`FULL_TURN`] make one turn, measured from the
//!   `Right` heading toward `Up`, turned at [`TURN_RATE`] units per microsecond.
//!
//! Each tick handles the arrow keys ([`keyboard_input`]), then advances the
//! step ([`move_player`]) and the turn ([`turn_player`]) in progress by the
//! same elapsed time; [`tick`] does all three.
pub mod components;
pub mod direction;
pub mod input;
pub mod rotation;
pub mod step;
pub mod translation;

pub use components::{Actor, Moving, Player, Position, ProcessingInput, Rotating};
pub use direction::{Direction, FULL_TURN, HALF_TURN, QUARTER_TURN, TILE, TURN_RATE};
pub use input::{has_arrow_input, keyboard_input, pressed_direction, Arrows};
pub use rotation::{can_turn, shortest_turn, turn_player};
pub use step::tick;
pub use translation::{can_translate, move_player};
