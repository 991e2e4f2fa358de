use vstd::prelude::*;

use crate::components::{Actor, Moving, Rotating};
use crate::direction::{Direction, TILE};

verus! {

/// Which of the four arrow keys are held down during a tick.
#[derive(Debug, Clone, Copy, PartialEq, Eq, Structural)]
pub struct Arrows {
    pub left: bool,
    pub right: bool,
    pub up: bool,
    pub down: bool,
}

/// Whether any arrow key is held.
pub fn has_arrow_input(keys: &Arrows) -> (r: bool)
    ensures
        r == (keys.left || keys.right || keys.up || keys.down),
{
    keys.left || keys.right || keys.up || keys.down
}

/// The direction asked for by the keys held: the first of left, right, up and
/// down that is held, if any.
pub open spec fn chosen_direction(keys: Arrows) -> Option<Direction> {
    if keys.left {
        Some(Direction::Left)
    } else if keys.right {
        Some(Direction::Right)
    } else if keys.up {
        Some(Direction::Up)
    } else if keys.down {
        Some(Direction::Down)
    } else {
        None
    }
}

/// The actor after its input is handled. An actor in the middle of a step
/// ignores the input. Otherwise a held arrow starts a step of one tile in its
/// direction and, unless the actor is still turning or already faces exactly
/// that direction's angle, a turn toward it. A turn in progress is never
/// interrupted.
pub open spec fn resolved(a: Actor, keys: Arrows) -> Actor {
    if a.moving is Some {
        a
    } else {
        match chosen_direction(keys) {
            None => a,
            Some(d) => Actor {
                moving: Some(Moving { distance: TILE, direction: d }),
                rotating: if a.rotating is None && d.angle_spec() != a.player.direction {
                    Some(Rotating { direction: d.angle_spec() as i64 })
                } else {
                    a.rotating
                },
                ..a
            },
        }
    }
}

/// The actor after its input is handled on each of a run of ticks, with no
/// other change between them.
pub open spec fn resolved_all(a: Actor, inputs: Seq<Arrows>) -> Actor
    decreases inputs.len(),
{
    if inputs.len() == 0 {
        a
    } else {
        resolved_all(resolved(a, inputs[0]), inputs.drop_first())
    }
}

/// The direction asked for by the keys held, if any.
pub fn pressed_direction(keys: &Arrows) -> (r: Option<Direction>)
    ensures
        r == chosen_direction(*keys),
{
    if keys.left {
        Some(Direction::Left)
    } else if keys.right {
        Some(Direction::Right)
    } else if keys.up {
        Some(Direction::Up)
    } else if keys.down {
        Some(Direction::Down)
    } else {
        None
    }
}

/// Turns the keys held into a step, and a turn where one is needed, for an
/// actor that is not already stepping.
pub fn keyboard_input(keys: &Arrows, actor: &mut Actor)
    ensures
        *final(actor) == resolved(*old(actor), *keys),
        old(actor).moving is Some ==> *final(actor) == *old(actor),
        old(actor).moving is None && chosen_direction(*keys) is None ==> *final(actor) == *old(
            actor,
        ),
        old(actor).moving is None && chosen_direction(*keys) is Some ==> final(actor).moving
            == Some(Moving { distance: TILE, direction: chosen_direction(*keys)->Some_0 }),
        chosen_direction(*keys) is Some && chosen_direction(*keys)->Some_0.angle_spec()
            == old(actor).player.direction ==> final(actor).rotating == old(actor).rotating,
        old(actor).rotating is Some ==> final(actor).rotating == old(actor).rotating,
        final(actor).player == old(actor).player,
        final(actor).position == old(actor).position,
{
    if actor.moving.is_some() {
        return;
    }
    if let Some(dir) = pressed_direction(keys) {
        let dir_angle = dir.angle();
        actor.moving = Some(Moving { direction: dir, distance: TILE });
        // a turn in progress runs to its end
        if actor.rotating.is_none() && dir_angle != actor.player.direction {
            actor.rotating = Some(Rotating { direction: dir_angle });
        }
    }
}

/// Input held during a step changes nothing: however many ticks of input, of
/// any keys, an actor in the middle of a step comes out as it went in.
pub proof fn lemma_input_ignored_while_moving(a: Actor, inputs: Seq<Arrows>)
    requires
        a.moving is Some,
    ensures
        resolved_all(a, inputs) == a,
    decreases inputs.len(),
{
    if inputs.len() > 0 {
        lemma_input_ignored_while_moving(resolved(a, inputs[0]), inputs.drop_first());
    }
}

} // verus!
