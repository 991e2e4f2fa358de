use vstd::prelude::*;

use crate::components::{Actor, Moving, Position};
use crate::direction::{Direction, TILE};

verus! {

/// Total of a sequence of elapsed-time samples.
pub open spec fn total(samples: Seq<u64>) -> int
    decreases samples.len(),
{
    if samples.len() == 0 {
        0
    } else {
        samples[0] + total(samples.drop_first())
    }
}

/// Distance still to cover after one step that could cover `rate`: zero once
/// the step reaches the end of the tile.
pub open spec fn remaining_after(distance: int, rate: int) -> int {
    if distance > rate {
        distance - rate
    } else {
        0
    }
}

/// The actor's step in progress, if any, stays well formed and ends inside the
/// range of `i64`.
pub open spec fn translation_fits(a: Actor) -> bool {
    match a.moving {
        None => true,
        Some(m) => {
            &&& m.wf()
            &&& i64::MIN <= a.position.x + m.direction.dx() * m.distance <= i64::MAX
            &&& i64::MIN <= a.position.z + m.direction.dz() * m.distance <= i64::MAX
        },
    }
}

/// The actor after the translation step of one tick of `elapsed` microseconds:
/// it advances by the elapsed time, or by exactly what is left of the tile if
/// that is less, and the step ends when nothing is left.
pub open spec fn translated(a: Actor, elapsed: int) -> Actor {
    match a.moving {
        None => a,
        Some(m) => {
            let rest = remaining_after(m.distance as int, elapsed);
            let covered = m.distance - rest;
            Actor {
                position: Position {
                    x: (a.position.x + m.direction.dx() * covered) as i64,
                    z: (a.position.z + m.direction.dz() * covered) as i64,
                },
                moving: if rest > 0 {
                    Some(Moving { distance: rest as u64, direction: m.direction })
                } else {
                    None
                },
                ..a
            }
        },
    }
}

/// The actor after one translation step for each sample, in order.
pub open spec fn translated_all(a: Actor, samples: Seq<u64>) -> Actor
    decreases samples.len(),
{
    if samples.len() == 0 {
        a
    } else {
        translated_all(translated(a, samples[0] as int), samples.drop_first())
    }
}

/// Travelling `n` units in a direction moves each axis by `n`, `-n` or nothing.
pub proof fn lemma_axis_scale(d: Direction, n: int)
    ensures
        d.dx() * n == match d {
            Direction::Left => -n,
            Direction::Right => n,
            _ => 0,
        },
        d.dz() * n == match d {
            Direction::Up => -n,
            Direction::Down => n,
            _ => 0,
        },
{
}

/// Whether the actor's step in progress, if any, can be advanced.
pub fn can_translate(a: &Actor) -> (r: bool)
    ensures
        r == translation_fits(*a),
{
    match a.moving {
        None => true,
        Some(m) => {
            if m.distance == 0 || m.distance > TILE {
                return false;
            }
            let d = m.distance as i128;
            proof {
                lemma_axis_scale(m.direction, d as int);
            }
            let x = a.position.x as i128 + (m.direction.dx_exec() as i128) * d;
            let z = a.position.z as i128 + (m.direction.dz_exec() as i128) * d;
            i64::MIN as i128 <= x && x <= i64::MAX as i128 && i64::MIN as i128 <= z && z
                <= i64::MAX as i128
        },
    }
}

/// Moves `position` by `amount` distance units in `direction`.
fn shift(position: &mut Position, direction: Direction, amount: u64)
    requires
        amount <= TILE,
        i64::MIN <= old(position).x + direction.dx() * amount <= i64::MAX,
        i64::MIN <= old(position).z + direction.dz() * amount <= i64::MAX,
    ensures
        final(position).x == old(position).x + direction.dx() * amount,
        final(position).z == old(position).z + direction.dz() * amount,
{
    let amount = amount as i64;
    match direction {
        Direction::Left => position.x = position.x - amount,
        Direction::Right => position.x = position.x + amount,
        Direction::Up => position.z = position.z - amount,
        Direction::Down => position.z = position.z + amount,
    }
}

/// Advances the actor's step in progress, if any, by one tick of
/// `elapsed_micros`. The last tick of a step moves by exactly what is left, so
/// that a step always covers exactly one tile, and removes the step.
pub fn move_player(elapsed_micros: u64, actor: &mut Actor)
    requires
        translation_fits(*old(actor)),
    ensures
        *final(actor) == translated(*old(actor), elapsed_micros as int),
        translation_fits(*final(actor)),
{
    if let Some(moving) = actor.moving {
        let tick_rate = elapsed_micros;
        proof {
            lemma_axis_scale(moving.direction, moving.distance as int);
            lemma_axis_scale(moving.direction, tick_rate as int);
            lemma_axis_scale(moving.direction, moving.distance - tick_rate);
        }
        if moving.distance > tick_rate {
            shift(&mut actor.position, moving.direction, tick_rate);
            actor.moving = Some(Moving { distance: moving.distance - tick_rate, ..moving });
        } else {
            // the last tick covers exactly what is left
            shift(&mut actor.position, moving.direction, moving.distance);
            actor.moving = None;
        }
    }
}

/// A translation step keeps the actor's step in progress well formed and in
/// range.
pub proof fn lemma_translated_fits(a: Actor, elapsed: int)
    requires
        translation_fits(a),
        elapsed >= 0,
    ensures
        translation_fits(translated(a, elapsed)),
{
    if let Some(m) = a.moving {
        let rest = remaining_after(m.distance as int, elapsed);
        lemma_axis_scale(m.direction, m.distance as int);
        lemma_axis_scale(m.direction, m.distance - rest);
        lemma_axis_scale(m.direction, rest);
    }
}

/// Two ticks of translation move the actor as one tick as long as both.
pub proof fn lemma_translated_compose(a: Actor, first: int, second: int)
    requires
        translation_fits(a),
        first >= 0,
        second >= 0,
    ensures
        translated(translated(a, first), second) == translated(a, first + second),
{
    if let Some(m) = a.moving {
        let d = m.distance as int;
        lemma_axis_scale(m.direction, d);
        lemma_axis_scale(m.direction, first);
        lemma_axis_scale(m.direction, second);
        lemma_axis_scale(m.direction, d - first);
        lemma_axis_scale(m.direction, first + second);
    }
}

/// Splitting the elapsed time of a step into several samples gives the same
/// actor as one sample of their total.
pub proof fn lemma_translation_split(a: Actor, samples: Seq<u64>)
    requires
        translation_fits(a),
    ensures
        translated_all(a, samples) == translated(a, total(samples)),
    decreases samples.len(),
{
    if samples.len() == 0 {
        if let Some(m) = a.moving {
            lemma_axis_scale(m.direction, 0);
        }
    } else {
        let rest = samples.drop_first();
        lemma_translated_fits(a, samples[0] as int);
        lemma_translation_split(translated(a, samples[0] as int), rest);
        lemma_total_nonneg(rest);
        lemma_translated_compose(a, samples[0] as int, total(rest));
    }
}

/// A total of samples is never negative.
pub proof fn lemma_total_nonneg(samples: Seq<u64>)
    ensures
        total(samples) >= 0,
    decreases samples.len(),
{
    if samples.len() > 0 {
        lemma_total_nonneg(samples.drop_first());
    }
}

/// Once the samples add up to at least the distance left, the step is over and
/// the actor has moved by exactly that distance in its direction, without
/// overshoot: a step started at a full tile covers exactly one tile.
pub proof fn lemma_translation_completes(a: Actor, samples: Seq<u64>)
    requires
        translation_fits(a),
        a.moving is Some,
        total(samples) >= a.moving->Some_0.distance,
    ensures
        translated_all(a, samples).moving is None,
        translated_all(a, samples).position.x == a.position.x + a.moving->Some_0.direction.dx()
            * a.moving->Some_0.distance,
        translated_all(a, samples).position.z == a.position.z + a.moving->Some_0.direction.dz()
            * a.moving->Some_0.distance,
        translated_all(a, samples).player == a.player,
        translated_all(a, samples).rotating == a.rotating,
{
    lemma_translation_split(a, samples);
}

} // verus!
