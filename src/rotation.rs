use vstd::prelude::*;

use vstd::arithmetic::div_mod::{
    lemma_fundamental_div_mod, lemma_mod_bound, lemma_mod_multiples_vanish, lemma_small_mod,
};

use crate::components::{Actor, Player};
use crate::direction::{FULL_TURN, HALF_TURN, TURN_RATE};
use crate::translation::{lemma_total_nonneg, total};

verus! {

/// The signed turn of least size that covers an angle difference of `raw`,
/// within a half turn either way: the difference reduced into
/// `(-HALF_TURN, HALF_TURN]`. A half turn either way counts as positive.
pub open spec fn shortest_delta(raw: int) -> int {
    HALF_TURN - (HALF_TURN - raw) % (FULL_TURN as int)
}

/// Absolute value.
pub open spec fn abs(v: int) -> int {
    if v < 0 {
        -v
    } else {
        v
    }
}

/// The reduced difference is the one value in `(-HALF_TURN, HALF_TURN]` that
/// differs from `raw` by whole turns.
pub proof fn lemma_shortest_delta_unique(raw: int, v: int, turns: int)
    requires
        -HALF_TURN < v <= HALF_TURN,
        raw == v + turns * FULL_TURN,
    ensures
        shortest_delta(raw) == v,
{
    let f = FULL_TURN as int;
    assert(HALF_TURN - raw == f * (-turns) + (HALF_TURN - v)) by (nonlinear_arith)
        requires
            raw == v + turns * f,
    ;
    lemma_mod_multiples_vanish(-turns, HALF_TURN - v, f);
    lemma_small_mod((HALF_TURN - v) as nat, f as nat);
}

/// The reduced difference lies in `(-HALF_TURN, HALF_TURN]` and differs from
/// `raw` by whole turns.
pub proof fn lemma_shortest_delta_range(raw: int)
    ensures
        -HALF_TURN < shortest_delta(raw) <= HALF_TURN,
        raw == shortest_delta(raw) - ((HALF_TURN - raw) / (FULL_TURN as int)) * FULL_TURN,
{
    let f = FULL_TURN as int;
    lemma_mod_bound(HALF_TURN - raw, f);
    lemma_fundamental_div_mod(HALF_TURN - raw, f);
    let q = (HALF_TURN - raw) / f;
    assert(raw == shortest_delta(raw) + (-q) * f) by (nonlinear_arith)
        requires
            HALF_TURN - raw == f * q + (HALF_TURN - raw) % f,
            shortest_delta(raw) == HALF_TURN - (HALF_TURN - raw) % f,
    ;
}

/// Turning part of the way toward the target leaves the rest of the shortest
/// turn to do.
pub proof fn lemma_shortest_delta_shift(raw: int, turned: int)
    requires
        -HALF_TURN < shortest_delta(raw) - turned <= HALF_TURN,
    ensures
        shortest_delta(raw - turned) == shortest_delta(raw) - turned,
{
    lemma_shortest_delta_range(raw);
    let turns = -((HALF_TURN - raw) / (FULL_TURN as int));
    lemma_shortest_delta_unique(raw - turned, shortest_delta(raw) - turned, turns);
}

/// The angle at which the actor's turn in progress, if any, ends along the
/// shortest way.
pub open spec fn landing_angle(a: Actor, target: int) -> int {
    a.player.direction + shortest_delta(target - a.player.direction)
}

/// The actor's turn in progress, if any, ends inside the range of `i64`.
pub open spec fn rotation_fits(a: Actor) -> bool {
    match a.rotating {
        None => true,
        Some(r) => i64::MIN <= landing_angle(a, r.direction as int) <= i64::MAX,
    }
}

/// The actor after the rotation step of one tick that may turn by `budget`:
/// if the shortest turn to the target is no larger, the actor turns by exactly
/// that and the turn ends; else it turns by `budget` the shortest way.
pub open spec fn turned(a: Actor, budget: int) -> Actor {
    match a.rotating {
        None => a,
        Some(r) => {
            let delta = shortest_delta(r.direction - a.player.direction);
            if abs(delta) <= budget {
                Actor { player: Player { direction: r.direction }, rotating: None, ..a }
            } else {
                let step = if delta < 0 {
                    -budget
                } else {
                    budget
                };
                Actor { player: Player { direction: (a.player.direction + step) as i64 }, ..a }
            }
        },
    }
}

/// The actor after one rotation step for each sample of elapsed microseconds,
/// in order.
pub open spec fn turned_all(a: Actor, samples: Seq<u64>) -> Actor
    decreases samples.len(),
{
    if samples.len() == 0 {
        a
    } else {
        turned_all(turned(a, samples[0] * TURN_RATE), samples.drop_first())
    }
}

/// The shortest signed turn from angle `from` to angle `to`.
pub fn shortest_turn(from: i64, to: i64) -> (r: i64)
    ensures
        r == shortest_delta(to - from),
{
    proof {
        lemma_shortest_delta_range(to - from);
    }
    let raw = to as i128 - from as i128;
    let reduced = (HALF_TURN as i128 - raw).checked_rem_euclid(FULL_TURN as i128);
    proof {
        lemma_mod_bound(HALF_TURN - raw, FULL_TURN as int);
    }
    let reduced = reduced.unwrap();
    (HALF_TURN as i128 - reduced) as i64
}

/// Whether the actor's turn in progress, if any, can be advanced.
pub fn can_turn(a: &Actor) -> (r: bool)
    ensures
        r == rotation_fits(*a),
{
    match a.rotating {
        None => true,
        Some(rotation) => {
            let delta = shortest_turn(a.player.direction, rotation.direction);
            let landing = a.player.direction as i128 + delta as i128;
            i64::MIN as i128 <= landing && landing <= i64::MAX as i128
        },
    }
}

/// Advances the actor's turn in progress, if any, by one tick of
/// `elapsed_micros`, the shortest way round. The last tick of a turn sets the
/// angle to exactly the target and removes the turn.
pub fn turn_player(elapsed_micros: u64, actor: &mut Actor)
    requires
        rotation_fits(*old(actor)),
    ensures
        *final(actor) == turned(*old(actor), elapsed_micros * TURN_RATE),
        rotation_fits(*final(actor)),
{
    let rot_tick = elapsed_micros as i128 * TURN_RATE as i128;
    if let Some(rotation) = actor.rotating {
        let delta = shortest_turn(actor.player.direction, rotation.direction) as i128;
        proof {
            lemma_shortest_delta_range(rotation.direction - actor.player.direction);
        }
        let size = if delta < 0 {
            -delta
        } else {
            delta
        };
        if size <= rot_tick {
            // finish exactly on the target
            actor.player.direction = rotation.direction;
            actor.rotating = None;
        } else {
            let step = if delta < 0 {
                -rot_tick
            } else {
                rot_tick
            };
            proof {
                lemma_shortest_delta_shift(rotation.direction - actor.player.direction, step as int);
            }
            actor.player.direction = (actor.player.direction as i128 + step) as i64;
        }
    }
}

/// A rotation step keeps the end of the actor's turn in progress in range.
pub proof fn lemma_turned_fits(a: Actor, budget: int)
    requires
        rotation_fits(a),
        budget >= 0,
    ensures
        rotation_fits(turned(a, budget)),
{
    if let Some(r) = a.rotating {
        let raw = r.direction - a.player.direction;
        lemma_shortest_delta_range(raw);
        let delta = shortest_delta(raw);
        if abs(delta) > budget {
            let step = if delta < 0 {
                -budget
            } else {
                budget
            };
            lemma_shortest_delta_shift(raw, step);
        }
    }
}

/// Two ticks of rotation turn the actor as one tick with both budgets together.
pub proof fn lemma_turned_compose(a: Actor, first: int, second: int)
    requires
        rotation_fits(a),
        first >= 0,
        second >= 0,
    ensures
        turned(turned(a, first), second) == turned(a, first + second),
{
    if let Some(r) = a.rotating {
        let raw = r.direction - a.player.direction;
        lemma_shortest_delta_range(raw);
        let delta = shortest_delta(raw);
        if abs(delta) > first {
            let step = if delta < 0 {
                -first
            } else {
                first
            };
            lemma_shortest_delta_shift(raw, step);
        }
    }
}

/// Splitting the elapsed time of one tick into several samples gives the same
/// actor as one sample of their total.
pub proof fn lemma_rotation_split(a: Actor, samples: Seq<u64>)
    requires
        rotation_fits(a),
        samples.len() > 0,
    ensures
        turned_all(a, samples) == turned(a, total(samples) * TURN_RATE),
    decreases samples.len(),
{
    let rest = samples.drop_first();
    let first = samples[0] * TURN_RATE;
    if rest.len() == 0 {
        assert(total(rest) == 0);
    } else {
        lemma_turned_fits(a, first);
        lemma_rotation_split(turned(a, first), rest);
        lemma_total_nonneg(rest);
        lemma_turned_compose(a, first, total(rest) * TURN_RATE);
    }
}

/// Once the samples give enough budget for the shortest turn to the target,
/// the turn is over and the actor faces exactly the target angle.
pub proof fn lemma_rotation_completes(a: Actor, samples: Seq<u64>)
    requires
        rotation_fits(a),
        a.rotating is Some,
        samples.len() > 0,
        total(samples) * TURN_RATE >= abs(
            shortest_delta(a.rotating->Some_0.direction - a.player.direction),
        ),
    ensures
        turned_all(a, samples).rotating is None,
        turned_all(a, samples).player.direction == a.rotating->Some_0.direction,
        turned_all(a, samples).position == a.position,
        turned_all(a, samples).moving == a.moving,
{
    lemma_rotation_split(a, samples);
}

} // verus!
