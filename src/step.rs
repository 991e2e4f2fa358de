use vstd::prelude::*;

use crate::components::Actor;
use crate::direction::TURN_RATE;
use crate::input::{keyboard_input, resolved, Arrows};
use crate::rotation::{
    can_turn, lemma_rotation_split, lemma_turned_fits, rotation_fits, turn_player, turned,
    turned_all,
};
use crate::translation::{
    can_translate, lemma_total_nonneg, lemma_translated_fits, lemma_translation_split, move_player,
    total, translated, translated_all, translation_fits,
};

verus! {

/// The actor after a whole tick: its input is handled first, then the step and
/// the turn in progress each advance by the same elapsed time.
pub open spec fn ticked(a: Actor, keys: Arrows, elapsed: u64) -> Actor {
    turned(translated(resolved(a, keys), elapsed as int), elapsed * TURN_RATE)
}

/// Whether the step and turn in progress after handling `keys` end inside the
/// range of `i64`, so that the tick can be carried out.
pub open spec fn tick_fits(a: Actor, keys: Arrows) -> bool {
    translation_fits(resolved(a, keys)) && rotation_fits(resolved(a, keys))
}

/// Runs one tick of `elapsed_micros` for the actor with the arrow keys `keys`
/// held. Returns `false`, and leaves the actor as it was, only where the step
/// or turn would leave the range of `i64`.
pub fn tick(keys: &Arrows, elapsed_micros: u64, actor: &mut Actor) -> (r: bool)
    ensures
        r == tick_fits(*old(actor), *keys),
        r ==> *final(actor) == ticked(*old(actor), *keys, elapsed_micros),
        !r ==> *final(actor) == *old(actor),
{
    let mut next = *actor;
    keyboard_input(keys, &mut next);
    if !can_translate(&next) || !can_turn(&next) {
        return false;
    }
    move_player(elapsed_micros, &mut next);
    turn_player(elapsed_micros, &mut next);
    *actor = next;
    true
}

/// No arrow key held.
pub open spec fn no_keys() -> Arrows {
    Arrows { left: false, right: false, up: false, down: false }
}

/// The actor after one tick with no key held for each sample, in order.
pub open spec fn idle_ticked_all(a: Actor, samples: Seq<u64>) -> Actor
    decreases samples.len(),
{
    if samples.len() == 0 {
        a
    } else {
        idle_ticked_all(ticked(a, no_keys(), samples[0]), samples.drop_first())
    }
}

/// Steps and turns touch different parts of the actor, so either may go
/// first.
pub proof fn lemma_translated_turned_commute(a: Actor, elapsed: int, budget: int)
    ensures
        translated(turned(a, budget), elapsed) == turned(translated(a, elapsed), budget),
        translation_fits(turned(a, budget)) == translation_fits(a),
        rotation_fits(translated(a, elapsed)) == rotation_fits(a),
{
}

/// Splitting the elapsed time of ticks with no key held into several samples
/// gives the same position, orientation and intents as one tick of their
/// total.
pub proof fn lemma_tick_split(a: Actor, samples: Seq<u64>)
    requires
        translation_fits(a),
        rotation_fits(a),
        samples.len() > 0,
        total(samples) <= u64::MAX,
    ensures
        idle_ticked_all(a, samples) == ticked(a, no_keys(), total(samples) as u64),
{
    lemma_total_nonneg(samples);
    lemma_idle_ticks_separate(a, samples);
    lemma_translation_split(a, samples);
    lemma_translated_fits(a, total(samples));
    lemma_rotation_split(translated(a, total(samples)), samples);
}

/// Ticks with no key held run the steps first and then the turns.
proof fn lemma_idle_ticks_separate(a: Actor, samples: Seq<u64>)
    requires
        translation_fits(a),
        rotation_fits(a),
    ensures
        idle_ticked_all(a, samples) == turned_all(translated_all(a, samples), samples),
    decreases samples.len(),
{
    if samples.len() > 0 {
        let e = samples[0];
        let rest = samples.drop_first();
        let b = e * TURN_RATE;
        let moved = translated(a, e as int);
        lemma_translated_fits(a, e as int);
        lemma_turned_fits(moved, b);
        lemma_translated_turned_commute(moved, 0, b);
        lemma_idle_ticks_separate(turned(moved, b), rest);
        lemma_turned_all_after_translated_all(moved, rest, b);
    }
}

/// Turning before a run of steps is the same as turning after it.
proof fn lemma_turned_all_after_translated_all(a: Actor, samples: Seq<u64>, budget: int)
    requires
        translation_fits(a),
    ensures
        translated_all(turned(a, budget), samples) == turned(translated_all(a, samples), budget),
    decreases samples.len(),
{
    if samples.len() > 0 {
        let e = samples[0] as int;
        lemma_translated_turned_commute(a, e, budget);
        lemma_translated_fits(a, e);
        lemma_turned_all_after_translated_all(translated(a, e), samples.drop_first(), budget);
    }
}

} // verus!
