//! Chooses a workout from an intensity and a random number, using a memoizing
//! evaluator so that the expensive intensity computation runs at most once.

use vstd::prelude::*;
use crate::cacher::Cacher;

verus! {

/// What the day's workout is: a round of exercises, a break, or a run.
#[derive(Clone, Copy, Debug, PartialEq, Eq, Structural)]
pub enum Workout {
    Exercises { pushups: u32, situps: u32 },
    Break,
    Run { minutes: u32 },
}

/// Picks the workout for `intensity` and `random_number`. A low intensity
/// (below 25) asks the cached computation for the exercise count twice, and
/// memoization guarantees both rounds use the same number; otherwise a random
/// number of 3 means a break, and any other random number means a run whose
/// minutes the cached computation gives. The evaluator's store grows only by
/// the entry for `intensity`, and only when the computation is consulted.
pub fn generate_workout<T: Fn(u32) -> u32>(
    cache: &mut Cacher<T>,
    intensity: u32,
    random_number: u32,
) -> (w: Workout)
    requires
        old(cache).wf(),
        call_requires(old(cache).computation(), (intensity,)),
    ensures
        final(cache).wf(),
        final(cache).computation() == old(cache).computation(),
        intensity < 25 ==> (match w {
            Workout::Exercises { pushups, situps } => {
                &&& pushups == situps
                &&& call_ensures(old(cache).computation(), (intensity,), pushups)
                &&& final(cache)@ == old(cache)@.insert(intensity, pushups)
            },
            _ => false,
        }),
        intensity >= 25 && random_number == 3 ==> w == Workout::Break && *final(cache) == *old(
            cache,
        ),
        intensity >= 25 && random_number != 3 ==> (match w {
            Workout::Run { minutes } => {
                &&& call_ensures(old(cache).computation(), (intensity,), minutes)
                &&& final(cache)@ == old(cache)@.insert(intensity, minutes)
            },
            _ => false,
        }),
{
    if intensity < 25 {
        let pushups = cache.value(intensity);
        let situps = cache.value(intensity);
        Workout::Exercises { pushups, situps }
    } else {
        if random_number == 3 {
            Workout::Break
        } else {
            let minutes = cache.value(intensity);
            Workout::Run { minutes }
        }
    }
}

} // verus!
