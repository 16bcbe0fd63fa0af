//! The wave display: a row of bars that dance while sound is coming out
//! and lie flat while it is not.

use vstd::prelude::*;
use rand::Rng;

verus! {

/// The number of bars.
pub const BARS: usize = 20;

/// The heights of a bar run from zero to just below this.
pub const LEVELS: u64 = 10;

/// The random number generator of the current thread.
#[verifier::external_type_specification]
#[verifier::external_body]
pub struct ExThreadRng(rand::rngs::ThreadRng);

/// `rand::thread_rng`: a handle to the generator of the current thread.
/// Nothing is claimed of it. It panics only where the operating system
/// gives no random numbers to seed the generator with.
pub assume_specification[ rand::thread_rng ]() -> (rng: rand::rngs::ThreadRng)
;

/// `rand::Rng::gen_range` over the half-open range from `low` to `high`:
/// some value of that range, as the method's documentation says. The
/// method panics on an empty range, so `low` has to lie below `high`. It
/// panics also where the operating system gives no random numbers when the
/// generator seeds itself anew, which no argument decides.
#[verifier::external_body]
fn random_between(rng: &mut rand::rngs::ThreadRng, low: u64, high: u64) -> (value: u64)
    requires
        low < high,
    ensures
        low <= value < high,
{
    rng.gen_range(low..high)
}

/// The height of a bar for which `sample` was drawn: the sample while sound
/// is coming out, zero while it is not.
pub open spec fn spec_level(sample: u64, playing: bool) -> u64 {
    if playing {
        sample
    } else {
        0
    }
}

/// The height of a bar for which `sample` was drawn.
#[verifier::when_used_as_spec(spec_level)]
pub fn level(sample: u64, playing: bool) -> (height: u64)
    ensures
        height == spec_level(sample, playing),
{
    if playing {
        sample
    } else {
        0
    }
}

/// The heights of the bars of the wave display, drawn anew at every call.
/// There are [`BARS`] of them, each below [`LEVELS`], and all are zero
/// while no sound is coming out.
pub fn chart_levels(playing: bool) -> (heights: Vec<u64>)
    ensures
        heights@.len() == BARS,
        forall|i: int| 0 <= i < heights@.len() ==> #[trigger] heights@[i] < LEVELS,
        !playing ==> forall|i: int| 0 <= i < heights@.len() ==> #[trigger] heights@[i] == 0,
{
    let mut rng = rand::thread_rng();
    let mut heights: Vec<u64> = Vec::new();
    let mut at: usize = 0;
    while at < BARS
        invariant
            at <= BARS,
            heights@.len() == at,
            forall|i: int| 0 <= i < heights@.len() ==> #[trigger] heights@[i] < LEVELS,
            !playing ==> forall|i: int| 0 <= i < heights@.len() ==> #[trigger] heights@[i] == 0,
        decreases BARS - at,
    {
        let sample: u64 = random_between(&mut rng, 0, LEVELS);
        let height: u64 = level(sample, playing);
        heights.push(height);
        at = at + 1;
    }
    heights
}

} // verus!
