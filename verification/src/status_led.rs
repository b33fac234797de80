//! The patterns shown on the board's LED.
use vstd::prelude::*;

verus! {

/// Switch the LED on or off, then hold it so for `hold_ms` milliseconds.
#[derive(Debug, Clone, Copy, PartialEq, Eq, Structural)]
pub struct LedStep {
    pub on: bool,
    pub hold_ms: u64,
}

/// How long each half of a blink lasts, in milliseconds.
pub const BLINK_HALF_MS: u64 = 100;

/// The pattern that reports a failure: `blinks` times on and off, each for
/// 100 milliseconds.
pub fn exception_blink_pattern(blinks: u8) -> (r: Vec<LedStep>)
    ensures
        r@.len() == 2 * blinks,
        forall|i: int|
            0 <= i < r@.len() ==> #[trigger] r@[i] == (LedStep { on: i % 2 == 0, hold_ms: BLINK_HALF_MS }),
        forall|i: int| 0 <= i < r@.len() ==> (#[trigger] r@[i]).hold_ms == 100,
        forall|i: int|
            0 <= i < r@.len() ==> (#[trigger] r@[i]).on == (i % 2 == 0),
{
    let mut steps: Vec<LedStep> = Vec::new();
    let mut n: u8 = 0;
    while n < blinks
        invariant
            n <= blinks,
            steps@.len() == 2 * n,
            forall|i: int|
                0 <= i < steps@.len() ==> #[trigger] steps@[i] == (LedStep {
                    on: i % 2 == 0,
                    hold_ms: BLINK_HALF_MS,
                }),
        decreases blinks - n,
    {
        steps.push(LedStep { on: true, hold_ms: BLINK_HALF_MS });
        steps.push(LedStep { on: false, hold_ms: BLINK_HALF_MS });
        n = n + 1;
    }
    steps
}

} // verus!
