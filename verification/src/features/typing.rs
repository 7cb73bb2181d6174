//! Types a first-person line, and optionally presses Return, every `rate`
//! milliseconds.
use vstd::prelude::*;
use super::Schedule;

verus! {

/// The typing effect.
#[derive(Debug)]
pub struct Typing {
    pub enabled: bool,
    /// Milliseconds between two typed lines.
    pub rate: u128,
    /// Whether Return is pressed after each line.
    pub press_enter: bool,
}

impl Default for Typing {
    fn default() -> (r: Self)
        ensures
            r.enabled,
            r.rate == 30_000,
            !r.press_enter,
    {
        Typing { enabled: true, rate: 30_000, press_enter: false }
    }
}

impl Typing {
    /// The timer the effect arms; each firing types `Source::first_person`
    /// and then, if `press_enter`, presses Return.
    pub fn run(&self) -> (s: Schedule)
        ensures
            s == (Schedule { every_ms: self.rate, repeats: true }),
    {
        Schedule { every_ms: self.rate, repeats: true }
    }
}

} // verus!
