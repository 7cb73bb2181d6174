//! Copies a first-person line to the clipboard every `rate` milliseconds.
use vstd::prelude::*;
use super::Schedule;

verus! {

/// The clipboard effect.
#[derive(Debug)]
pub struct Clipboard {
    pub enabled: bool,
    /// Milliseconds between two copies.
    pub rate: u128,
}

impl Default for Clipboard {
    fn default() -> (r: Self)
        ensures
            !r.enabled,
            r.rate == 10_000,
    {
        Clipboard { enabled: false, rate: 10_000 }
    }
}

impl Clipboard {
    /// The timer the effect arms; each firing copies `Source::first_person`.
    pub fn run(&self) -> (s: Schedule)
        ensures
            s == (Schedule { every_ms: self.rate, repeats: true }),
    {
        Schedule { every_ms: self.rate, repeats: true }
    }
}

} // verus!
