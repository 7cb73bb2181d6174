//! Opens a web page every `rate` milliseconds.
use vstd::prelude::*;
use super::Schedule;

verus! {

/// The web-page effect.
#[derive(Debug)]
pub struct Web {
    pub enabled: bool,
    /// Milliseconds between two opened pages.
    pub rate: u128,
}

impl Default for Web {
    fn default() -> (r: Self)
        ensures
            !r.enabled,
            r.rate == 10_000,
    {
        Web { enabled: false, rate: 10_000 }
    }
}

impl Web {
    /// The timer the effect arms; each firing opens `Source::url` in the
    /// system's browser.
    pub fn run(&self) -> (s: Schedule)
        ensures
            s == (Schedule { every_ms: self.rate, repeats: true }),
    {
        Schedule { every_ms: self.rate, repeats: true }
    }
}

} // verus!
