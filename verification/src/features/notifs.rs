//! Shows a desktop notification with a third-person line every `rate`
//! milliseconds.
use vstd::prelude::*;
use super::Schedule;

verus! {

/// The notification effect.
#[derive(Debug)]
pub struct Notifs {
    pub enabled: bool,
    /// Milliseconds between two notifications.
    pub rate: u128,
}

impl Default for Notifs {
    fn default() -> (r: Self)
        ensures
            !r.enabled,
            r.rate == 15_000,
    {
        Notifs { enabled: false, rate: 15_000 }
    }
}

impl Notifs {
    /// The timer the effect arms; each firing shows a notification whose
    /// body is `Source::third_person`.
    pub fn run(&self) -> (s: Schedule)
        ensures
            s == (Schedule { every_ms: self.rate, repeats: true }),
    {
        Schedule { every_ms: self.rate, repeats: true }
    }
}

} // verus!
