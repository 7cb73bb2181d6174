//! Flashes a faint band across chosen monitors.
use vstd::prelude::*;
use super::{Schedule, quot};
use crate::random::random_below;

verus! {

/// The subliminal effect.
#[derive(Debug)]
pub struct Subliminal {
    pub enabled: bool,
    /// Milliseconds before the band is shown.
    pub rate: u128,
    pub opacity: Opacity,
    pub monitors: Monitors,
}

/// The band's opacity is drawn from `from` to `to` percent, both included.
#[derive(Clone, Copy, Debug)]
pub struct Opacity {
    pub from: u16,
    pub to: u16,
}

/// The monitors the band is shown on.
#[derive(Debug)]
pub enum Monitors {
    All,
    Primary,
    ExceptPrimary,
    These(Vec<i32>),
}

impl Opacity {
    /// The opacity `offset` percent above `from` (the outcome of a draw).
    pub fn at(&self, offset: u64) -> (r: u16)
        requires
            self.from <= self.to,
            offset <= self.to - self.from,
        ensures
            r == self.from + offset,
    {
        self.from + offset as u16
    }
}

impl Default for Opacity {
    fn default() -> (r: Self)
        ensures
            r.from == 20,
            r.to == 50,
    {
        Opacity { from: 20, to: 50 }
    }
}

impl Default for Monitors {
    fn default() -> (r: Self)
        ensures
            r is Primary,
    {
        Monitors::Primary
    }
}

impl Default for Subliminal {
    fn default() -> (r: Self)
        ensures
            !r.enabled,
            r.rate == 10_000,
            r.opacity.from == 20,
            r.opacity.to == 50,
            r.monitors is Primary,
    {
        Subliminal {
            enabled: false,
            rate: 10_000,
            opacity: Opacity::default(),
            monitors: Monitors::default(),
        }
    }
}

/// The numbers from `from` up to, not including, `to`.
pub open spec fn numbers(from: i32, to: i32) -> Seq<i32> {
    Seq::new(if to > from { (to - from) as nat } else { 0 }, |i: int| (from + i) as i32)
}

/// The monitors the band goes on when `screen_count` screens exist: with a
/// single screen, and for `Primary`, the numbers 0 and 1; all screens; all
/// but the first; or the listed ones.
pub open spec fn monitor_list(monitors: Monitors, screen_count: i32) -> Seq<i32> {
    if screen_count == 1 {
        seq![0i32, 1i32]
    } else {
        match monitors {
            Monitors::All => numbers(0, screen_count),
            Monitors::Primary => seq![0i32, 1i32],
            Monitors::ExceptPrimary => numbers(1, screen_count),
            Monitors::These(list) => list@,
        }
    }
}

fn count_up(from: i32, to: i32) -> (r: Vec<i32>)
    ensures
        r@ == numbers(from, to),
{
    let mut r: Vec<i32> = Vec::new();
    let mut k: i32 = from;
    while k < to
        invariant
            from <= k,
            k <= to || to <= from,
            to <= from ==> k == from,
            r@ == numbers(from, k),
        decreases to - k,
    {
        r.push(k);
        assert(r@ =~= numbers(from, (k + 1) as i32));
        k = k + 1;
    }
    if to > from {
        assert(k == to);
    } else {
        assert(numbers(from, to) =~= numbers(from, k));
    }
    r
}

impl Subliminal {
    /// The timer the effect arms: it fires once, after `rate`.
    pub fn run(&self) -> (s: Schedule)
        ensures
            s == (Schedule { every_ms: self.rate, repeats: false }),
    {
        Schedule { every_ms: self.rate, repeats: false }
    }

    /// The monitors the band is shown on.
    pub fn get_monitors(&self, screen_count: i32) -> (r: Vec<i32>)
        ensures
            r@ == monitor_list(self.monitors, screen_count),
    {
        if screen_count == 1 {
            return vec![0, 1];
        }
        match &self.monitors {
            Monitors::All => count_up(0, screen_count),
            Monitors::Primary => vec![0, 1],
            Monitors::ExceptPrimary => count_up(1, screen_count),
            Monitors::These(list) => list.clone(),
        }
    }

    /// The band on the monitor at (`x`, `y`) of `w` by `h`: the monitor's
    /// width, a third of its height, centred vertically.
    pub fn band(x: i32, y: i32, w: i32, h: i32) -> (r: (i32, i32, i32, i32))
        requires
            i32::MIN <= y + quot(h as int, 2) <= i32::MAX,
            i32::MIN <= y + quot(h as int, 2) - quot(quot(h as int, 3), 2),
            y + quot(h as int, 2) - quot(quot(h as int, 3), 2) <= i32::MAX,
        ensures
            r.0 == x,
            r.1 == y + quot(h as int, 2) - quot(quot(h as int, 3), 2),
            r.2 == w,
            r.3 == quot(h as int, 3),
    {
        let band_height = h / 3;
        (x, (y + h / 2) - band_height / 2, w, band_height)
    }

    /// A random opacity from `from` to `to` percent.
    pub fn opacity_percent(&self) -> (r: u16)
        requires
            self.opacity.from <= self.opacity.to,
        ensures
            self.opacity.from <= r <= self.opacity.to,
    {
        let span = (self.opacity.to - self.opacity.from) as u64 + 1;
        let offset = random_below(span);
        self.opacity.at(offset)
    }

    /// The window-opacity property sent for an opacity of `percent`: the
    /// whole-number part of the fraction, times `u32::MAX`.
    pub fn cardinal_alpha(percent: u16) -> (r: u32)
        requires
            percent < 200,
        ensures
            r == u32::MAX * (percent / 100) as u32,
    {
        u32::MAX * ((percent / 100) as u32)
    }
}

} // verus!
