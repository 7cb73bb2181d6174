//! Opens windows showing images every `rate` milliseconds; closing one may
//! open more.
use vstd::prelude::*;
use super::{Schedule, quot};
use crate::random::random_below;
use crate::sources::{Source, drawn};

verus! {

/// The popup effect.
#[derive(Clone, Copy, Debug)]
pub struct Popups {
    pub enabled: bool,
    /// Milliseconds between two popups.
    pub rate: u64,
    /// Whether clicking a popup closes it.
    pub closable: bool,
    /// Milliseconds after which a popup closes by itself; 0 for never.
    pub closes_after: u64,
    /// Most popups open at once; 0 for no limit.
    pub max: u64,
    /// Whether clicks pass through popups.
    pub click_through: bool,
    pub opacity: Opacity,
    pub mitosis: Mitosis,
}

/// Closing a popup opens `chance` percent of the time a random number of
/// new ones below `max`.
#[derive(Clone, Copy, Debug)]
pub struct Mitosis {
    pub chance: u16,
    pub max: u64,
}

/// Each popup's opacity is drawn from `from` to `to` percent, both included.
#[derive(Clone, Copy, Debug)]
pub struct Opacity {
    pub from: u16,
    pub to: u16,
}

/// How many popups are open.
#[derive(Clone, Copy, Debug)]
pub struct PopupCounter {
    pub open: u64,
}

/// A popup to open: the image shown. Its opacity is drawn once the image
/// has loaded (`Popups::opacity_percent`).
#[derive(Debug)]
pub struct PopupPlan {
    pub image: String,
}

/// What clicking a popup leads to.
#[derive(Debug, PartialEq, Eq, Structural)]
pub enum ClickOutcome {
    /// Open this many new popups (possibly none).
    Spawn(u64),
    /// The popup split, but the number of new popups is to be drawn below
    /// `mitosis.max == 0`, an empty range.
    EmptyRange,
}

impl PopupCounter {
    /// No popup open.
    pub fn new() -> (r: Self)
        ensures
            r.open == 0,
    {
        PopupCounter { open: 0 }
    }

    /// A popup was opened.
    pub fn opened(&mut self)
        requires
            old(self).open < u64::MAX,
        ensures
            final(self).open == old(self).open + 1,
    {
        self.open = self.open + 1;
    }

    /// A popup was closed; the count does not go below zero.
    pub fn closed(&mut self)
        ensures
            final(self).open == (if old(self).open == 0 {
                0
            } else {
                old(self).open - 1
            }),
    {
        self.open = self.open.saturating_sub(1);
    }
}

impl Default for Mitosis {
    fn default() -> (r: Self)
        ensures
            r.chance == 30,
            r.max == 5,
    {
        Mitosis { chance: 30, max: 5 }
    }
}

impl Default for Opacity {
    fn default() -> (r: Self)
        ensures
            r.from == 70,
            r.to == 100,
    {
        Opacity { from: 70, to: 100 }
    }
}

impl Default for Popups {
    fn default() -> (r: Self)
        ensures
            r.is_default(),
    {
        Popups {
            enabled: true,
            rate: 2_000,
            closable: true,
            closes_after: 0,
            max: 0,
            click_through: false,
            opacity: Opacity::default(),
            mitosis: Mitosis::default(),
        }
    }
}

impl Mitosis {
    /// Whether a roll (from 0 to 99) makes a closed popup split.
    pub fn splits(&self, roll: u64) -> (r: bool)
        ensures
            r == (roll < self.chance),
    {
        roll < self.chance as u64
    }

    /// How many popups a closed popup opens for a roll (from 0 to 99) and a
    /// drawn amount: the amount when the roll splits it, none otherwise.
    pub fn spawned(&self, roll: u64, amount: u64) -> (r: u64)
        ensures
            r == (if roll < self.chance {
                amount
            } else {
                0
            }),
    {
        if self.splits(roll) {
            amount
        } else {
            0
        }
    }
}

impl Opacity {
    /// The opacity `offset` percent above `from` (the outcome of a draw).
    pub fn at(&self, offset: u64) -> (r: u16)
        requires
            self.from <= self.to,
            offset <= self.to - self.from,
        ensures
            r == self.from + offset,
    {
        self.from + offset as u16
    }

    /// A random opacity from `from` to `to` percent.
    pub fn percent(&self) -> (r: u16)
        requires
            self.from <= self.to,
        ensures
            self.from <= r <= self.to,
    {
        let span = (self.to - self.from) as u64 + 1;
        let offset = random_below(span);
        self.at(offset)
    }
}

impl Popups {
    /// The default settings.
    pub open spec fn is_default(self) -> bool {
        &&& self.enabled
        &&& self.rate == 2_000
        &&& self.closable
        &&& self.closes_after == 0
        &&& self.max == 0
        &&& !self.click_through
        &&& self.opacity.from == 70
        &&& self.opacity.to == 100
        &&& self.mitosis.chance == 30
        &&& self.mitosis.max == 5
    }

    /// Whether `open` popups are as many as allowed.
    pub open spec fn at_limit(self, open: u64) -> bool {
        self.max != 0 && open >= self.max
    }

    /// The timer the effect arms; each firing calls `new_popup`.
    pub fn run(&self) -> (s: Schedule)
        ensures
            s == (Schedule { every_ms: self.rate as u128, repeats: true }),
    {
        Schedule { every_ms: self.rate as u128, repeats: true }
    }

    /// What one firing decides: nothing when as many popups as allowed are
    /// open (the source is left alone); otherwise an image is drawn from
    /// `source` and, unless there was none, a popup showing it is planned.
    pub fn new_popup<S: Source>(&self, counter: &PopupCounter, source: &mut S) -> (r: Option<PopupPlan>)
        ensures
            self.at_limit(counter.open) ==> r is None && *final(source) == *old(source),
            !self.at_limit(counter.open) && r is None ==> drawn(
                old(source).image_pool(),
                final(source).image_pool(),
                Seq::empty(),
                old(source).consumes_images(),
            ),
            r matches Some(p) ==> {
                &&& !self.at_limit(counter.open)
                &&& p.image@.len() > 0
                &&& drawn(
                    old(source).image_pool(),
                    final(source).image_pool(),
                    p.image@,
                    old(source).consumes_images(),
                )
            },
    {
        if self.max != 0 && counter.open >= self.max {
            return None;
        }
        let image = source.image();
        if image.as_str().is_empty() {
            proof {
                assert(image@ =~= Seq::<char>::empty());
            }
            return None;
        }
        Some(PopupPlan { image })
    }

    /// The opacity of a popup whose image has loaded, drawn from
    /// `opacity.from` to `opacity.to` percent.
    pub fn opacity_percent(&self) -> (r: u16)
        requires
            self.opacity.from <= self.opacity.to,
        ensures
            self.opacity.from <= r <= self.opacity.to,
    {
        self.opacity.percent()
    }

    /// The timer that closes a popup by itself: one firing after
    /// `closes_after`, or none when `closes_after` is 0.
    pub fn close_timer(&self) -> (r: Option<Schedule>)
        ensures
            self.closes_after == 0 ==> r is None,
            self.closes_after > 0 ==> r == Some(
                Schedule { every_ms: self.closes_after as u128, repeats: false },
            ),
    {
        if self.closes_after > 0 {
            Some(Schedule { every_ms: self.closes_after as u128, repeats: false })
        } else {
            None
        }
    }

    /// What clicking a popup does: nothing unless popups are closable;
    /// otherwise the popup closes and a roll (0 to 99) decides whether it
    /// splits; if it does, the number of new popups is drawn below
    /// `mitosis.max`, or `EmptyRange` is returned when that range is empty.
    pub fn on_click(&self, counter: &mut PopupCounter) -> (r: ClickOutcome)
        ensures
            !self.closable ==> r == ClickOutcome::Spawn(0) && *final(counter) == *old(counter),
            self.closable ==> final(counter).open == (if old(counter).open == 0 {
                0
            } else {
                old(counter).open - 1
            }),
            self.mitosis.chance == 0 ==> r == ClickOutcome::Spawn(0),
            r is EmptyRange ==> self.closable && self.mitosis.chance > 0 && self.mitosis.max == 0,
            self.closable && self.mitosis.chance >= 100 && self.mitosis.max == 0 ==> r
                is EmptyRange,
            r matches ClickOutcome::Spawn(n) ==> n == 0 || n < self.mitosis.max,
    {
        if !self.closable {
            return ClickOutcome::Spawn(0);
        }
        counter.closed();
        let roll = random_below(100);
        if !self.mitosis.splits(roll) {
            return ClickOutcome::Spawn(0);
        }
        if self.mitosis.max == 0 {
            return ClickOutcome::EmptyRange;
        }
        let amount = random_below(self.mitosis.max);
        ClickOutcome::Spawn(self.mitosis.spawned(roll, amount))
    }

    /// Where a popup of `img_w` by `img_h` goes so that it is centred on
    /// (`win_x`, `win_y`).
    pub fn popup_origin(win_x: i32, win_y: i32, img_w: i32, img_h: i32) -> (r: (i32, i32))
        requires
            i32::MIN <= win_x - quot(img_w as int, 2) <= i32::MAX,
            i32::MIN <= win_y - quot(img_h as int, 2) <= i32::MAX,
        ensures
            r.0 == win_x - quot(img_w as int, 2),
            r.1 == win_y - quot(img_h as int, 2),
    {
        (win_x - img_w / 2, win_y - img_h / 2)
    }

    /// A random point of the display at (`x`, `y`) of `w` by `h`.
    pub fn window_position(x: i32, y: i32, w: i32, h: i32) -> (r: (i32, i32))
        requires
            w > 0,
            h > 0,
            x + w <= i32::MAX,
            y + h <= i32::MAX,
        ensures
            x <= r.0 < x + w,
            y <= r.1 < y + h,
    {
        let dx = random_below(w as u64) as i32;
        let dy = random_below(h as u64) as i32;
        Self::point_at(x, y, dx, dy)
    }

    /// The point `dx` right of and `dy` below (`x`, `y`) (the outcome of a
    /// draw).
    pub fn point_at(x: i32, y: i32, dx: i32, dy: i32) -> (r: (i32, i32))
        requires
            i32::MIN <= x + dx <= i32::MAX,
            i32::MIN <= y + dy <= i32::MAX,
        ensures
            r.0 == x + dx,
            r.1 == y + dy,
    {
        (x + dx, y + dy)
    }

    /// A random display among `screen_count`.
    pub fn random_display(screen_count: i32) -> (r: i32)
        requires
            screen_count > 0,
        ensures
            0 <= r < screen_count,
    {
        random_below(screen_count as u64) as i32
    }
}

} // verus!
