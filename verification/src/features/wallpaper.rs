//! Changes the desktop wallpaper every `rate` milliseconds and puts the old
//! one back on exit.
use vstd::prelude::*;
use vstd::string::*;
use super::Schedule;
use crate::sources::{Source, drawn};

verus! {

/// The wallpaper effect.
#[derive(Debug)]
pub struct Wallpaper {
    pub enabled: bool,
    /// Milliseconds between two changes.
    pub rate: u128,
    /// The wallpaper found at start, put back on exit.
    pub old_wallpaper: String,
    /// How the old wallpaper was placed.
    pub old_wallpaper_position: i32,
}

impl Default for Wallpaper {
    fn default() -> (r: Self)
        ensures
            r.is_default(),
    {
        Wallpaper {
            enabled: false,
            rate: 10_000,
            old_wallpaper: String::new(),
            old_wallpaper_position: 0,
        }
    }
}

impl Wallpaper {
    /// The default settings.
    pub open spec fn is_default(self) -> bool {
        &&& !self.enabled
        &&& self.rate == 10_000
        &&& self.old_wallpaper@.len() == 0
        &&& self.old_wallpaper_position == 0
    }

    /// Starts the effect once the current wallpaper has been looked up:
    /// `stored` is `Err` when that failed (the effect then does not start),
    /// `Ok(Some((path, position)))` when one was found and `Ok(None)` on
    /// systems where nothing is looked up. Returns the timer armed, if any.
    pub fn run(&mut self, stored: Result<Option<(String, i32)>, ()>) -> (s: Option<Schedule>)
        ensures
            stored is Err ==> s is None && *final(self) == *old(self),
            stored is Ok ==> s == Some(Schedule { every_ms: old(self).rate, repeats: true }),
            stored matches Ok(None) ==> *final(self) == *old(self),
            stored matches Ok(Some((path, position))) ==> (final(self).old_wallpaper == path
                && final(self).old_wallpaper_position == position && final(self).enabled == old(
                self,
            ).enabled && final(self).rate == old(self).rate),
    {
        match stored {
            Err(_) => None,
            Ok(found) => {
                if let Some((path, position)) = found {
                    self.old_wallpaper = path;
                    self.old_wallpaper_position = position;
                }
                Some(Schedule { every_ms: self.rate, repeats: true })
            },
        }
    }

    /// What one firing does: draws an image from `source` and returns it as
    /// the new wallpaper, or nothing when the source had none.
    pub fn next_wallpaper<S: Source>(&self, source: &mut S) -> (r: Option<String>)
        ensures
            r matches Some(path) ==> path@.len() > 0 && drawn(
                old(source).image_pool(),
                final(source).image_pool(),
                path@,
                old(source).consumes_images(),
            ),
            r is None ==> drawn(
                old(source).image_pool(),
                final(source).image_pool(),
                Seq::empty(),
                old(source).consumes_images(),
            ),
    {
        let image = source.image();
        if image.as_str().is_empty() {
            proof {
                assert(image@ =~= Seq::<char>::empty());
            }
            None
        } else {
            Some(image)
        }
    }

    /// What exiting does: when the effect is enabled nothing is restored;
    /// otherwise the stored wallpaper and its placement are put back.
    pub fn exit_hook(&self) -> (r: Option<(String, i32)>)
        ensures
            self.enabled ==> r is None,
            !self.enabled ==> (r matches Some((path, position)) && path@ == self.old_wallpaper@
                && position == self.old_wallpaper_position),
    {
        if self.enabled {
            return None;
        }
        Some((self.old_wallpaper.clone(), self.old_wallpaper_position))
    }
}

} // verus!
