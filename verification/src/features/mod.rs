//! The effects: for each, its configuration, the timer it arms and what one
//! firing decides.
pub mod clipboard;
pub mod discord;
pub mod notifs;
pub mod popups;
pub mod repeat;
pub mod subliminal;
pub mod typing;
pub mod wallpaper;
pub mod web;

pub use clipboard::Clipboard;
pub use discord::Discord;
pub use notifs::Notifs;
pub use popups::Popups;
pub use repeat::RepeatDialog;
pub use subliminal::Subliminal;
pub use typing::Typing;
pub use wallpaper::Wallpaper;
pub use web::Web;

use vstd::prelude::*;

verus! {

/// `a / d` as Rust computes it on signed integers: the quotient rounded
/// toward zero (for `d > 0`).
pub open spec fn quot(a: int, d: int) -> int {
    if a >= 0 {
        a / d
    } else {
        -((-a) / d)
    }
}

/// A timer that an effect arms: it first fires `every_ms` milliseconds after
/// it is armed and, when `repeats`, again every `every_ms` milliseconds.
#[derive(Clone, Copy, Debug, PartialEq, Eq, Structural)]
pub struct Schedule {
    pub every_ms: u128,
    pub repeats: bool,
}

} // verus!
