//! The program's own decisions: what to do when the configuration cannot be
//! loaded, which source to use, which effects to start, when to exit, and
//! the start-up entry written for running on boot.
use vstd::prelude::*;
use crate::config::{Booru, Effects};
use crate::text::{replaced, replace_all};

verus! {

/// Why loading the configuration failed.
#[derive(Clone, Copy, Debug, PartialEq, Eq, Structural)]
pub enum LoadFailure {
    /// A configuration file was found but is not valid YAML for it.
    Parse,
    /// Anything else, such as no configuration file.
    Other,
}

/// What the program does first, by how loading the configuration went.
#[derive(Clone, Copy, Debug, PartialEq, Eq, Structural)]
pub enum FirstStep {
    /// Loading worked: run.
    Run,
    /// Tell the user the configuration could not be parsed, and stop.
    ReportParseError,
    /// Write the default configuration file, greet the user, then run.
    WriteDefault,
}

/// The first step after trying to load the configuration (`None`: it worked).
pub fn first_step(failure: Option<LoadFailure>) -> (r: FirstStep)
    ensures
        failure is None ==> r == FirstStep::Run,
        failure == Some(LoadFailure::Parse) ==> r == FirstStep::ReportParseError,
        failure == Some(LoadFailure::Other) ==> r == FirstStep::WriteDefault,
{
    match failure {
        None => FirstStep::Run,
        Some(LoadFailure::Parse) => FirstStep::ReportParseError,
        Some(LoadFailure::Other) => FirstStep::WriteDefault,
    }
}

/// The kinds of image source.
#[derive(Clone, Copy, Debug, PartialEq, Eq, Structural)]
pub enum SourceKind {
    Local,
    E621,
    Rule34,
    Realbooru,
}

/// The source used: the local folder when it exists, the configured booru
/// otherwise.
pub fn choose_source(local_exists: bool, booru: Booru) -> (r: SourceKind)
    ensures
        local_exists ==> r == SourceKind::Local,
        !local_exists && booru == Booru::E621 ==> r == SourceKind::E621,
        !local_exists && booru == Booru::Rule34 ==> r == SourceKind::Rule34,
        !local_exists && booru == Booru::Realbooru ==> r == SourceKind::Realbooru,
{
    if local_exists {
        SourceKind::Local
    } else {
        match booru {
            Booru::E621 => SourceKind::E621,
            Booru::Rule34 => SourceKind::Rule34,
            Booru::Realbooru => SourceKind::Realbooru,
        }
    }
}

/// The effects the program starts.
#[derive(Clone, Copy, Debug, PartialEq, Eq, Structural)]
pub enum Effect {
    Popups,
    Notifs,
    Typing,
    Clipboard,
    Discord,
    Wallpaper,
}

/// The enabled effects, in the order they are started.
pub open spec fn enabled_list(effects: Effects) -> Seq<Effect> {
    let a = if effects.popups.enabled { seq![Effect::Popups] } else { Seq::empty() };
    let b = if effects.notifs.enabled { seq![Effect::Notifs] } else { Seq::empty() };
    let c = if effects.typing.enabled { seq![Effect::Typing] } else { Seq::empty() };
    let d = if effects.clipboard.enabled { seq![Effect::Clipboard] } else { Seq::empty() };
    let e = if effects.discord.enabled { seq![Effect::Discord] } else { Seq::empty() };
    let f = if effects.wallpaper.enabled { seq![Effect::Wallpaper] } else { Seq::empty() };
    a + b + c + d + e + f
}

/// The effects to start: the enabled ones among popups, notifications,
/// typing, clipboard, Discord and wallpaper, in that order.
pub fn enabled_effects(effects: &Effects) -> (r: Vec<Effect>)
    ensures
        r@ == enabled_list(*effects),
{
    let mut r: Vec<Effect> = Vec::new();
    if effects.popups.enabled {
        r.push(Effect::Popups);
    }
    let ghost a = r@;
    if effects.notifs.enabled {
        r.push(Effect::Notifs);
    }
    let ghost b = r@;
    if effects.typing.enabled {
        r.push(Effect::Typing);
    }
    let ghost c = r@;
    if effects.clipboard.enabled {
        r.push(Effect::Clipboard);
    }
    let ghost d = r@;
    if effects.discord.enabled {
        r.push(Effect::Discord);
    }
    let ghost e = r@;
    if effects.wallpaper.enabled {
        r.push(Effect::Wallpaper);
    }
    assert(r@ =~= enabled_list(*effects));
    r
}

/// Whether the program exits: the exit key combination was pressed and
/// more than `minimum_run_time_ms` milliseconds have passed since start
/// (`elapsed_nanos` nanoseconds have).
pub fn should_exit(hotkey_pressed: bool, elapsed_nanos: u128, minimum_run_time_ms: u64) -> (r: bool)
    ensures
        r == (hotkey_pressed && elapsed_nanos > minimum_run_time_ms as int * 1_000_000),
{
    hotkey_pressed && elapsed_nanos > (minimum_run_time_ms as u128) * 1_000_000
}

/// The placeholder for the program's path in the start-up entry.
pub open spec fn bin_placeholder() -> Seq<char> {
    "{REPLACE_WITH_GOONTO_BIN}"@
}

/// The placeholder for the program's folder in the start-up entry.
pub open spec fn path_placeholder() -> Seq<char> {
    "{REPLACE_WITH_GOONTO_PATH}"@
}

/// The start-up entry: `template` with the program's path and folder put
/// in for their placeholders.
pub fn desktop_entry(template: &str, bin: &str, folder: &str) -> (r: String)
    ensures
        r@ == replaced(replaced(template@, bin_placeholder(), bin@), path_placeholder(), folder@),
{
    let with_bin = replace_all(template, "{REPLACE_WITH_GOONTO_BIN}", bin);
    replace_all(with_bin.as_str(), "{REPLACE_WITH_GOONTO_PATH}", folder)
}

} // verus!
