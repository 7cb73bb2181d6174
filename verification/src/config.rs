//! The configuration, as read from the YAML file next to the program, and
//! its defaults.
use vstd::prelude::*;
use vstd::string::*;
use crate::features::{Popups, Notifs, Typing, Clipboard, Discord, Wallpaper};
use crate::text::{extension, file_extension};
use crate::sources::views;

verus! {

/// The whole configuration.
pub struct Config {
    pub run_on_boot: bool,
    pub save_logs: bool,
    /// Milliseconds after start before the exit key combination is obeyed.
    pub minimum_run_time: u64,
    pub image_source: ImageSource,
    pub effects: Effects,
    pub babble: Babble,
    pub exit_keybind: String,
}

/// Where images come from: a local folder when it exists, a booru otherwise.
pub struct ImageSource {
    pub web: Web,
    pub local: String,
}

/// The booru searched and how.
pub struct Web {
    pub booru: Booru,
    pub image_res: ImageRes,
    /// Tags added to every search.
    pub tag_prefix: String,
    /// Tags searched for, one at random per search.
    pub tags: Vec<String>,
}

/// The boorus images can come from.
#[derive(Clone, Copy, Debug, PartialEq, Eq, Structural)]
pub enum Booru {
    E621,
    Rule34,
    Realbooru,
}

/// Which file of a post is downloaded.
#[derive(Clone, Copy, Debug, PartialEq, Eq, Structural)]
pub enum ImageRes {
    Sample,
    Full,
}

/// The effects and their settings.
pub struct Effects {
    pub popups: Popups,
    pub notifs: Notifs,
    pub typing: Typing,
    pub clipboard: Clipboard,
    pub discord: Discord,
    pub wallpaper: Wallpaper,
}

/// Lines of text that replace the built-in ones when given.
pub struct Babble {
    pub first_person: Vec<String>,
    pub third_person: Vec<String>,
}

impl Default for Booru {
    fn default() -> (r: Self)
        ensures
            r == Booru::E621,
    {
        Booru::E621
    }
}

impl Default for ImageRes {
    fn default() -> (r: Self)
        ensures
            r == ImageRes::Sample,
    {
        ImageRes::Sample
    }
}

impl Default for Web {
    fn default() -> (r: Self)
        ensures
            r.booru == Booru::E621,
            r.image_res == ImageRes::Sample,
            r.tag_prefix@ == "rating:explicit score:>200"@,
            r.tags@.len() == 0,
    {
        Web {
            booru: Booru::E621,
            image_res: ImageRes::Sample,
            tag_prefix: String::from_str("rating:explicit score:>200"),
            tags: Vec::new(),
        }
    }
}

impl Default for ImageSource {
    fn default() -> (r: Self)
        ensures
            r.web.booru == Booru::E621,
            r.web.image_res == ImageRes::Sample,
            r.web.tag_prefix@ == "rating:explicit score:>200"@,
            r.web.tags@.len() == 0,
            r.local@.len() == 0,
    {
        ImageSource { web: Web::default(), local: String::new() }
    }
}

impl Default for Babble {
    fn default() -> (r: Self)
        ensures
            r.first_person@.len() == 0,
            r.third_person@.len() == 0,
    {
        Babble { first_person: Vec::new(), third_person: Vec::new() }
    }
}

impl Default for Effects {
    fn default() -> (r: Self)
        ensures
            r.popups.is_default(),
            !r.notifs.enabled && r.notifs.rate == 15_000,
            r.typing.enabled && r.typing.rate == 30_000 && !r.typing.press_enter,
            !r.clipboard.enabled && r.clipboard.rate == 10_000,
            r.discord.is_default(),
            r.wallpaper.is_default(),
    {
        Effects {
            popups: Popups::default(),
            notifs: Notifs::default(),
            typing: Typing::default(),
            clipboard: Clipboard::default(),
            discord: Discord::default(),
            wallpaper: Wallpaper::default(),
        }
    }
}

impl Default for Config {
    fn default() -> (r: Self)
        ensures
            !r.run_on_boot,
            !r.save_logs,
            r.minimum_run_time == 0,
            r.image_source.web.booru == Booru::E621,
            r.image_source.web.image_res == ImageRes::Sample,
            r.image_source.web.tag_prefix@ == "rating:explicit score:>200"@,
            r.image_source.web.tags@.len() == 0,
            r.image_source.local@.len() == 0,
            r.effects.popups.is_default(),
            !r.effects.notifs.enabled && r.effects.notifs.rate == 15_000,
            r.effects.typing.enabled && r.effects.typing.rate == 30_000
                && !r.effects.typing.press_enter,
            !r.effects.clipboard.enabled && r.effects.clipboard.rate == 10_000,
            r.effects.discord.is_default(),
            r.effects.wallpaper.is_default(),
            r.babble.first_person@.len() == 0,
            r.babble.third_person@.len() == 0,
            r.exit_keybind@ == "Ctrl + Backspace"@,
    {
        Config {
            run_on_boot: false,
            save_logs: false,
            minimum_run_time: 0,
            image_source: ImageSource::default(),
            effects: Effects::default(),
            babble: Babble::default(),
            exit_keybind: String::from_str("Ctrl + Backspace"),
        }
    }
}

/// Whether a file called `name` is a configuration file: its extension is
/// exactly `yml`.
pub open spec fn is_config_name(name: Seq<char>) -> bool {
    extension(name) == Some("yml"@)
}

/// The configuration files among `names`, in order.
pub open spec fn config_files(names: Seq<Seq<char>>) -> Seq<Seq<char>>
    decreases names.len(),
{
    if names.len() == 0 {
        Seq::empty()
    } else if is_config_name(names.last()) {
        config_files(names.drop_last()).push(names.last())
    } else {
        config_files(names.drop_last())
    }
}

/// What loading the configuration does, given the files next to the program.
#[derive(Debug)]
pub enum LoadPlan {
    /// No configuration file: loading fails.
    NoConfig,
    /// Exactly one configuration file: it is read.
    Open(String),
    /// Several: the user picks one among those shown.
    Choose,
}

/// Whether a file called `name` is a configuration file.
pub fn is_config_file(name: &str) -> (r: bool)
    ensures
        r == is_config_name(name@),
{
    match file_extension(name) {
        Some(ext) => {
            let yml = String::from_str("yml");
            ext == yml
        },
        None => false,
    }
}

impl Config {
    /// What loading does when the files next to the program are called
    /// `names`: fail when none is a configuration file, read it when one is,
    /// let the user choose when several are.
    pub fn load_plan(names: &Vec<String>) -> (r: LoadPlan)
        ensures
            config_files(views(names@)).len() == 0 <==> r is NoConfig,
            config_files(views(names@)).len() > 1 <==> r is Choose,
            r matches LoadPlan::Open(name) ==> config_files(views(names@)) == seq![name@],
    {
        let mut found: Vec<String> = Vec::new();
        let mut i: usize = 0;
        while i < names.len()
            invariant
                i <= names.len(),
                views(found@) == config_files(views(names@).take(i as int)),
            decreases names.len() - i,
        {
            proof {
                assert(views(names@).take(i + 1).drop_last() =~= views(names@).take(i as int));
                assert(views(names@).take(i + 1).last() == names@[i as int]@);
            }
            if is_config_file(names[i].as_str()) {
                let ghost prev = found@;
                found.push(names[i].clone());
                assert(views(found@) =~= views(prev).push(names@[i as int]@)) by {
                    assert(views(found@).last() == names@[i as int]@);
                }
            }
            i = i + 1;
        }
        assert(views(names@).take(names.len() as int) =~= views(names@));
        if found.len() == 0 {
            LoadPlan::NoConfig
        } else if found.len() == 1 {
            let name = found[0].clone();
            assert(views(found@) =~= seq![name@]);
            LoadPlan::Open(name)
        } else {
            LoadPlan::Choose
        }
    }
}

} // verus!
