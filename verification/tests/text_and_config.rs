use goonto::config::{Booru, Config, ImageRes, LoadPlan, is_config_file};
use goonto::startup::{
    choose_source, desktop_entry, enabled_effects, first_step, should_exit, Effect, FirstStep,
    LoadFailure, SourceKind,
};
use goonto::text::{eq_ignore_ascii_case, file_extension, replace_all, split_after_last, trim};

fn names(v: &[&str]) -> Vec<String> {
    v.iter().map(|s| s.to_string()).collect()
}

#[test]
fn default_config_values() {
    let c = Config::default();
    assert!(!c.run_on_boot);
    assert!(!c.save_logs);
    assert_eq!(c.minimum_run_time, 0);
    assert_eq!(c.exit_keybind, "Ctrl + Backspace");
    assert_eq!(c.image_source.web.booru, Booru::E621);
    assert_eq!(c.image_source.web.image_res, ImageRes::Sample);
    assert_eq!(c.image_source.web.tag_prefix, "rating:explicit score:>200");
    assert!(c.image_source.web.tags.is_empty());
    assert_eq!(c.image_source.local, "");
    let p = &c.effects.popups;
    assert!(p.enabled && p.closable && !p.click_through);
    assert_eq!((p.rate, p.closes_after, p.max), (2_000, 0, 0));
    assert_eq!((p.opacity.from, p.opacity.to), (70, 100));
    assert_eq!((p.mitosis.chance, p.mitosis.max), (30, 5));
    assert!(!c.effects.notifs.enabled);
    assert_eq!(c.effects.notifs.rate, 15_000);
    assert!(c.effects.typing.enabled);
    assert_eq!(c.effects.typing.rate, 30_000);
    assert!(!c.effects.typing.press_enter);
    assert!(!c.effects.clipboard.enabled);
    assert_eq!(c.effects.clipboard.rate, 10_000);
    assert!(!c.effects.discord.enabled);
    assert!(c.effects.discord.shill);
    assert_eq!(c.effects.discord.status, "Stroking their brains out~");
    assert!(!c.effects.wallpaper.enabled);
    assert_eq!(c.effects.wallpaper.rate, 10_000);
    assert!(c.babble.first_person.is_empty() && c.babble.third_person.is_empty());
}

#[test]
fn load_plan_without_config_fails() {
    let plan = Config::load_plan(&names(&["goonto", "readme.txt", ".yml", "x.yaml"]));
    assert!(matches!(plan, LoadPlan::NoConfig));
}

#[test]
fn load_plan_single_config_is_opened() {
    let plan = Config::load_plan(&names(&["goonto", "goonto.yml", "notes.txt"]));
    match plan {
        LoadPlan::Open(n) => assert_eq!(n, "goonto.yml"),
        _ => panic!("expected one file"),
    }
}

#[test]
fn load_plan_several_configs_ask() {
    let plan = Config::load_plan(&names(&["a.yml", "b.yml"]));
    assert!(matches!(plan, LoadPlan::Choose));
}

#[test]
fn config_extension_is_exact() {
    assert!(is_config_file("goonto.yml"));
    assert!(is_config_file("a.b.yml"));
    assert!(!is_config_file("goonto.YML"));
    assert!(!is_config_file(".yml"));
    assert!(!is_config_file("goonto.yml.bak"));
}

#[test]
fn trim_removes_unicode_white_space() {
    assert_eq!(trim("  hi there \t\n"), "hi there");
    assert_eq!(trim("\u{3000}x\u{a0}"), "x");
    assert_eq!(trim("   "), "");
    assert_eq!(trim(""), "");
    assert_eq!(trim("a b"), "a b");
}

#[test]
fn split_after_last_slash() {
    assert_eq!(split_after_last("https://x.net/a/b.png", '/').as_deref(), Some("b.png"));
    assert_eq!(split_after_last("dir/", '/').as_deref(), Some(""));
    assert_eq!(split_after_last("nothing", '/'), None);
}

#[test]
fn extension_follows_path_rules() {
    assert_eq!(file_extension("a.tar.gz").as_deref(), Some("gz"));
    assert_eq!(file_extension("a.").as_deref(), Some(""));
    assert_eq!(file_extension(".hidden"), None);
    assert_eq!(file_extension(".hidden.png").as_deref(), Some("png"));
    assert_eq!(file_extension("noext"), None);
    assert_eq!(file_extension(".."), None);
}

#[test]
fn ascii_case_insensitive_equality() {
    assert!(eq_ignore_ascii_case("JPG", "jpg"));
    assert!(eq_ignore_ascii_case("JpEg", "jpeg"));
    assert!(!eq_ignore_ascii_case("jpgx", "jpg"));
    assert!(!eq_ignore_ascii_case("ÉCU", "écu"));
}

#[test]
fn replace_all_like_std() {
    for (s, p, r) in [
        ("a{X}b{X}", "{X}", "yy"),
        ("aaaa", "aa", "b"),
        ("ab", "", "x"),
        ("", "", "x"),
        ("no placeholder", "{X}", "y"),
        ("{X", "{X}", "y"),
    ] {
        assert_eq!(replace_all(s, p, r), s.replace(p, r));
    }
}

#[test]
fn desktop_entry_fills_both_placeholders() {
    let t = "Exec={REPLACE_WITH_GOONTO_BIN}\nPath={REPLACE_WITH_GOONTO_PATH}\n";
    assert_eq!(
        desktop_entry(t, "/home/u/.local/bin/Goonto/goonto", "/home/u/.local/bin/Goonto"),
        "Exec=/home/u/.local/bin/Goonto/goonto\nPath=/home/u/.local/bin/Goonto\n"
    );
}

#[test]
fn template_without_placeholder_unchanged() {
    let t = "[Desktop Entry]\nName=Goonto\n";
    assert_eq!(desktop_entry(t, "a", "b"), t);
}

#[test]
fn first_step_by_load_outcome() {
    assert_eq!(first_step(None), FirstStep::Run);
    assert_eq!(first_step(Some(LoadFailure::Parse)), FirstStep::ReportParseError);
    assert_eq!(first_step(Some(LoadFailure::Other)), FirstStep::WriteDefault);
}

#[test]
fn local_folder_wins_over_booru() {
    assert_eq!(choose_source(true, Booru::Rule34), SourceKind::Local);
    assert_eq!(choose_source(false, Booru::E621), SourceKind::E621);
    assert_eq!(choose_source(false, Booru::Rule34), SourceKind::Rule34);
    assert_eq!(choose_source(false, Booru::Realbooru), SourceKind::Realbooru);
}

#[test]
fn default_effects_started() {
    let c = Config::default();
    assert_eq!(enabled_effects(&c.effects), vec![Effect::Popups, Effect::Typing]);
    let mut c = Config::default();
    c.effects.popups.enabled = false;
    c.effects.typing.enabled = false;
    c.effects.wallpaper.enabled = true;
    c.effects.notifs.enabled = true;
    assert_eq!(enabled_effects(&c.effects), vec![Effect::Notifs, Effect::Wallpaper]);
}

#[test]
fn exit_only_after_minimum_run_time() {
    assert!(!should_exit(false, 10_000_000_000, 0));
    assert!(!should_exit(true, 5_000_000_000, 5_000));
    assert!(should_exit(true, 5_000_000_001, 5_000));
    assert!(should_exit(true, 1, 0));
    assert!(!should_exit(true, 0, 0));
}
