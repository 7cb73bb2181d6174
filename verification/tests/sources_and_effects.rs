use goonto::config::{Config, ImageRes};
use goonto::features::discord::Activity;
use goonto::features::popups::{ClickOutcome, Mitosis, Opacity, PopupCounter};
use goonto::features::subliminal::Opacity as BandOpacity;
use goonto::features::subliminal::Monitors;
use goonto::features::{Clipboard, Discord, Popups, RepeatDialog, Subliminal, Wallpaper, Web};
use goonto::sources::e621::E6Post;
use goonto::sources::local::allowed_extension;
use goonto::sources::{
    cache_path, get_babble, local_babble, local_prompts, local_urls, pick, random_from,
    take_random, ImagePool, Local, Rule34, Source, E621,
};

fn strings(v: &[&str]) -> Vec<String> {
    v.iter().map(|s| s.to_string()).collect()
}

fn local_with(images: &[&str]) -> Local {
    let mut l = Local::new(&Config::default());
    for i in images {
        assert!(l.add(i.to_string(), i, true));
    }
    l
}

#[test]
fn built_in_lines() {
    assert_eq!(local_prompts().len(), 61);
    assert_eq!(local_babble().len(), 17);
    assert_eq!(local_urls(), strings(&["https://e621.net/", "https://rule34.xxx/"]));
    assert_eq!(local_prompts()[0], "Your body is a temple for PORN, worship it and be consumed by it.");
    assert_eq!(local_babble()[16], "My musky goonstick won't stop pumping out cummmm hhnnnngggg");
}

#[test]
fn babble_falls_back_to_built_in() {
    let c = Config::default();
    let (first, third) = get_babble(&c);
    assert_eq!(first, local_babble());
    assert_eq!(third, local_prompts());
    let mut c = Config::default();
    c.babble.first_person = strings(&["mine"]);
    let (first, third) = get_babble(&c);
    assert_eq!(first, strings(&["mine"]));
    assert_eq!(third, local_prompts());
}

#[test]
fn random_pick_from_lines() {
    assert_eq!(random_from(&Vec::new()), "");
    let v = strings(&["a", "b", "c"]);
    for _ in 0..50 {
        assert!(v.contains(&random_from(&v)));
    }
    assert_eq!(pick(&v, 1), "b");
}

#[test]
fn take_random_removes_what_it_gives() {
    let mut v = strings(&["a", "b", "c"]);
    let mut seen = Vec::new();
    for _ in 0..3 {
        seen.push(take_random(&mut v));
    }
    seen.sort();
    assert_eq!(seen, strings(&["a", "b", "c"]));
    assert!(v.is_empty());
    assert_eq!(take_random(&mut v), "");
}

#[test]
fn single_image_pool_gives_it_back() {
    let mut p = ImagePool::new();
    p.add("./goonto-cache/x.png".to_string());
    assert_eq!(p.take(), "./goonto-cache/x.png");
    assert_eq!(p.len(), 0);
    assert_eq!(p.take(), "");
}

#[test]
fn pool_stocked_above_limit() {
    let mut p = ImagePool::new();
    for i in 0..25 {
        p.add(format!("{i}"));
    }
    assert!(!p.is_stocked());
    p.add("26".to_string());
    assert!(p.is_stocked());
}

#[test]
fn e621_queries_and_urls() {
    let mut c = Config::default();
    c.image_source.web.tags = strings(&["fox"]);
    let e = E621::new(&c);
    assert!(!e.full_res);
    assert_eq!(
        e.next_query(),
        "https://e621.net/posts.json?limit=25&tags=-animated order:random rating:explicit score:>200 fox"
    );
    let posts = vec![
        E6Post { file_url: Some("f1".into()), sample_url: Some("s1".into()) },
        E6Post { file_url: None, sample_url: Some("s2".into()) },
        E6Post { file_url: Some("f3".into()), sample_url: None },
    ];
    assert_eq!(e.image_urls(&posts), strings(&["s1", "s2"]));
    c.image_source.web.image_res = ImageRes::Full;
    let full = E621::new(&c);
    assert!(full.full_res);
    assert_eq!(full.image_urls(&posts), strings(&["f1", "f3"]));
}

#[test]
fn e621_query_without_tags() {
    let e = E621::new(&Config::default());
    assert_eq!(
        e.next_query(),
        "https://e621.net/posts.json?limit=25&tags=-animated order:random rating:explicit score:>200 "
    );
}

#[test]
fn rule34_query() {
    let mut c = Config::default();
    c.image_source.web.tags = strings(&["cat"]);
    let r = Rule34::new(&c);
    assert_eq!(
        r.next_query(),
        "https://api.rule34.xxx/index.php?page=dapi&s=post&q=index&limit=10&tags=cat"
    );
}

#[test]
fn downloads_go_to_cache() {
    assert_eq!(
        cache_path("https://static1.e621.net/data/ab/cd/abcd.png").as_deref(),
        Some("./goonto-cache/abcd.png")
    );
    assert_eq!(cache_path("no-slash"), None);
}

#[test]
fn web_sources_consume_images() {
    let mut e = E621::new(&Config::default());
    e.images.add("one".to_string());
    e.images.add("two".to_string());
    let a = e.image();
    let b = e.image();
    assert_ne!(a, b);
    assert_eq!(e.image(), "");
}

#[test]
fn local_source_keeps_images() {
    let mut l = local_with(&["a.png"]);
    assert_eq!(l.image(), "a.png");
    assert_eq!(l.image(), "a.png");
    assert!(local_urls().contains(&l.url()));
    assert!(local_babble().contains(&l.first_person()));
    assert!(local_prompts().contains(&l.third_person()));
}

#[test]
fn local_accepts_image_files_only() {
    assert!(allowed_extension("x.JPG"));
    assert!(allowed_extension("x.jpeg"));
    assert!(allowed_extension("x.Png"));
    assert!(allowed_extension("x.bmp"));
    assert!(allowed_extension("x.gif"));
    assert!(!allowed_extension("x.txt"));
    assert!(!allowed_extension(".png"));
    assert!(!allowed_extension("png"));
    assert!(Local::accepts("a.gif", true));
    assert!(!Local::accepts("a.gif", false));
}

fn popups(max: u64, closable: bool, chance: u16, mitosis_max: u64) -> Popups {
    let mut p = Popups::default();
    p.max = max;
    p.closable = closable;
    p.mitosis = Mitosis { chance, max: mitosis_max };
    p
}

#[test]
fn popup_limit_leaves_source_alone() {
    let p = popups(2, true, 30, 5);
    let mut e = E621::new(&Config::default());
    e.images.add("img".to_string());
    let c = PopupCounter { open: 2 };
    assert!(p.new_popup(&c, &mut e).is_none());
    assert_eq!(e.images.len(), 1);
}

#[test]
fn popup_without_image_is_skipped() {
    let p = Popups::default();
    let mut e = E621::new(&Config::default());
    assert!(p.new_popup(&PopupCounter::new(), &mut e).is_none());
}

#[test]
fn popup_planned_with_opacity_in_range() {
    let mut p = Popups::default();
    p.opacity = Opacity { from: 40, to: 45 };
    let mut l = local_with(&["a.png"]);
    for _ in 0..30 {
        let plan = p.new_popup(&PopupCounter { open: 1000 }, &mut l).unwrap();
        assert_eq!(plan.image, "a.png");
        assert!((40..=45).contains(&p.opacity_percent()));
    }
    assert_eq!(p.run().every_ms, 2_000);
    assert!(p.run().repeats);
}

#[test]
fn popup_counter_saturates() {
    let mut c = PopupCounter::new();
    c.closed();
    assert_eq!(c.open, 0);
    c.opened();
    c.opened();
    c.closed();
    assert_eq!(c.open, 1);
}

#[test]
fn popup_click_outcomes() {
    let mut c = PopupCounter { open: 3 };
    assert_eq!(popups(0, false, 100, 5).on_click(&mut c), ClickOutcome::Spawn(0));
    assert_eq!(c.open, 3);
    assert_eq!(popups(0, true, 0, 0).on_click(&mut c), ClickOutcome::Spawn(0));
    assert_eq!(c.open, 2);
    for _ in 0..20 {
        let mut c = PopupCounter { open: 1 };
        match popups(0, true, 100, 5).on_click(&mut c) {
            ClickOutcome::Spawn(n) => assert!(n < 5),
            ClickOutcome::EmptyRange => panic!("range is not empty"),
        }
        assert_eq!(c.open, 0);
    }
}

#[test]
fn popup_geometry() {
    assert_eq!(Popups::popup_origin(500, 400, 301, 200), (350, 300));
    for _ in 0..20 {
        let (x, y) = Popups::window_position(100, -50, 10, 20);
        assert!((100..110).contains(&x) && (-50..-30).contains(&y));
        assert!((0..3).contains(&Popups::random_display(3)));
    }
}

#[test]
fn subliminal_monitors() {
    let mut s = Subliminal::default();
    assert_eq!(s.get_monitors(1), vec![0, 1]);
    assert_eq!(s.get_monitors(3), vec![0, 1]);
    s.monitors = Monitors::All;
    assert_eq!(s.get_monitors(3), vec![0, 1, 2]);
    assert_eq!(s.get_monitors(1), vec![0, 1]);
    s.monitors = Monitors::ExceptPrimary;
    assert_eq!(s.get_monitors(3), vec![1, 2]);
    s.monitors = Monitors::These(vec![4, 2]);
    assert_eq!(s.get_monitors(3), vec![4, 2]);
    assert!(!s.run().repeats);
    assert_eq!(s.run().every_ms, 10_000);
}

#[test]
fn subliminal_band_and_alpha() {
    assert_eq!(Subliminal::band(0, 0, 1920, 1080), (0, 360, 1920, 360));
    assert_eq!(Subliminal::band(1920, 100, 800, 601), (1920, 300, 800, 200));
    assert_eq!(Subliminal::cardinal_alpha(35), 0);
    assert_eq!(Subliminal::cardinal_alpha(100), u32::MAX);
    let s = Subliminal::default();
    for _ in 0..20 {
        assert!((20..=50).contains(&s.opacity_percent()));
    }
}

#[test]
fn repeat_dialog_answers() {
    let d = RepeatDialog::default();
    assert_eq!(RepeatDialog::question("hi"), "\nhi\n");
    assert_eq!(d.answer("Say it", Some("  Say it\n".into())).unwrap(), "Good gooner, keep sinking deeper.");
    assert_eq!(
        d.answer("Say it", Some("say it".into())).unwrap(),
        "Bad gooner, you're gonna have to make up for it twice."
    );
    let soft = RepeatDialog { enabled: true, rate: 1, punish: false };
    assert_eq!(
        soft.answer("Say it", Some("no".into())).unwrap(),
        "That's not what I asked, try harder next time."
    );
    assert_eq!(d.answer("Say it", None), None);
    assert_eq!(d.run().every_ms, 15_000);
}

#[test]
fn discord_activity() {
    let mut d = Discord::default();
    let a: Activity = d.activity("hello".into(), 42);
    assert_eq!(a.state, "hello");
    assert_eq!(a.details, "Stroking their brains out~");
    assert_eq!(a.start, 42);
    assert_eq!(a.large_image, "icon");
    assert_eq!(a.button, Some(("Join me~".to_string(), "https://horse.wang/".to_string())));
    d.status = String::new();
    d.shill = false;
    let a = d.activity("x".into(), 1);
    assert_eq!(a.details, "Stroking their brains out~");
    assert_eq!(a.button, None);
    d.status = "custom".into();
    let l = local_with(&[]);
    let a = d.run(&l, 7);
    assert_eq!(a.details, "custom");
    assert!(local_babble().contains(&a.state));
}

#[test]
fn wallpaper_start_and_exit() {
    let mut w = Wallpaper::default();
    assert!(w.run(Err(())).is_none());
    let s = w.run(Ok(Some(("C:/old.jpg".to_string(), 3)))).unwrap();
    assert_eq!(s.every_ms, 10_000);
    assert_eq!(w.old_wallpaper, "C:/old.jpg");
    assert_eq!(w.exit_hook(), Some(("C:/old.jpg".to_string(), 3)));
    w.enabled = true;
    assert_eq!(w.exit_hook(), None);
    assert!(w.run(Ok(None)).is_some());
    let mut l = local_with(&[]);
    assert_eq!(w.next_wallpaper(&mut l), None);
    let mut l = local_with(&["w.png"]);
    assert_eq!(w.next_wallpaper(&mut l).as_deref(), Some("w.png"));
}

#[test]
fn plain_schedules() {
    let c = Clipboard::default();
    assert_eq!((c.run().every_ms, c.run().repeats), (10_000, true));
    let w = Web::default();
    assert!(!w.enabled);
    assert_eq!(w.run().every_ms, 10_000);
}

#[test]
fn local_add_keeps_only_image_files() {
    let mut l = Local::new(&Config::default());
    assert!(l.add("/pics/a.PNG".to_string(), "a.PNG", true));
    assert!(!l.add("/pics/b.png".to_string(), "b.png", false));
    assert!(!l.add("/pics/notes.txt".to_string(), "notes.txt", true));
    assert!(!l.add("/pics.png/readme".to_string(), "readme", true));
    assert!(!l.add("/pics/.gif".to_string(), ".gif", true));
    assert!(!l.add("C:\\pics\\.png".to_string(), ".png", true));
    assert!(l.add("c.jpeg".to_string(), "c.jpeg", true));
    assert_eq!(l.images, strings(&["/pics/a.PNG", "c.jpeg"]));
}

#[test]
fn e621_round_waits_while_stocked() {
    let mut e = E621::new(&Config::default());
    assert!(e.begin_round().is_some());
    for i in 0..26 {
        e.images.add(format!("{i}"));
    }
    assert!(e.begin_round().is_none());
    e.image();
    assert!(e.begin_round().is_some());
}

#[test]
fn drawn_values_arithmetic() {
    let o = Opacity { from: 70, to: 100 };
    assert_eq!(o.at(0), 70);
    assert_eq!(o.at(30), 100);
    let b = BandOpacity { from: 20, to: 50 };
    assert_eq!(b.at(5), 25);
    let m = Mitosis { chance: 30, max: 5 };
    assert_eq!(m.spawned(29, 4), 4);
    assert_eq!(m.spawned(30, 4), 0);
    assert!(m.splits(0) && !m.splits(99));
    assert_eq!(Popups::point_at(-10, 5, 3, 7), (-7, 12));
}

#[test]
fn rust_division_toward_zero() {
    assert_eq!(Popups::popup_origin(0, 0, -5, -3), (2, 1));
    assert_eq!(Subliminal::band(0, 0, 10, -7), (0, -2, 10, -2));
}

#[test]
fn capped_popup_needs_no_valid_opacity() {
    let mut p = popups(1, true, 30, 5);
    p.opacity = Opacity { from: 90, to: 10 };
    let mut l = local_with(&["a.png"]);
    assert!(p.new_popup(&PopupCounter { open: 1 }, &mut l).is_none());
}

#[test]
fn popup_with_empty_source_needs_no_valid_opacity() {
    let mut p = popups(0, true, 30, 5);
    p.opacity = Opacity { from: 90, to: 10 };
    let mut e = E621::new(&Config::default());
    assert!(p.new_popup(&PopupCounter::new(), &mut e).is_none());
}

#[test]
fn popup_click_with_empty_spawn_range() {
    let mut c = PopupCounter { open: 2 };
    assert_eq!(popups(0, true, 100, 0).on_click(&mut c), ClickOutcome::EmptyRange);
    assert_eq!(c.open, 1);
}

#[test]
fn popup_close_timer() {
    let mut p = Popups::default();
    assert!(p.close_timer().is_none());
    p.closes_after = 1500;
    let t = p.close_timer().unwrap();
    assert_eq!((t.every_ms, t.repeats), (1500, false));
}
