//! Properties of the library that span several operations.
use vstd::prelude::*;
use crate::features::Popups;
use crate::features::popups::PopupPlan;
use crate::features::discord::{Discord, Activity};
use crate::config::Effects;
use crate::startup::{Effect, enabled_list};
use crate::sources::{Source, Rule34, E621, drawn};
use crate::sources::local::is_image_name;
use crate::text::{extension, same_ignoring_ascii_case};
use crate::features::subliminal::{Monitors, monitor_list, numbers};
use crate::sources::pool::{took, STOCK_LIMIT};
use crate::sources::e621::{E6Post, post_urls, lemma_post_urls_len, PAGE_SIZE};
use crate::text::{
    trimmed, trim_start, all_white_space, replaced, lemma_trim_start_skips,
    lemma_trim_end_skips, lemma_trim_start_append, lemma_trim_start_all_white,
    lemma_replaced_absent, occurs_at,
};

verus! {

/// An image added to an empty pool is the one taken next, and the pool is
/// empty afterwards.
pub proof fn law_single_image_is_taken(path: Seq<char>, after: Seq<Seq<char>>, taken: Seq<char>)
    requires
        took(seq![path], after, taken),
    ensures
        taken == path,
        after.len() == 0,
{
}

/// Taking from a pool that holds images gives one of them and removes that
/// one copy, leaving every other image in place.
pub proof fn law_taking_removes_the_image(
    before: Seq<Seq<char>>,
    after: Seq<Seq<char>>,
    taken: Seq<char>,
)
    requires
        before.len() > 0,
        took(before, after, taken),
    ensures
        before.to_multiset().count(taken) > 0,
        after.to_multiset() == before.to_multiset().remove(taken),
        after.len() + 1 == before.len(),
{
    let i = choose|i: int| 0 <= i < before.len() && taken == before[i] && after == before.remove(i);
    vstd::seq_lib::to_multiset_remove(before, i);
    vstd::seq_lib::to_multiset_contains(before, taken);
    assert(before.contains(taken));
}

/// With a limit on popups, the number open never passes it: opening one is
/// only planned below the limit, and closing one only lowers the count.
pub proof fn law_popup_count_stays_within_limit(cfg: Popups, open: u64)
    requires
        cfg.max != 0,
        open <= cfg.max,
    ensures
        !cfg.at_limit(open) ==> open + 1 <= cfg.max,
        (if open == 0 {
            0
        } else {
            open - 1
        }) <= cfg.max,
{
}

/// An answer that is the asked line with white space around it counts as
/// the line itself.
pub proof fn law_padded_answer_matches(prompt: Seq<char>, lead: Seq<char>, trail: Seq<char>)
    requires
        all_white_space(lead),
        all_white_space(trail),
    ensures
        trimmed(lead + prompt + trail) == trimmed(prompt),
{
    assert(lead + prompt + trail =~= lead + (prompt + trail));
    lemma_trim_start_skips(lead, prompt + trail);
    lemma_trim_start_append(prompt, trail);
    if trim_start(prompt).len() > 0 {
        lemma_trim_end_skips(trim_start(prompt), trail);
    } else {
        lemma_trim_start_all_white(trail);
    }
}

/// A template without the placeholder is left as it is.
pub proof fn law_template_without_placeholder_unchanged(
    template: Seq<char>,
    placeholder: Seq<char>,
    value: Seq<char>,
)
    requires
        placeholder.len() > 0,
        forall|i: int| !#[trigger] occurs_at(template, placeholder, i),
    ensures
        replaced(template, placeholder, value) == template,
{
    lemma_replaced_absent(template, placeholder, value);
}

/// With several screens, `All` covers every screen in order and
/// `ExceptPrimary` every screen but the first.
pub proof fn law_monitor_choice(screen_count: i32)
    requires
        screen_count > 1,
    ensures
        monitor_list(Monitors::All, screen_count) =~= Seq::new(
            screen_count as nat,
            |i: int| i as i32,
        ),
        !monitor_list(Monitors::ExceptPrimary, screen_count).contains(0),
        monitor_list(Monitors::ExceptPrimary, screen_count).len() + 1 == screen_count,
{
    let except = monitor_list(Monitors::ExceptPrimary, screen_count);
    assert forall|i: int| 0 <= i < except.len() implies except[i] != 0 by {
        assert(except[i] == (1 + i) as i32);
    }
}

/// The e621 pool never holds more than twice `STOCK_LIMIT` (50) images: a
/// download round only starts while at most `STOCK_LIMIT` wait
/// (`E621::begin_round`), a page holds at most `PAGE_SIZE` posts and a round
/// adds at most one image per post (`E621::image_urls`); showing images only
/// lowers the count. `start` is the pool when the round was considered and
/// `added` the images the round has added so far.
pub proof fn law_e621_pool_stays_within_fifty(
    start: Seq<Seq<char>>,
    posts: Seq<E6Post>,
    full_res: bool,
    added: nat,
)
    requires
        start.len() <= 2 * STOCK_LIMIT,
        posts.len() <= PAGE_SIZE,
        start.len() > STOCK_LIMIT ==> added == 0,
        added <= post_urls(posts, full_res).len(),
    ensures
        start.len() + added <= 2 * STOCK_LIMIT,
{
    lemma_post_urls_len(posts, full_res);
}

/// The position of an effect in the start-up order: popups, notifications,
/// typing, clipboard, Discord, wallpaper.
pub open spec fn start_rank(e: Effect) -> int {
    match e {
        Effect::Popups => 0,
        Effect::Notifs => 1,
        Effect::Typing => 2,
        Effect::Clipboard => 3,
        Effect::Discord => 4,
        Effect::Wallpaper => 5,
    }
}

/// The started effects are exactly the enabled ones: each effect is started
/// if and only if its `enabled` flag is set, and they start in the order
/// popups, notifications, typing, clipboard, Discord, wallpaper (each once).
pub proof fn law_started_effects_are_the_enabled_ones(effects: Effects)
    ensures
        enabled_list(effects).contains(Effect::Popups) == effects.popups.enabled,
        enabled_list(effects).contains(Effect::Notifs) == effects.notifs.enabled,
        enabled_list(effects).contains(Effect::Typing) == effects.typing.enabled,
        enabled_list(effects).contains(Effect::Clipboard) == effects.clipboard.enabled,
        enabled_list(effects).contains(Effect::Discord) == effects.discord.enabled,
        enabled_list(effects).contains(Effect::Wallpaper) == effects.wallpaper.enabled,
        forall|i: int, j: int|
            0 <= i < j < enabled_list(effects).len() ==> start_rank(
                #[trigger] enabled_list(effects)[i],
            ) < start_rank(#[trigger] enabled_list(effects)[j]),
{
    let a = if effects.popups.enabled { seq![Effect::Popups] } else { Seq::empty() };
    let b = if effects.notifs.enabled { seq![Effect::Notifs] } else { Seq::empty() };
    let c = if effects.typing.enabled { seq![Effect::Typing] } else { Seq::empty() };
    let d = if effects.clipboard.enabled { seq![Effect::Clipboard] } else { Seq::empty() };
    let e = if effects.discord.enabled { seq![Effect::Discord] } else { Seq::empty() };
    let f = if effects.wallpaper.enabled { seq![Effect::Wallpaper] } else { Seq::empty() };
    lemma_start_step(Seq::empty(), effects.popups.enabled, Effect::Popups);
    lemma_start_step(a, effects.notifs.enabled, Effect::Notifs);
    lemma_start_step(a + b, effects.typing.enabled, Effect::Typing);
    lemma_start_step(a + b + c, effects.clipboard.enabled, Effect::Clipboard);
    lemma_start_step(a + b + c + d, effects.discord.enabled, Effect::Discord);
    lemma_start_step(a + b + c + d + e, effects.wallpaper.enabled, Effect::Wallpaper);
    assert(Seq::<Effect>::empty() + a =~= a);
}

/// Effects listed in strictly increasing start order.
pub open spec fn in_start_order(s: Seq<Effect>) -> bool {
    forall|i: int, j: int| 0 <= i < j < s.len() ==> start_rank(#[trigger] s[i]) < start_rank(#[trigger] s[j])
}

/// Appending an effect, when its flag is set, to a list of effects that all
/// start before it keeps the list in order; the effect is then in the list
/// exactly when its flag is set, and the effects already there stay.
proof fn lemma_start_step(s: Seq<Effect>, flag: bool, y: Effect)
    requires
        in_start_order(s),
        forall|i: int| 0 <= i < s.len() ==> start_rank(#[trigger] s[i]) < start_rank(y),
    ensures
        ({
            let t = s + (if flag { seq![y] } else { Seq::empty() });
            &&& in_start_order(t)
            &&& forall|i: int| 0 <= i < t.len() ==> start_rank(#[trigger] t[i]) <= start_rank(y)
            &&& t.contains(y) == flag
            &&& forall|x: Effect| start_rank(x) != start_rank(y) ==> (t.contains(x) == s.contains(x))
        }),
{
    let t = s + (if flag { seq![y] } else { Seq::empty() });
    if flag {
        assert(t[s.len() as int] == y);
        assert forall|x: Effect| start_rank(x) != start_rank(y) implies (t.contains(x) == s.contains(x)) by {
            if t.contains(x) {
                let k = choose|k: int| 0 <= k < t.len() && t[k] == x;
                assert(s[k] == x);
            }
            if s.contains(x) {
                let k = choose|k: int| 0 <= k < s.len() && s[k] == x;
                assert(t[k] == x);
            }
        }
    } else {
        assert(t =~= s);
        if s.contains(y) {
            let k = choose|k: int| 0 <= k < s.len() && s[k] == y;
            assert(start_rank(s[k]) < start_rank(y));
        }
    }
}

/// A booru source shows each downloaded image once: whatever `image` hands
/// out from a non-empty pool is one of its images, and the pool afterwards
/// holds one image fewer, that copy removed.
pub proof fn law_rule34_uses_up_what_it_shows(before: Rule34, after: Rule34, taken: Seq<char>)
    requires
        before.image_pool().len() > 0,
        drawn(before.image_pool(), after.image_pool(), taken, before.consumes_images()),
    ensures
        before.image_pool().contains(taken),
        after.image_pool().len() + 1 == before.image_pool().len(),
        after.image_pool().to_multiset() == before.image_pool().to_multiset().remove(taken),
{
    vstd::seq_lib::to_multiset_contains(before.image_pool(), taken);
    vstd::seq_lib::to_multiset_len(before.image_pool());
    vstd::seq_lib::to_multiset_len(after.image_pool());
}

/// The e621 source likewise shows each downloaded image once.
pub proof fn law_e621_uses_up_what_it_shows(before: E621, after: E621, taken: Seq<char>)
    requires
        before.image_pool().len() > 0,
        drawn(before.image_pool(), after.image_pool(), taken, before.consumes_images()),
    ensures
        before.image_pool().contains(taken),
        after.image_pool().len() + 1 == before.image_pool().len(),
        after.image_pool().to_multiset() == before.image_pool().to_multiset().remove(taken),
{
    vstd::seq_lib::to_multiset_contains(before.image_pool(), taken);
    vstd::seq_lib::to_multiset_len(before.image_pool());
    vstd::seq_lib::to_multiset_len(after.image_pool());
}

/// Below the limit a popup is never refused: with no limit, or fewer popups
/// open than the limit, any result that `new_popup` may give for a source
/// whose pool holds images (none of them the empty path) plans a popup.
pub proof fn law_popup_opens_below_limit(
    cfg: Popups,
    open: u64,
    before: Seq<Seq<char>>,
    after: Seq<Seq<char>>,
    consumes: bool,
    r: Option<PopupPlan>,
)
    requires
        cfg.max == 0 || open < cfg.max,
        before.len() > 0,
        forall|i: int| 0 <= i < before.len() ==> (#[trigger] before[i]).len() > 0,
        cfg.at_limit(open) ==> r is None && after == before,
        !cfg.at_limit(open) && r is None ==> drawn(before, after, Seq::empty(), consumes),
    ensures
        r is Some,
{
    if r is None {
        assert(!cfg.at_limit(open));
        assert(before.contains(Seq::<char>::empty()));
        let i = choose|i: int| 0 <= i < before.len() && before[i] == Seq::<char>::empty();
        assert(before[i].len() > 0);
    }
}

/// At the limit a popup is always refused.
pub proof fn law_popup_refused_at_limit(cfg: Popups, open: u64)
    requires
        cfg.max != 0,
        open >= cfg.max,
    ensures
        cfg.at_limit(open),
{
}

/// Only files whose extension is jpg, jpeg, png, bmp or gif, in any mix of
/// upper- and lower-case ASCII letters, are taken as images; every such file
/// is taken.
pub proof fn law_only_image_extensions_are_shown(name: Seq<char>)
    ensures
        is_image_name(name) <==> (extension(name) matches Some(e) && (same_ignoring_ascii_case(
            e,
            seq!['j', 'p', 'g'],
        ) || same_ignoring_ascii_case(e, seq!['j', 'p', 'e', 'g']) || same_ignoring_ascii_case(
            e,
            seq!['p', 'n', 'g'],
        ) || same_ignoring_ascii_case(e, seq!['b', 'm', 'p']) || same_ignoring_ascii_case(
            e,
            seq!['g', 'i', 'f'],
        ))),
{
    reveal_strlit("jpg");
    reveal_strlit("jpeg");
    reveal_strlit("png");
    reveal_strlit("bmp");
    reveal_strlit("gif");
    assert("jpg"@ =~= seq!['j', 'p', 'g']);
    assert("jpeg"@ =~= seq!['j', 'p', 'e', 'g']);
    assert("png"@ =~= seq!['p', 'n', 'g']);
    assert("bmp"@ =~= seq!['b', 'm', 'p']);
    assert("gif"@ =~= seq!['g', 'i', 'f']);
}

/// The Discord activity shows the configured status as its details whenever
/// it is not empty, whether or not the button is shown, and the default
/// status ("Stroking their brains out~") when it is empty.
pub proof fn law_discord_details_follow_status(d: Discord, text: Seq<char>, now: i64, a: Activity)
    requires
        d.activity_for(text, now, a),
    ensures
        d.status@.len() > 0 ==> a.details@ == d.status@,
        d.status@.len() == 0 ==> a.details@ == seq![
            'S', 't', 'r', 'o', 'k', 'i', 'n', 'g', ' ', 't', 'h', 'e', 'i', 'r', ' ', 'b', 'r',
            'a', 'i', 'n', 's', ' ', 'o', 'u', 't', '~',
        ],
        a.state@ == text,
        a.start == now,
{
    reveal_strlit("Stroking their brains out~");
}

} // verus!
