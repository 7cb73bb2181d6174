//! Image sources: where images, lines of text and pages come from.
pub mod e621;
pub mod lines;
pub mod local;
pub mod pool;
pub mod rule34;

pub use e621::E621;
pub use lines::{local_babble, local_prompts, local_urls};
pub use local::Local;
pub use pool::ImagePool;
pub use rule34::Rule34;

use vstd::prelude::*;
use vstd::string::*;
use crate::config::Config;
use crate::random::random_below;
use lines::{default_first_person, default_third_person, site_urls};
use crate::text::{after_last, split_after_last};

verus! {

/// The text of each string in `v`.
pub open spec fn views(v: Seq<String>) -> Seq<Seq<char>> {
    v.map_values(|s: String| s@)
}

/// `s` is what a random pick from `lines` may give: one of the lines, or the
/// empty string when there are none.
pub open spec fn picked_from(lines: Seq<Seq<char>>, s: Seq<char>) -> bool {
    if lines.len() == 0 {
        s.len() == 0
    } else {
        lines.contains(s)
    }
}

/// What drawing an image does to a pool: `taken` is picked from `before`;
/// when the source `consumes` its images and had one, exactly that one copy
/// leaves the pool, otherwise the pool is unchanged.
pub open spec fn drawn(
    before: Seq<Seq<char>>,
    after: Seq<Seq<char>>,
    taken: Seq<char>,
    consumes: bool,
) -> bool {
    &&& picked_from(before, taken)
    &&& if consumes && before.len() > 0 {
        after.to_multiset() == before.to_multiset().remove(taken)
    } else {
        after == before
    }
}

/// A source of images, lines of text and pages for the effects.
pub trait Source {
    /// The lines `first_person` picks from.
    spec fn first_person_lines(&self) -> Seq<Seq<char>>;

    /// The lines `third_person` picks from.
    spec fn third_person_lines(&self) -> Seq<Seq<char>>;

    /// The images `image` picks from.
    spec fn image_pool(&self) -> Seq<Seq<char>>;

    /// Whether `image` takes the image it gives out of the pool.
    spec fn consumes_images(&self) -> bool;

    /// A random line said as the user.
    fn first_person(&self) -> (r: String)
        ensures
            picked_from(self.first_person_lines(), r@),
    ;

    /// A random line said to the user.
    fn third_person(&self) -> (r: String)
        ensures
            picked_from(self.third_person_lines(), r@),
    ;

    /// A random page to open.
    fn url(&self) -> (r: String)
        ensures
            picked_from(site_urls(), r@),
    ;

    /// A random image path, or the empty string when there is none yet.
    fn image(&mut self) -> (r: String)
        ensures
            drawn(old(self).image_pool(), final(self).image_pool(), r@, old(self).consumes_images()),
            final(self).first_person_lines() == old(self).first_person_lines(),
            final(self).third_person_lines() == old(self).third_person_lines(),
            final(self).consumes_images() == old(self).consumes_images(),
    ;
}

/// The entry at `index` of `from` (the outcome of a random pick).
pub fn pick(from: &Vec<String>, index: usize) -> (r: String)
    requires
        index < from.len(),
    ensures
        r@ == from@[index as int]@,
{
    from[index].clone()
}

/// A random entry of `from`, or the empty string when `from` is empty.
pub fn random_from(from: &Vec<String>) -> (r: String)
    ensures
        picked_from(views(from@), r@),
{
    if from.len() == 0 {
        String::new()
    } else {
        let index = random_below(from.len() as u64) as usize;
        let r = pick(from, index);
        assert(views(from@)[index as int] == r@);
        r
    }
}

/// Takes the entry at `index` out of `from` (the outcome of a random pick)
/// and returns it; the others keep their order.
pub fn take_at(from: &mut Vec<String>, index: usize) -> (r: String)
    requires
        index < old(from).len(),
    ensures
        r@ == old(from)@[index as int]@,
        views(final(from)@) == views(old(from)@).remove(index as int),
{
    let r = from.remove(index);
    assert(views(from@) =~= views(old(from)@).remove(index as int));
    r
}

/// Takes a random entry out of `from` and returns it, or returns the empty
/// string when `from` is empty.
pub fn take_random(from: &mut Vec<String>) -> (r: String)
    ensures
        picked_from(views(old(from)@), r@),
        old(from).len() == 0 ==> final(from)@ == old(from)@,
        old(from).len() > 0 ==> exists|i: int|
            0 <= i < old(from).len() && r@ == old(from)@[i]@ && views(final(from)@) == views(
                old(from)@,
            ).remove(i),
{
    if from.len() == 0 {
        String::new()
    } else {
        let index = random_below(from.len() as u64) as usize;
        let r = take_at(from, index);
        assert(views(old(from)@)[index as int] == r@);
        r
    }
}

/// The lines a source uses: the configured ones, or the built-in ones when
/// none are configured.
pub open spec fn lines_or(configured: Seq<Seq<char>>, built_in: Seq<Seq<char>>) -> Seq<Seq<char>> {
    if configured.len() == 0 {
        built_in
    } else {
        configured
    }
}

/// A copy of `v`.
pub fn copy_lines(v: &Vec<String>) -> (r: Vec<String>)
    ensures
        views(r@) == views(v@),
{
    let mut r: Vec<String> = Vec::new();
    let mut i: usize = 0;
    while i < v.len()
        invariant
            i <= v.len(),
            views(r@) == views(v@).take(i as int),
        decreases v.len() - i,
    {
        let line = v[i].clone();
        let ghost prev = r@;
        r.push(line);
        assert(views(r@) =~= views(prev).push(v@[i as int]@));
        assert(views(v@).take(i + 1) =~= views(v@).take(i as int).push(v@[i as int]@));
        i = i + 1;
    }
    assert(views(v@).take(v.len() as int) =~= views(v@));
    r
}

/// The first- and third-person lines for a source built from `cfg`.
pub fn get_babble(cfg: &Config) -> (r: (Vec<String>, Vec<String>))
    ensures
        views(r.0@) == lines_or(views(cfg.babble.first_person@), default_first_person()),
        views(r.1@) == lines_or(views(cfg.babble.third_person@), default_third_person()),
{
    let first = if cfg.babble.first_person.len() == 0 {
        local_babble()
    } else {
        copy_lines(&cfg.babble.first_person)
    };
    let third = if cfg.babble.third_person.len() == 0 {
        local_prompts()
    } else {
        copy_lines(&cfg.babble.third_person)
    };
    (first, third)
}

/// Where a downloaded image is stored: in `./goonto-cache/`, under the part
/// of its address after the last `/`; an address without `/` has no place.
pub open spec fn cache_path_of(url: Seq<char>) -> Option<Seq<char>> {
    match after_last(url, '/') {
        Some(name) => Some("./goonto-cache/"@ + name),
        None => None,
    }
}

/// Where the image downloaded from `url` is stored.
pub fn cache_path(url: &str) -> (r: Option<String>)
    ensures
        r matches Some(p) ==> cache_path_of(url@) == Some(p@),
        r is None ==> cache_path_of(url@) is None,
{
    match split_after_last(url, '/') {
        Some(name) => {
            let mut p = String::from_str("./goonto-cache/");
            p.append(name.as_str());
            Some(p)
        },
        None => None,
    }
}

} // verus!
