//! Images from rule34.xxx, downloaded in the background into a pool.
use vstd::prelude::*;
use vstd::string::*;
use crate::config::Config;
use super::{
    Source, ImagePool, views, picked_from, lines_or, random_from, get_babble, copy_lines,
};
use super::lines::{default_first_person, default_third_person, local_urls};

verus! {

/// The query that asks rule34.xxx for 10 posts tagged `tag`.
pub open spec fn rule34_query(tag: Seq<char>) -> Seq<char> {
    "https://api.rule34.xxx/index.php?page=dapi&s=post&q=index&limit=10&tags="@ + tag
}

/// Images from rule34.xxx.
pub struct Rule34 {
    /// Downloaded images not shown yet.
    pub images: ImagePool,
    pub first_person: Vec<String>,
    pub third_person: Vec<String>,
    /// The tags searched for, one at random per query.
    pub tags: Vec<String>,
}

impl Rule34 {
    /// The source for `cfg`: no image yet, the configured (or built-in)
    /// lines and the configured tags.
    pub fn new(cfg: &Config) -> (r: Self)
        ensures
            r.images@ == Seq::<Seq<char>>::empty(),
            views(r.first_person@) == lines_or(
                views(cfg.babble.first_person@),
                default_first_person(),
            ),
            views(r.third_person@) == lines_or(
                views(cfg.babble.third_person@),
                default_third_person(),
            ),
            views(r.tags@) == views(cfg.image_source.web.tags@),
    {
        let (first, third) = get_babble(cfg);
        Rule34 {
            images: ImagePool::new(),
            first_person: first,
            third_person: third,
            tags: copy_lines(&cfg.image_source.web.tags),
        }
    }

    /// The query for posts tagged `tag`.
    pub fn query_for(&self, tag: &str) -> (r: String)
        ensures
            r@ == rule34_query(tag@),
    {
        let mut r = String::from_str(
            "https://api.rule34.xxx/index.php?page=dapi&s=post&q=index&limit=10&tags=",
        );
        r.append(tag);
        r
    }

    /// The next query: one for a random configured tag (or the empty tag
    /// when none is configured).
    pub fn next_query(&self) -> (r: String)
        ensures
            exists|tag: Seq<char>| picked_from(views(self.tags@), tag) && r@ == rule34_query(tag),
    {
        let tag = random_from(&self.tags);
        self.query_for(tag.as_str())
    }
}

impl Source for Rule34 {
    open spec fn first_person_lines(&self) -> Seq<Seq<char>> {
        views(self.first_person@)
    }

    open spec fn third_person_lines(&self) -> Seq<Seq<char>> {
        views(self.third_person@)
    }

    open spec fn image_pool(&self) -> Seq<Seq<char>> {
        self.images@
    }

    open spec fn consumes_images(&self) -> bool {
        true
    }

    fn first_person(&self) -> (r: String) {
        random_from(&self.first_person)
    }

    fn third_person(&self) -> (r: String) {
        random_from(&self.third_person)
    }

    fn url(&self) -> (r: String) {
        let urls = local_urls();
        random_from(&urls)
    }

    fn image(&mut self) -> (r: String) {
        let r = self.images.take();
        proof {
            if old(self).images@.len() > 0 {
                let i = choose|i: int|
                    0 <= i < old(self).images@.len() && r@ == old(self).images@[i]
                        && self.images@ == old(self).images@.remove(i);
                vstd::seq_lib::to_multiset_remove(old(self).images@, i);
            }
        }
        r
    }
}

} // verus!
