//! Images from e621.net, downloaded in the background into a pool.
use vstd::prelude::*;
use vstd::string::*;
use crate::config::{Config, ImageRes};
use super::{
    Source, ImagePool, views, picked_from, lines_or, random_from, get_babble, copy_lines,
};
use super::pool::STOCK_LIMIT;
use super::lines::{default_first_person, default_third_person, local_urls};

verus! {

/// The part of an e621 post that the source reads: the addresses of the
/// full-size file and of the sample, either of which may be missing.
#[derive(Debug)]
pub struct E6Post {
    pub file_url: Option<String>,
    pub sample_url: Option<String>,
}

/// The address that a post contributes: the file's at full resolution, the
/// sample's otherwise.
pub open spec fn post_url(post: E6Post, full_res: bool) -> Option<Seq<char>> {
    let chosen = if full_res {
        post.file_url
    } else {
        post.sample_url
    };
    match chosen {
        Some(u) => Some(u@),
        None => None,
    }
}

/// The addresses that `posts` contribute, in order, skipping the posts that
/// lack the wanted one.
pub open spec fn post_urls(posts: Seq<E6Post>, full_res: bool) -> Seq<Seq<char>>
    decreases posts.len(),
{
    if posts.len() == 0 {
        Seq::empty()
    } else {
        let rest = post_urls(posts.drop_last(), full_res);
        match post_url(posts.last(), full_res) {
            Some(u) => rest.push(u),
            None => rest,
        }
    }
}

/// The most posts one query asks for (the `limit` of the query).
pub const PAGE_SIZE: usize = 25;

/// A page of posts contributes at most one address per post.
pub proof fn lemma_post_urls_len(posts: Seq<E6Post>, full_res: bool)
    ensures
        post_urls(posts, full_res).len() <= posts.len(),
    decreases posts.len(),
{
    if posts.len() > 0 {
        lemma_post_urls_len(posts.drop_last(), full_res);
    }
}

/// The query that asks e621 for a page of posts: 25 random non-animated
/// posts matching `prefix` and `tag`.
pub open spec fn e621_query(prefix: Seq<char>, tag: Seq<char>) -> Seq<char> {
    "https://e621.net/posts.json?limit=25&tags=-animated order:random "@ + prefix + " "@ + tag
}

/// Images from e621.net.
pub struct E621 {
    /// Downloaded images not shown yet.
    pub images: ImagePool,
    pub first_person: Vec<String>,
    pub third_person: Vec<String>,
    /// The tags searched for, one at random per query.
    pub tags: Vec<String>,
    /// Whether full-size files are downloaded rather than samples.
    pub full_res: bool,
    /// Tags added to every query.
    pub prefix: String,
}

impl E621 {
    /// The source for `cfg`: no image yet, the configured (or built-in)
    /// lines, and the configured tags, resolution and prefix.
    pub fn new(cfg: &Config) -> (r: Self)
        ensures
            r.images@ == Seq::<Seq<char>>::empty(),
            views(r.first_person@) == lines_or(
                views(cfg.babble.first_person@),
                default_first_person(),
            ),
            views(r.third_person@) == lines_or(
                views(cfg.babble.third_person@),
                default_third_person(),
            ),
            views(r.tags@) == views(cfg.image_source.web.tags@),
            r.full_res == (cfg.image_source.web.image_res == ImageRes::Full),
            r.prefix@ == cfg.image_source.web.tag_prefix@,
    {
        let (first, third) = get_babble(cfg);
        let full_res = match cfg.image_source.web.image_res {
            ImageRes::Full => true,
            ImageRes::Sample => false,
        };
        E621 {
            images: ImagePool::new(),
            first_person: first,
            third_person: third,
            tags: copy_lines(&cfg.image_source.web.tags),
            full_res,
            prefix: cfg.image_source.web.tag_prefix.clone(),
        }
    }

    /// The query for posts tagged `tag`.
    pub fn query_for(&self, tag: &str) -> (r: String)
        ensures
            r@ == e621_query(self.prefix@, tag@),
    {
        let mut r = String::from_str("https://e621.net/posts.json?limit=25&tags=-animated order:random ");
        r.append(self.prefix.as_str());
        r.append(" ");
        r.append(tag);
        r
    }

    /// The next query: one for a random configured tag (or the empty tag
    /// when none is configured).
    pub fn next_query(&self) -> (r: String)
        ensures
            exists|tag: Seq<char>|
                picked_from(views(self.tags@), tag) && r@ == e621_query(self.prefix@, tag),
    {
        let tag = random_from(&self.tags);
        self.query_for(tag.as_str())
    }

    /// The query that starts a download round, or none while the pool is
    /// stocked (more than `STOCK_LIMIT` images wait).
    pub fn begin_round(&self) -> (r: Option<String>)
        ensures
            r is None <==> self.images@.len() > STOCK_LIMIT,
            r matches Some(q) ==> exists|tag: Seq<char>|
                picked_from(views(self.tags@), tag) && q@ == e621_query(self.prefix@, tag),
    {
        if self.images.is_stocked() {
            None
        } else {
            Some(self.next_query())
        }
    }

    /// The addresses to download from a page of posts, at most one per post.
    pub fn image_urls(&self, posts: &Vec<E6Post>) -> (r: Vec<String>)
        ensures
            views(r@) == post_urls(posts@, self.full_res),
            r.len() <= posts.len(),
    {
        proof {
            lemma_post_urls_len(posts@, self.full_res);
        }
        let mut r: Vec<String> = Vec::new();
        let mut i: usize = 0;
        while i < posts.len()
            invariant
                i <= posts.len(),
                views(r@) == post_urls(posts@.take(i as int), self.full_res),
            decreases posts.len() - i,
        {
            let post = &posts[i];
            let chosen = if self.full_res {
                &post.file_url
            } else {
                &post.sample_url
            };
            proof {
                assert(posts@.take(i + 1).drop_last() =~= posts@.take(i as int));
                assert(posts@.take(i + 1).last() == posts@[i as int]);
            }
            match chosen {
                Some(u) => {
                    let ghost prev = r@;
                    r.push(u.clone());
                    assert(views(r@) =~= views(prev).push(u@)) by {
                        assert(views(r@).last() == u@);
                    }
                },
                None => {},
            }
            i = i + 1;
        }
        assert(posts@.take(posts.len() as int) =~= posts@);
        r
    }
}

impl Source for E621 {
    open spec fn first_person_lines(&self) -> Seq<Seq<char>> {
        views(self.first_person@)
    }

    open spec fn third_person_lines(&self) -> Seq<Seq<char>> {
        views(self.third_person@)
    }

    open spec fn image_pool(&self) -> Seq<Seq<char>> {
        self.images@
    }

    open spec fn consumes_images(&self) -> bool {
        true
    }

    fn first_person(&self) -> (r: String) {
        random_from(&self.first_person)
    }

    fn third_person(&self) -> (r: String) {
        random_from(&self.third_person)
    }

    fn url(&self) -> (r: String) {
        let urls = local_urls();
        random_from(&urls)
    }

    fn image(&mut self) -> (r: String) {
        let r = self.images.take();
        proof {
            if old(self).images@.len() > 0 {
                let i = choose|i: int|
                    0 <= i < old(self).images@.len() && r@ == old(self).images@[i]
                        && self.images@ == old(self).images@.remove(i);
                vstd::seq_lib::to_multiset_remove(old(self).images@, i);
            }
        }
        r
    }
}

} // verus!
