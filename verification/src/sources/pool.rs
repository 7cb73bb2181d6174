//! The images a web source has downloaded and not shown yet.
use vstd::prelude::*;
use super::{views, take_random};

verus! {

/// The downloader waits while more than this many images are waiting.
pub const STOCK_LIMIT: usize = 25;

/// What taking from a pool does: from an empty pool, the empty string and
/// the pool unchanged; otherwise one of its images, removed from it.
pub open spec fn took(before: Seq<Seq<char>>, after: Seq<Seq<char>>, taken: Seq<char>) -> bool {
    if before.len() == 0 {
        taken.len() == 0 && after == before
    } else {
        exists|i: int| 0 <= i < before.len() && taken == before[i] && after == before.remove(i)
    }
}

/// Downloaded images not shown yet, by path.
pub struct ImagePool {
    pub images: Vec<String>,
}

impl View for ImagePool {
    type V = Seq<Seq<char>>;

    open spec fn view(&self) -> Seq<Seq<char>> {
        views(self.images@)
    }
}

impl ImagePool {
    /// An empty pool.
    pub fn new() -> (r: Self)
        ensures
            r@ == Seq::<Seq<char>>::empty(),
    {
        let r = ImagePool { images: Vec::new() };
        assert(r@ =~= Seq::<Seq<char>>::empty());
        r
    }

    /// The number of waiting images.
    pub fn len(&self) -> (r: usize)
        ensures
            r == self@.len(),
    {
        self.images.len()
    }

    /// Whether the pool holds enough images for the downloader to wait
    /// (more than `STOCK_LIMIT`).
    pub fn is_stocked(&self) -> (r: bool)
        ensures
            r == (self@.len() > STOCK_LIMIT),
    {
        self.images.len() > STOCK_LIMIT
    }

    /// Adds a downloaded image.
    pub fn add(&mut self, path: String)
        ensures
            final(self)@ == old(self)@.push(path@),
    {
        self.images.push(path);
        assert(views(self.images@) =~= views(old(self).images@).push(path@));
    }

    /// Takes a random waiting image out of the pool, or returns the empty
    /// string when none is waiting.
    pub fn take(&mut self) -> (r: String)
        ensures
            took(old(self)@, final(self)@, r@),
    {
        take_random(&mut self.images)
    }
}

} // verus!
