//! Images from a folder on this machine.
use vstd::prelude::*;
use vstd::string::*;
use crate::config::Config;
use crate::text::{extension, file_extension, eq_ignore_ascii_case, same_ignoring_ascii_case};
use super::{Source, views, lines_or, random_from, get_babble};
use super::lines::{default_first_person, default_third_person, local_urls};

verus! {

/// The extensions of the files shown, compared without regard to the case
/// of ASCII letters.
pub open spec fn is_image_extension(ext: Seq<char>) -> bool {
    ||| same_ignoring_ascii_case(ext, "jpg"@)
    ||| same_ignoring_ascii_case(ext, "jpeg"@)
    ||| same_ignoring_ascii_case(ext, "png"@)
    ||| same_ignoring_ascii_case(ext, "bmp"@)
    ||| same_ignoring_ascii_case(ext, "gif"@)
}

/// Whether a file called `name` is shown: its extension is one of the image
/// extensions.
pub open spec fn is_image_name(name: Seq<char>) -> bool {
    match extension(name) {
        Some(ext) => is_image_extension(ext),
        None => false,
    }
}

/// Whether a file called `name` has an image extension.
///
/// The extension is compared after lower-casing ASCII letters; no other
/// character lower-cases into one of the letters of these extensions, so
/// this is the comparison of the Unicode lower-case form.
pub fn allowed_extension(name: &str) -> (r: bool)
    ensures
        r == is_image_name(name@),
{
    match file_extension(name) {
        Some(ext) => {
            let e = ext.as_str();
            eq_ignore_ascii_case(e, "jpg") || eq_ignore_ascii_case(e, "jpeg")
                || eq_ignore_ascii_case(e, "png") || eq_ignore_ascii_case(e, "bmp")
                || eq_ignore_ascii_case(e, "gif")
        },
        None => false,
    }
}

/// Images from a folder.
pub struct Local {
    /// The images found so far, by path; showing one does not remove it.
    pub images: Vec<String>,
    /// The folder-entry name each image was found under.
    pub names: Ghost<Seq<Seq<char>>>,
    pub first_person: Vec<String>,
    pub third_person: Vec<String>,
    /// The folder searched.
    pub folder: String,
}

impl Local {
    /// Every image held is the path of a file with an image extension.
    pub open spec fn holds_only_images(self) -> bool {
        &&& self.names@.len() == self.images@.len()
        &&& forall|i: int| 0 <= i < self.names@.len() ==> is_image_name(#[trigger] self.names@[i])
    }

    /// The source for `cfg`: no image yet, the configured (or built-in)
    /// lines and the configured folder.
    pub fn new(cfg: &Config) -> (r: Self)
        ensures
            r.images@ == Seq::<String>::empty(),
            views(r.first_person@) == lines_or(
                views(cfg.babble.first_person@),
                default_first_person(),
            ),
            views(r.third_person@) == lines_or(
                views(cfg.babble.third_person@),
                default_third_person(),
            ),
            r.folder@ == cfg.image_source.local@,
            r.holds_only_images(),
    {
        let (first, third) = get_babble(cfg);
        let r = Local {
            images: Vec::new(),
            names: Ghost(Seq::empty()),
            first_person: first,
            third_person: third,
            folder: cfg.image_source.local.clone(),
        };
        r
    }

    /// Whether a folder entry called `name` is taken as an image: it is a
    /// file and has an image extension.
    pub fn accepts(name: &str, is_file: bool) -> (r: bool)
        ensures
            r == (is_file && is_image_name(name@)),
    {
        is_file && allowed_extension(name)
    }

    /// Offers the folder entry called `name` at `path` (`is_file`: whether
    /// it is a regular file); it is kept, and `true` returned, only when it
    /// is a file whose name has an image extension.
    pub fn add(&mut self, path: String, name: &str, is_file: bool) -> (added: bool)
        ensures
            added == (is_file && is_image_name(name@)),
            added ==> views(final(self).images@) == views(old(self).images@).push(path@)
                && final(self).names@ == old(self).names@.push(name@),
            !added ==> final(self).images == old(self).images && final(self).names == old(
                self,
            ).names,
            old(self).holds_only_images() ==> final(self).holds_only_images(),
            final(self).first_person == old(self).first_person,
            final(self).third_person == old(self).third_person,
            final(self).folder == old(self).folder,
    {
        if !Self::accepts(name, is_file) {
            return false;
        }
        self.images.push(path);
        self.names = Ghost(self.names@.push(name@));
        assert(views(self.images@) =~= views(old(self).images@).push(self.images@.last()@));
        true
    }
}

impl Source for Local {
    open spec fn first_person_lines(&self) -> Seq<Seq<char>> {
        views(self.first_person@)
    }

    open spec fn third_person_lines(&self) -> Seq<Seq<char>> {
        views(self.third_person@)
    }

    open spec fn image_pool(&self) -> Seq<Seq<char>> {
        views(self.images@)
    }

    open spec fn consumes_images(&self) -> bool {
        false
    }

    fn first_person(&self) -> (r: String) {
        random_from(&self.first_person)
    }

    fn third_person(&self) -> (r: String) {
        random_from(&self.third_person)
    }

    fn url(&self) -> (r: String) {
        let urls = local_urls();
        random_from(&urls)
    }

    fn image(&mut self) -> (r: String) {
        random_from(&self.images)
    }
}

} // verus!
