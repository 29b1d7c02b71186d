//! An album in its place on disk: the definition together with the folder
//! that holds the album.

use crate::cover::{
    spec_chain_cover, spec_chain_step, spec_front_cover, step_level, CellView, CoverCell,
    LevelView, Progress, Reply, Turn, Variant,
};
use crate::disc::Disc;
use crate::image::Image;
use crate::raw;
use crate::raw::album::{AlbumView, FromYamlError};
use crate::raw::track::option_text_ref_view;
use crate::text::Text;
use crate::track::Track;
use crate::utils::{spec_comma_separated, string_views, text_views};
use crate::yaml::Yaml;
use std::borrow::Cow;
use vstd::prelude::*;
use vstd::string::StringExecFns;

verus! {

/// The year of an album.
pub type AlbumYear = usize;

/// An album and the folder it lives in.
#[derive(Debug)]
pub struct Album {
    album: raw::Album,
    path: String,
    cover: CoverCell,
    cover_vw: CoverCell,
}

/// The image behind an optional reference.
pub open spec fn option_image(o: Option<&Image>) -> Option<Image> {
    match o {
        Some(image) => Some(*image),
        None => None,
    }
}

/// The folder below the album's root that holds everything but the music.
pub open spec fn spec_extras() -> Seq<char> {
    "extras"@
}

/// The components of the folder that holds the source images.
pub open spec fn spec_image_path(root: Seq<char>) -> Seq<Seq<char>> {
    seq![root, "extras"@, "images"@]
}

/// The components of the folder that holds the cache.
pub open spec fn spec_cache_path(root: Seq<char>) -> Seq<Seq<char>> {
    seq![root, "extras"@, ".cache"@]
}

/// The components of the folder that holds the cached standard covers.
pub open spec fn spec_covers_path(root: Seq<char>) -> Seq<Seq<char>> {
    seq![root, "extras"@, ".cache"@, "covers"@]
}

/// The components of the folder that holds the cached car covers.
pub open spec fn spec_covers_vw_path(root: Seq<char>) -> Seq<Seq<char>> {
    seq![root, "extras"@, ".cache"@, "covers-vw"@]
}

/// The view of an album that may have failed to be read.
pub open spec fn album_in_place(r: Result<Album, FromYamlError>) -> Result<
    (AlbumView, Seq<char>),
    FromYamlError,
> {
    match r {
        Ok(a) => Ok((a.definition(), a.root())),
        Err(e) => Err(e),
    }
}

impl Album {
    /// What the definition says of the album.
    pub closed spec fn definition(&self) -> AlbumView {
        self.album@
    }

    /// The folder that holds the album.
    pub closed spec fn root(&self) -> Seq<char> {
        self.path@
    }

    /// The cell of the album's own cover of a variant.
    pub closed spec fn cover_cell(&self, variant: Variant) -> CellView {
        match variant {
            Variant::Standard => self.cover@,
            Variant::Vw => self.cover_vw@,
        }
    }

    /// The levels at which the cover of the album is looked for: the album
    /// itself, under the name `Front Cover`.
    pub open spec fn cover_chain(&self, variant: Variant) -> Seq<LevelView> {
        seq![LevelView { name: Some(spec_front_cover()), cell: self.cover_cell(variant) }]
    }

    /// An album from its definition and the folder that holds it. No cover
    /// has been looked for.
    pub fn new(album: raw::Album, path: String) -> (a: Album)
        ensures
            a.definition() == album@,
            a.root() == path@,
            a.cover_cell(Variant::Standard) == CellView::Unresolved,
            a.cover_cell(Variant::Vw) == CellView::Unresolved,
    {
        Album { album, path, cover: CoverCell::new(), cover_vw: CoverCell::new() }
    }

    /// Whether the album's own cover of a variant has been looked for to
    /// the end.
    pub fn cover_is_resolved(&self, variant: Variant) -> (r: bool)
        ensures
            r == (self.cover_cell(variant) is Resolved),
    {
        match variant {
            Variant::Standard => self.cover.is_resolved(),
            Variant::Vw => self.cover_vw.is_resolved(),
        }
    }

    /// Takes one step towards the album's standard cover. Once the cover is
    /// resolved, nothing is asked for again.
    pub fn resolve_cover(&mut self, reply: Option<Reply>) -> (r: Progress)
        ensures
            (final(self).cover_chain(Variant::Standard), r@) == spec_chain_step(
                old(self).cover_chain(Variant::Standard),
                reply,
            ),
            final(self).cover_cell(Variant::Vw) == old(self).cover_cell(Variant::Vw),
            final(self).definition() == old(self).definition(),
            final(self).root() == old(self).root(),
    {
        reveal_with_fuel(spec_chain_step, 2);
        let ghost before = self.cover_chain(Variant::Standard);
        let turn = step_level(&mut self.cover, Some("Front Cover"), reply);
        proof {
            let now = self.cover_chain(Variant::Standard);
            assert(now =~= seq![now[0]] + before.skip(1));
            assert(before.skip(1).len() == 0);
            assert(now =~= seq![now[0]] + spec_chain_step(before.skip(1), None).0);
        }
        match turn {
            Turn::Stop(progress) => progress,
            Turn::Above(_) => Progress::Ready,
        }
    }

    /// Takes one step towards the album's cover for the car. Once the cover
    /// is resolved, nothing is asked for again.
    pub fn resolve_cover_vw(&mut self, reply: Option<Reply>) -> (r: Progress)
        ensures
            (final(self).cover_chain(Variant::Vw), r@) == spec_chain_step(
                old(self).cover_chain(Variant::Vw),
                reply,
            ),
            final(self).cover_cell(Variant::Standard) == old(self).cover_cell(Variant::Standard),
            final(self).definition() == old(self).definition(),
            final(self).root() == old(self).root(),
    {
        reveal_with_fuel(spec_chain_step, 2);
        let ghost before = self.cover_chain(Variant::Vw);
        let turn = step_level(&mut self.cover_vw, Some("Front Cover"), reply);
        proof {
            let now = self.cover_chain(Variant::Vw);
            assert(now =~= seq![now[0]] + before.skip(1));
            assert(before.skip(1).len() == 0);
            assert(now =~= seq![now[0]] + spec_chain_step(before.skip(1), None).0);
        }
        match turn {
            Turn::Stop(progress) => progress,
            Turn::Above(_) => Progress::Ready,
        }
    }

    /// The album's standard cover, as far as it has been resolved.
    pub fn cover(&self) -> (r: Option<&Image>)
        ensures
            option_image(r) == spec_chain_cover(self.cover_chain(Variant::Standard)),
    {
        reveal_with_fuel(spec_chain_cover, 2);
        self.cover.image()
    }

    /// The album's cover for the car, as far as it has been resolved.
    pub fn cover_vw(&self) -> (r: Option<&Image>)
        ensures
            option_image(r) == spec_chain_cover(self.cover_chain(Variant::Vw)),
    {
        reveal_with_fuel(spec_chain_cover, 2);
        self.cover_vw.image()
    }

    /// Reads an album from a definition document; `path` is the folder that
    /// holds the album. Nothing is built unless the whole definition reads.
    pub fn from_yaml_and_path(yaml: Yaml, path: String) -> (r: Result<Album, FromYamlError>)
        ensures
            album_in_place(r) == match raw::album::spec_album_from_yaml(yaml) {
                Ok(a) => Ok::<(AlbumView, Seq<char>), FromYamlError>((a, path@)),
                Err(e) => Err(e),
            },
    {
        match raw::Album::from_yaml(yaml) {
            Ok(album) => Ok(Album::new(album, path)),
            Err(e) => Err(e),
        }
    }

    /// The definition of the album.
    pub fn raw(&self) -> (r: &raw::Album)
        ensures
            r@ == self.definition(),
    {
        &self.album
    }

    /// The title of the album.
    pub fn title(&self) -> (r: &Text)
        ensures
            r@ == self.definition().title,
    {
        &self.album.title
    }

    /// The artists of the album.
    pub fn artists(&self) -> (r: &[Text])
        ensures
            text_views(r@) == self.definition().artists,
    {
        self.album.artists.as_slice()
    }

    /// The artists of the album as one text, joined by commas. A single
    /// artist is handed out as it is, without a copy.
    pub fn artist(&self) -> (r: Cow<'_, Text>)
        ensures
            r@ == spec_comma_separated(self.definition().artists),
            self.definition().artists.len() == 1 ==> r is Borrowed,
    {
        self.album.artist()
    }

    /// The year of the album.
    pub fn year(&self) -> (r: Option<AlbumYear>)
        ensures
            r == self.definition().year,
    {
        self.album.year
    }

    /// The genre of the album.
    pub fn genre(&self) -> (r: Option<&Text>)
        ensures
            option_text_ref_view(r) == self.definition().genre,
    {
        self.album.genre()
    }

    /// The number of discs of the album.
    pub fn num_discs(&self) -> (n: usize)
        ensures
            n == self.definition().discs.len(),
    {
        self.album.num_discs()
    }

    /// The disc with the given number, counted from one, in its place in the
    /// album; `None` if the album has no disc of that number.
    pub fn disc(&self, disc_number: usize) -> (r: Option<Disc<'_>>)
        ensures
            r is Some == (1 <= disc_number <= self.definition().discs.len()),
            r matches Some(d) ==> d.owner() == *self && d.number() == disc_number && d.wf()
                && d.is_fresh(),
    {
        if disc_number >= 1 && disc_number <= self.album.discs.len() {
            proof {
                assert(self.album@.discs[disc_number - 1] == self.album.discs@[disc_number - 1]@);
            }
            Some(Disc::new(self, &self.album.discs[disc_number - 1], disc_number))
        } else {
            None
        }
    }

    /// The discs of the album in order, each in its place.
    pub fn discs(&self) -> (r: Vec<Disc<'_>>)
        ensures
            r@.len() == self.definition().discs.len(),
            forall|i: int|
                0 <= i < r@.len() ==> (#[trigger] r@[i]).owner() == *self && r@[i].number() == i
                    + 1 && r@[i].wf() && r@[i].is_fresh(),
    {
        let mut out: Vec<Disc<'_>> = Vec::new();
        let mut i: usize = 0;
        while i < self.album.discs.len()
            invariant
                i <= self.album.discs.len(),
                out@.len() == i,
                forall|j: int|
                    0 <= j < i ==> (#[trigger] out@[j]).owner() == *self && out@[j].number() == j
                        + 1 && out@[j].wf() && out@[j].is_fresh(),
            decreases self.album.discs.len() - i,
        {
            proof {
                assert(self.album@.discs[i as int] == self.album.discs@[i as int]@);
            }
            out.push(Disc::new(self, &self.album.discs[i], i + 1));
            i = i + 1;
        }
        out
    }

    /// The number of tracks on all discs together.
    pub fn num_tracks(&self) -> (n: usize)
        ensures
            n == self.definition().num_tracks(),
    {
        self.tracks().len()
    }

    /// All tracks of the album, disc by disc, each in its place.
    pub fn tracks(&self) -> (r: Vec<Track<'_>>)
        ensures
            r@.len() == self.definition().num_tracks(),
            forall|d: int, t: int|
                1 <= d <= self.definition().discs.len() && 1 <= t <= self.definition().discs[d
                    - 1].len() ==> (#[trigger] r@[self.definition().tracks_before(d - 1) + t
                    - 1]).is_at(*self, d as nat, t as nat),
    {
        let mut out: Vec<Track<'_>> = Vec::new();
        let mut i: usize = 0;
        while i < self.album.discs.len()
            invariant
                i <= self.album.discs.len(),
                out@.len() == self.album@.tracks_before(i as int),
                forall|d: int, t: int|
                    1 <= d <= i && 1 <= t <= self.album@.discs[d - 1].len() ==> (
                    #[trigger] out@[self.album@.tracks_before(d - 1) + t - 1]).is_at(
                        *self,
                        d as nat,
                        t as nat,
                    ),
            decreases self.album.discs.len() - i,
        {
            let ghost before = out@;
            let disc = match self.disc(i + 1) {
                Some(d) => d,
                None => {
                    proof {
                        assert(false);
                    }
                    return out;
                },
            };
            let mut found = disc.tracks();
            proof {
                assert forall|d: int| 1 <= d <= i implies #[trigger] self.album@.tracks_before(d)
                    <= before.len() by {
                    self.album@.lemma_tracks_before_grows(d, i as int);
                }
            }
            out.append(&mut found);
            proof {
                assert forall|d: int, t: int|
                    1 <= d <= i + 1 && 1 <= t <= self.album@.discs[d - 1].len() implies (
                #[trigger] out@[self.album@.tracks_before(d - 1) + t - 1]).is_at(
                    *self,
                    d as nat,
                    t as nat,
                ) by {
                    if d <= i {
                        assert(self.album@.tracks_before(d) <= before.len());
                        assert(out@[self.album@.tracks_before(d - 1) + t - 1]
                            == before[self.album@.tracks_before(d - 1) + t - 1]);
                    }
                }
            }
            i = i + 1;
        }
        out
    }

    /// The folder that holds the album, as path components.
    pub fn path(&self) -> (r: Vec<String>)
        ensures
            string_views(r@) == seq![self.root()],
    {
        let mut parts: Vec<String> = Vec::new();
        parts.push(self.path.clone());
        proof {
            assert(string_views(parts@) =~= seq![self.root()]);
        }
        parts
    }

    /// The folder for everything but the music: `extras` below the root.
    pub fn extras_path(&self) -> (r: Vec<String>)
        ensures
            string_views(r@) == seq![self.root(), spec_extras()],
    {
        let mut parts = self.path();
        let ghost before = parts@;
        parts.push(String::from_str("extras"));
        proof {
            assert(string_views(parts@) =~= string_views(before).push("extras"@));
        }
        parts
    }

    /// The folder for the source images: `extras/images` below the root.
    pub fn image_path(&self) -> (r: Vec<String>)
        ensures
            string_views(r@) == spec_image_path(self.root()),
    {
        let mut parts = self.extras_path();
        let ghost before = parts@;
        parts.push(String::from_str("images"));
        proof {
            assert(string_views(parts@) =~= string_views(before).push("images"@));
        }
        parts
    }

    /// The folder for cached files: `extras/.cache` below the root.
    pub fn cache_path(&self) -> (r: Vec<String>)
        ensures
            string_views(r@) == spec_cache_path(self.root()),
    {
        let mut parts = self.extras_path();
        let ghost before = parts@;
        parts.push(String::from_str(".cache"));
        proof {
            assert(string_views(parts@) =~= string_views(before).push(".cache"@));
        }
        parts
    }

    /// The folder for cached standard covers: `extras/.cache/covers`.
    pub fn covers_path(&self) -> (r: Vec<String>)
        ensures
            string_views(r@) == spec_covers_path(self.root()),
    {
        let mut parts = self.cache_path();
        let ghost before = parts@;
        parts.push(String::from_str("covers"));
        proof {
            assert(string_views(parts@) =~= string_views(before).push("covers"@));
        }
        parts
    }

    /// The folder for cached car covers: `extras/.cache/covers-vw`.
    pub fn covers_vw_path(&self) -> (r: Vec<String>)
        ensures
            string_views(r@) == spec_covers_vw_path(self.root()),
    {
        let mut parts = self.cache_path();
        let ghost before = parts@;
        parts.push(String::from_str("covers-vw"));
        proof {
            assert(string_views(parts@) =~= string_views(before).push("covers-vw"@));
        }
        parts
    }
}

} // verus!
