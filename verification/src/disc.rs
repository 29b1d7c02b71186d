//! A disc in its place in an album.

use crate::album::{option_image, Album};
use crate::cover::{
    spec_chain_cover, spec_chain_step, spec_front_cover, step_level, CellView,
    CoverCell, LevelView, Progress, Reply, Turn, Variant,
};
use crate::image::Image;
use crate::raw;
use crate::raw::track::TrackView;
use crate::track::Track;
use crate::utils::{
    num_digits, push_zero_padded, spec_num_digits, spec_zero_padded, string_views,
};
use vstd::prelude::*;
use vstd::string::StringExecFns;

verus! {

/// The name of the folder of a disc: none where the album has a single
/// disc, else `Disc` and the disc's number, padded with zeros to the width
/// of the album's number of discs.
pub open spec fn spec_disc_filename(num_discs: nat, disc_number: nat) -> Option<Seq<char>> {
    if num_discs == 1 {
        None
    } else {
        Some("Disc "@ + spec_zero_padded(disc_number, spec_num_digits(num_discs)))
    }
}

/// The components of the folder of a disc: the album's folder, and below it
/// the disc's folder where the disc has one.
pub open spec fn spec_disc_path(root: Seq<char>, num_discs: nat, disc_number: nat) -> Seq<
    Seq<char>,
> {
    match spec_disc_filename(num_discs, disc_number) {
        None => seq![root],
        Some(name) => seq![root, name],
    }
}

/// A disc together with the album it belongs to and its number in it.
#[derive(Debug)]
pub struct Disc<'a> {
    /// The album that the disc belongs to.
    pub album: &'a Album,
    disc: &'a raw::Disc,
    /// The number of the disc in the album, counted from one.
    pub disc_number: usize,
    cover: CoverCell,
    cover_vw: CoverCell,
    album_cover: CoverCell,
    album_cover_vw: CoverCell,
}

impl<'a> Disc<'a> {
    /// The tracks of the disc, as the definition gives them.
    pub closed spec fn definition(&self) -> Seq<TrackView> {
        self.disc@
    }

    /// The album that the disc belongs to.
    pub closed spec fn owner(&self) -> Album {
        *self.album
    }

    /// The number of the disc in the album, counted from one.
    pub closed spec fn number(&self) -> nat {
        self.disc_number as nat
    }

    /// The cell of the disc's own cover of a variant.
    pub closed spec fn cover_cell(&self, variant: Variant) -> CellView {
        match variant {
            Variant::Standard => self.cover@,
            Variant::Vw => self.cover_vw@,
        }
    }

    /// What this view remembers of the album's cover of a variant. It
    /// counts where the album itself had not resolved its cover when the
    /// view was made.
    pub closed spec fn album_cover_cell(&self, variant: Variant) -> CellView {
        match variant {
            Variant::Standard => self.album_cover@,
            Variant::Vw => self.album_cover_vw@,
        }
    }

    /// The cell that stands for the album's cover: the album's own where it
    /// is resolved, else what this view remembers.
    pub open spec fn album_level(&self, variant: Variant) -> CellView {
        if self.owner().cover_cell(variant) is Resolved {
            self.owner().cover_cell(variant)
        } else {
            self.album_cover_cell(variant)
        }
    }

    /// The levels at which the cover of the disc is looked for: the disc
    /// itself, under the name of its folder, and then the album.
    pub open spec fn cover_chain(&self, variant: Variant) -> Seq<LevelView> {
        seq![
            LevelView {
                name: spec_disc_filename(self.spec_num_discs(), self.number()),
                cell: self.cover_cell(variant),
            },
            LevelView { name: Some(spec_front_cover()), cell: self.album_level(variant) },
        ]
    }

    /// No cover has been looked for through this view.
    pub open spec fn is_fresh(&self) -> bool {
        &&& self.cover_cell(Variant::Standard) == CellView::Unresolved
        &&& self.cover_cell(Variant::Vw) == CellView::Unresolved
        &&& self.album_cover_cell(Variant::Standard) == CellView::Unresolved
        &&& self.album_cover_cell(Variant::Vw) == CellView::Unresolved
    }

    /// Two views show the same disc in the same place.
    pub open spec fn same_place(&self, other: &Disc<'a>) -> bool {
        &&& self.owner() == other.owner()
        &&& self.number() == other.number()
        &&& self.definition() == other.definition()
    }

    /// The number of discs of the album.
    pub open spec fn spec_num_discs(&self) -> nat {
        self.owner().definition().discs.len()
    }

    /// The disc is the one that the album has under the disc's number.
    pub open spec fn wf(&self) -> bool {
        &&& 1 <= self.number() <= self.spec_num_discs()
        &&& self.owner().definition().discs[self.number() - 1] == self.definition()
    }

    /// A disc in its place: the album, the disc and the disc's number.
    pub fn new(album: &'a Album, disc: &'a raw::Disc, disc_number: usize) -> (d: Disc<'a>)
        ensures
            d.owner() == *album,
            d.number() == disc_number,
            d.definition() == disc@,
            d.is_fresh(),
    {
        Disc {
            album,
            disc,
            disc_number,
            cover: CoverCell::new(),
            cover_vw: CoverCell::new(),
            album_cover: CoverCell::new(),
            album_cover_vw: CoverCell::new(),
        }
    }

    /// The album that the disc belongs to.
    pub fn album(&self) -> (r: &'a Album)
        ensures
            *r == self.owner(),
    {
        self.album
    }

    /// The number of the disc in the album, counted from one.
    pub fn disc_number(&self) -> (n: usize)
        ensures
            n == self.number(),
    {
        self.disc_number
    }

    /// The number of tracks on the disc.
    pub fn num_tracks(&self) -> (n: usize)
        ensures
            n == self.definition().len(),
    {
        self.disc.num_tracks()
    }

    /// Whether the album has no other disc.
    pub fn is_only_disc(&self) -> (r: bool)
        ensures
            r == (self.spec_num_discs() == 1),
    {
        self.album.num_discs() == 1
    }

    /// The same disc in the same place, as a view of its own, through which
    /// no cover has been looked for.
    fn reopen(&self) -> (d: Disc<'a>)
        ensures
            d.same_place(self),
            d.is_fresh(),
    {
        Disc::new(self.album, self.disc, self.disc_number)
    }

    /// The track with the given number, counted from one, in its place on
    /// the disc; `None` if the disc has no track of that number.
    pub fn track(&self, track_number: usize) -> (r: Option<Track<'a>>)
        ensures
            r is Some == (1 <= track_number <= self.definition().len()),
            r matches Some(t) ==> {
                &&& t.on_disc().same_place(self)
                &&& t.on_disc().is_fresh()
                &&& t.is_fresh()
                &&& t.number() == track_number
                &&& t.definition() == self.definition()[track_number - 1]
            },
    {
        self.reopen().into_track(track_number)
    }

    /// The track with the given number, counted from one, on this very disc;
    /// `None` if the disc has no track of that number.
    pub fn into_track(self, track_number: usize) -> (r: Option<Track<'a>>)
        ensures
            r is Some == (1 <= track_number <= self.definition().len()),
            r matches Some(t) ==> {
                &&& t.on_disc() == self
                &&& t.is_fresh()
                &&& t.number() == track_number
                &&& t.definition() == self.definition()[track_number - 1]
            },
    {
        let tracks = self.disc.tracks();
        if track_number >= 1 && track_number <= tracks.len() {
            proof {
                assert(crate::raw::disc::track_views(tracks@)[track_number - 1]
                    == tracks@[track_number - 1]@);
            }
            Some(Track::new(self, &tracks[track_number - 1], track_number))
        } else {
            None
        }
    }

    /// The tracks of the disc in order, each in its place.
    pub fn tracks(&self) -> (r: Vec<Track<'a>>)
        ensures
            r@.len() == self.definition().len(),
            forall|i: int|
                0 <= i < r@.len() ==> {
                    &&& (#[trigger] r@[i]).on_disc().same_place(self)
                    &&& r@[i].on_disc().is_fresh()
                    &&& r@[i].is_fresh()
                    &&& r@[i].number() == i + 1
                    &&& r@[i].definition() == self.definition()[i]
                },
    {
        let mut out: Vec<Track<'a>> = Vec::new();
        let count = self.num_tracks();
        let mut i: usize = 0;
        while i < count
            invariant
                i <= count,
                count == self.definition().len(),
                out@.len() == i,
                forall|j: int|
                    0 <= j < i ==> {
                        &&& (#[trigger] out@[j]).on_disc().same_place(self)
                        &&& out@[j].on_disc().is_fresh()
                        &&& out@[j].is_fresh()
                        &&& out@[j].number() == j + 1
                        &&& out@[j].definition() == self.definition()[j]
                    },
            decreases count - i,
        {
            match self.track(i + 1) {
                Some(t) => out.push(t),
                None => {},
            }
            i = i + 1;
        }
        out
    }

    /// Takes one step towards the standard cover of the disc: its own, or,
    /// where it has none, the album's. Once the cover is resolved, nothing
    /// is asked for again.
    pub fn resolve_cover(&mut self, reply: Option<Reply>) -> (r: Progress)
        ensures
            (final(self).cover_chain(Variant::Standard), r@) == spec_chain_step(
                old(self).cover_chain(Variant::Standard),
                reply,
            ),
            final(self).same_place(old(self)),
            final(self).cover_cell(Variant::Vw) == old(self).cover_cell(Variant::Vw),
            final(self).album_cover_cell(Variant::Vw) == old(self).album_cover_cell(Variant::Vw),
    {
        reveal_with_fuel(spec_chain_step, 3);
        let ghost before = self.cover_chain(Variant::Standard);
        let name = self.filename();
        let turn = match &name {
            Some(n) => step_level(&mut self.cover, Some(n.as_str()), reply),
            None => step_level(&mut self.cover, None, reply),
        };
        match turn {
            Turn::Stop(progress) => {
                proof {
                    let now = self.cover_chain(Variant::Standard);
                    assert(now =~= seq![now[0]] + before.skip(1));
                }
                progress
            },
            Turn::Above(handed) => {
                let ghost rest = before.skip(1);
                let progress = if self.album.cover_is_resolved(Variant::Standard) {
                    Progress::Ready
                } else {
                    match step_level(&mut self.album_cover, Some("Front Cover"), handed) {
                        Turn::Stop(progress) => progress,
                        Turn::Above(_) => Progress::Ready,
                    }
                };
                proof {
                    let now = self.cover_chain(Variant::Standard);
                    assert(rest.len() == 1);
                    assert(rest.skip(1).len() == 0);
                    assert(rest[0] == before[1]);
                    let above = spec_chain_step(rest, handed);
                    assert(above.0 =~= seq![now[1]]);
                    assert(now =~= seq![now[0]] + above.0);
                }
                progress
            },
        }
    }

    /// Takes one step towards the cover of the disc for the car: its own,
    /// or, where it has none, the album's. Once the cover is resolved,
    /// nothing is asked for again.
    pub fn resolve_cover_vw(&mut self, reply: Option<Reply>) -> (r: Progress)
        ensures
            (final(self).cover_chain(Variant::Vw), r@) == spec_chain_step(
                old(self).cover_chain(Variant::Vw),
                reply,
            ),
            final(self).same_place(old(self)),
            final(self).cover_cell(Variant::Standard) == old(self).cover_cell(Variant::Standard),
            final(self).album_cover_cell(Variant::Standard) == old(self).album_cover_cell(
                Variant::Standard,
            ),
    {
        reveal_with_fuel(spec_chain_step, 3);
        let ghost before = self.cover_chain(Variant::Vw);
        let name = self.filename();
        let turn = match &name {
            Some(n) => step_level(&mut self.cover_vw, Some(n.as_str()), reply),
            None => step_level(&mut self.cover_vw, None, reply),
        };
        match turn {
            Turn::Stop(progress) => {
                proof {
                    let now = self.cover_chain(Variant::Vw);
                    assert(now =~= seq![now[0]] + before.skip(1));
                }
                progress
            },
            Turn::Above(handed) => {
                let ghost rest = before.skip(1);
                let progress = if self.album.cover_is_resolved(Variant::Vw) {
                    Progress::Ready
                } else {
                    match step_level(&mut self.album_cover_vw, Some("Front Cover"), handed) {
                        Turn::Stop(progress) => progress,
                        Turn::Above(_) => Progress::Ready,
                    }
                };
                proof {
                    let now = self.cover_chain(Variant::Vw);
                    assert(rest.len() == 1);
                    assert(rest.skip(1).len() == 0);
                    assert(rest[0] == before[1]);
                    let above = spec_chain_step(rest, handed);
                    assert(above.0 =~= seq![now[1]]);
                    assert(now =~= seq![now[0]] + above.0);
                }
                progress
            },
        }
    }

    /// The standard cover of the disc, as far as it has been resolved: its
    /// own, or, where it is known to have none, the album's.
    pub fn cover(&self) -> (r: Option<&Image>)
        ensures
            option_image(r) == spec_chain_cover(self.cover_chain(Variant::Standard)),
    {
        reveal_with_fuel(spec_chain_cover, 3);
        proof {
            let chain = self.cover_chain(Variant::Standard);
            assert(chain.skip(1)[0] == chain[1]);
            assert(chain.skip(1).skip(1).len() == 0);
            assert(self.owner().cover_chain(Variant::Standard)[0].cell
                == self.owner().cover_cell(Variant::Standard));
        }
        if !self.cover.is_resolved() {
            return None;
        }
        match self.cover.image() {
            Some(image) => Some(image),
            None => {
                if self.album.cover_is_resolved(Variant::Standard) {
                    self.album.cover()
                } else {
                    self.album_cover.image()
                }
            },
        }
    }

    /// The cover of the disc for the car, as far as it has been resolved:
    /// its own, or, where it is known to have none, the album's.
    pub fn cover_vw(&self) -> (r: Option<&Image>)
        ensures
            option_image(r) == spec_chain_cover(self.cover_chain(Variant::Vw)),
    {
        reveal_with_fuel(spec_chain_cover, 3);
        proof {
            let chain = self.cover_chain(Variant::Vw);
            assert(chain.skip(1)[0] == chain[1]);
            assert(chain.skip(1).skip(1).len() == 0);
            assert(self.owner().cover_chain(Variant::Vw)[0].cell == self.owner().cover_cell(
                Variant::Vw,
            ));
        }
        if !self.cover_vw.is_resolved() {
            return None;
        }
        match self.cover_vw.image() {
            Some(image) => Some(image),
            None => {
                if self.album.cover_is_resolved(Variant::Vw) {
                    self.album.cover_vw()
                } else {
                    self.album_cover_vw.image()
                }
            },
        }
    }

    /// The name of the disc's folder, if it has one.
    pub fn filename(&self) -> (r: Option<String>)
        ensures
            crate::chars::option_view(r) == spec_disc_filename(
                self.spec_num_discs(),
                self.number(),
            ),
    {
        if self.is_only_disc() {
            None
        } else {
            let digits = num_digits(self.album.num_discs());
            let mut name = String::from_str("Disc ");
            push_zero_padded(&mut name, self.disc_number, digits);
            Some(name)
        }
    }

    /// The folder of the disc, as path components. The only disc of an
    /// album lives in the album's folder.
    pub fn path(&self) -> (r: Vec<String>)
        ensures
            string_views(r@) == spec_disc_path(
                self.owner().root(),
                self.spec_num_discs(),
                self.number(),
            ),
            self.spec_num_discs() == 1 ==> string_views(r@) == seq![self.owner().root()],
    {
        let mut parts = self.album.path();
        match self.filename() {
            None => parts,
            Some(name) => {
                let ghost before = parts@;
                proof {
                    assert(string_views(before.push(name)) =~= string_views(before).push(name@));
                }
                parts.push(name);
                parts
            },
        }
    }
}

} // verus!
