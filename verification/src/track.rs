//! A track in its place on a disc of an album.

use crate::album::{option_image, Album};
use crate::cover::{
    spec_chain_cover, spec_chain_step, step_level, CellView, CoverCell, LevelView, Progress,
    Reply, Turn, Variant,
};
use crate::image::Image;
use crate::disc::{spec_disc_path, Disc};
use crate::raw;
use crate::raw::album::AlbumView;
use crate::raw::track::{option_text_ref_view, option_text_slice_view, TrackView};
use crate::text::{Text, TextView};
use crate::utils::{
    comma_separated, num_digits, push_zero_padded, spec_comma_separated, spec_num_digits,
    spec_zero_padded, string_views, text_views, texts_equal,
};
use std::borrow::Cow;
use vstd::prelude::*;
use vstd::string::StringExecFns;

verus! {

/// The canonical file name of a track. The only track of the only disc is
/// named by its title alone; any other has its number in front, padded
/// with zeros to the width of the disc's number of tracks.
pub open spec fn spec_canonical_filename(
    num_discs: nat,
    num_tracks: nat,
    track_number: nat,
    title: Seq<char>,
) -> Seq<char> {
    if num_tracks == 1 && num_discs == 1 {
        title + ".mp3"@
    } else {
        spec_zero_padded(track_number, spec_num_digits(num_tracks)) + " - "@ + title + ".mp3"@
    }
}

/// The file name of a track for the car. In an album of one disc it is the
/// canonical name; else the disc's and the track's number stand in front,
/// each padded to its own width.
pub open spec fn spec_filename_vw(
    num_discs: nat,
    num_tracks: nat,
    disc_number: nat,
    track_number: nat,
    title: Seq<char>,
) -> Seq<char> {
    if num_discs == 1 {
        spec_canonical_filename(num_discs, num_tracks, track_number, title)
    } else {
        spec_zero_padded(disc_number, spec_num_digits(num_discs)) + "-"@ + spec_zero_padded(
            track_number,
            spec_num_digits(num_tracks),
        ) + " - "@ + title + ".mp3"@
    }
}

/// The artists of a track: its own where it names any, else the album's.
pub open spec fn spec_artists(track: TrackView, album: AlbumView) -> Seq<TextView> {
    match track.artists {
        Some(own) => own,
        None => album.artists,
    }
}

/// The album's artists, where they differ from the track's.
pub open spec fn spec_album_artists(track: TrackView, album: AlbumView) -> Option<Seq<TextView>> {
    if spec_artists(track, album) != album.artists {
        Some(album.artists)
    } else {
        None
    }
}

/// The year of a track: its own where it gives one, else the album's.
pub open spec fn spec_year(track: TrackView, album: AlbumView) -> Option<usize> {
    match track.year {
        Some(y) => Some(y),
        None => album.year,
    }
}

/// The genre of a track: its own where it gives one, else the album's.
pub open spec fn spec_genre(track: TrackView, album: AlbumView) -> Option<TextView> {
    match track.genre {
        Some(g) => Some(g),
        None => album.genre,
    }
}

/// The file name under which a track is found: the one that the definition
/// gives, else the canonical one.
pub open spec fn spec_filename(track: TrackView, canonical: Seq<char>) -> Seq<char> {
    match track.filename {
        Some(name) => name,
        None => canonical,
    }
}

/// The view of an optional text that is borrowed or owned.
pub open spec fn option_cow_view(o: Option<Cow<'_, Text>>) -> Option<TextView> {
    match o {
        Some(t) => Some(t@),
        None => None,
    }
}

/// A track together with the disc it is on and its number on it.
#[derive(Debug)]
pub struct Track<'a> {
    disc: Disc<'a>,
    track: &'a raw::Track,
    /// The number of the track on its disc, counted from one.
    pub track_number: usize,
    cover: CoverCell,
    cover_vw: CoverCell,
}

impl<'a> Track<'a> {
    /// The track as the definition gives it.
    pub closed spec fn definition(&self) -> TrackView {
        self.track@
    }

    /// The disc that the track is on.
    pub closed spec fn on_disc(&self) -> Disc<'a> {
        self.disc
    }

    /// The number of the track on its disc, counted from one.
    pub closed spec fn number(&self) -> nat {
        self.track_number as nat
    }

    /// The cell of the track's own cover of a variant.
    pub closed spec fn cover_cell(&self, variant: Variant) -> CellView {
        match variant {
            Variant::Standard => self.cover@,
            Variant::Vw => self.cover_vw@,
        }
    }

    /// No cover of the track's own has been looked for through this view.
    pub open spec fn is_fresh(&self) -> bool {
        &&& self.cover_cell(Variant::Standard) == CellView::Unresolved
        &&& self.cover_cell(Variant::Vw) == CellView::Unresolved
    }

    /// The levels at which the cover of the track is looked for: the track
    /// itself, under the file safe form of its title, then its disc, then
    /// the album.
    pub open spec fn cover_chain(&self, variant: Variant) -> Seq<LevelView> {
        seq![
            LevelView {
                name: Some(self.definition().title.file_safe_text()),
                cell: self.cover_cell(variant),
            },
        ] + self.on_disc().cover_chain(variant)
    }

    /// Two views show the same track in the same place.
    pub open spec fn same_place(&self, other: &Track<'a>) -> bool {
        &&& self.on_disc().same_place(&other.on_disc())
        &&& self.number() == other.number()
        &&& self.definition() == other.definition()
    }

    /// What the definition says of the album.
    pub open spec fn album_definition(&self) -> AlbumView {
        self.on_disc().owner().definition()
    }

    /// The number of discs of the album.
    pub open spec fn spec_num_discs(&self) -> nat {
        self.album_definition().discs.len()
    }

    /// The number of tracks on the disc.
    pub open spec fn spec_num_tracks(&self) -> nat {
        self.on_disc().definition().len()
    }

    /// The canonical file name of the track.
    pub open spec fn spec_canonical(&self) -> Seq<char> {
        spec_canonical_filename(
            self.spec_num_discs(),
            self.spec_num_tracks(),
            self.number(),
            self.definition().title.file_safe_text(),
        )
    }

    /// The track is the one that its disc has under the track's number, and
    /// the disc is in its place.
    pub open spec fn wf(&self) -> bool {
        &&& self.on_disc().wf()
        &&& 1 <= self.number() <= self.on_disc().definition().len()
        &&& self.on_disc().definition()[self.number() - 1] == self.definition()
    }

    /// The track is track `track_number` of disc `disc_number` of `album`,
    /// seen through a view through which no cover has been looked for.
    pub open spec fn is_at(&self, album: Album, disc_number: nat, track_number: nat) -> bool {
        &&& self.wf()
        &&& self.is_fresh()
        &&& self.on_disc().is_fresh()
        &&& self.on_disc().owner() == album
        &&& self.on_disc().number() == disc_number
        &&& self.number() == track_number
    }

    /// A track in its place: the disc, the track and the track's number.
    pub fn new(disc: Disc<'a>, track: &'a raw::Track, track_number: usize) -> (t: Track<'a>)
        ensures
            t.on_disc() == disc,
            t.definition() == track@,
            t.number() == track_number,
            t.is_fresh(),
    {
        Track { disc, track, track_number, cover: CoverCell::new(), cover_vw: CoverCell::new() }
    }

    /// The title of the track.
    pub fn title(&self) -> (r: &Text)
        ensures
            r@ == self.definition().title,
    {
        self.track.title()
    }

    /// The artists of the track: its own where it names any, else the album's.
    pub fn artists(&self) -> (r: &[Text])
        ensures
            text_views(r@) == spec_artists(self.definition(), self.album_definition()),
    {
        match self.track.artists() {
            Some(own) => own,
            None => self.disc.album().artists(),
        }
    }

    /// The artists of the track as one text, joined by commas. A single
    /// artist is handed out as it is, without a copy.
    pub fn artist(&self) -> (r: Cow<'_, Text>)
        ensures
            r@ == spec_comma_separated(spec_artists(self.definition(), self.album_definition())),
            spec_artists(self.definition(), self.album_definition()).len() == 1 ==> r is Borrowed,
    {
        comma_separated(self.artists())
    }

    /// The album's artists, where the track's artists differ from them.
    pub fn album_artists(&self) -> (r: Option<&[Text]>)
        ensures
            option_text_slice_view(r) == spec_album_artists(
                self.definition(),
                self.album_definition(),
            ),
    {
        let album_artists = self.disc.album().artists();
        if !texts_equal(self.artists(), album_artists) {
            Some(album_artists)
        } else {
            None
        }
    }

    /// The album's artists as one text, where the track's artists differ
    /// from them.
    pub fn album_artist(&self) -> (r: Option<Cow<'_, Text>>)
        ensures
            option_cow_view(r) == match spec_album_artists(
                self.definition(),
                self.album_definition(),
            ) {
                Some(artists) => Some(spec_comma_separated(artists)),
                None => None,
            },
    {
        match self.album_artists() {
            Some(artists) => Some(comma_separated(artists)),
            None => None,
        }
    }

    /// The year of the track: its own where it gives one, else the album's.
    pub fn year(&self) -> (r: Option<usize>)
        ensures
            r == spec_year(self.definition(), self.album_definition()),
    {
        match self.track.year() {
            Some(y) => Some(y),
            None => self.disc.album().year(),
        }
    }

    /// The genre of the track: its own where it gives one, else the album's.
    pub fn genre(&self) -> (r: Option<&Text>)
        ensures
            option_text_ref_view(r) == spec_genre(self.definition(), self.album_definition()),
    {
        match self.track.genre() {
            Some(g) => Some(g),
            None => self.disc.album().genre(),
        }
    }

    /// The comment on the track. The album has no say in it.
    pub fn comment(&self) -> (r: Option<&Text>)
        ensures
            option_text_ref_view(r) == self.definition().comment,
    {
        self.track.comment()
    }

    /// The lyrics of the track. The album has no say in them.
    pub fn lyrics(&self) -> (r: Option<&Text>)
        ensures
            option_text_ref_view(r) == self.definition().lyrics,
    {
        self.track.lyrics()
    }

    /// The number of the track on its disc, counted from one.
    pub fn track_number(&self) -> (n: usize)
        ensures
            n == self.number(),
    {
        self.track_number
    }

    /// The album that the track belongs to.
    pub fn album(&self) -> (r: &Album)
        ensures
            *r == self.on_disc().owner(),
    {
        self.disc.album()
    }

    /// The disc that the track is on.
    pub fn disc(&self) -> (r: &Disc<'a>)
        ensures
            *r == self.on_disc(),
    {
        &self.disc
    }

    /// Takes one step towards the standard cover of the track: its own, or,
    /// where it has none, its disc's, or, where that has none, the album's.
    /// Once the cover is resolved, nothing is asked for again.
    pub fn resolve_cover(&mut self, reply: Option<Reply>) -> (r: Progress)
        ensures
            (final(self).cover_chain(Variant::Standard), r@) == spec_chain_step(
                old(self).cover_chain(Variant::Standard),
                reply,
            ),
            final(self).same_place(old(self)),
            final(self).cover_chain(Variant::Vw) == old(self).cover_chain(Variant::Vw),
    {
        reveal_with_fuel(spec_chain_step, 2);
        let ghost before = self.cover_chain(Variant::Standard);
        let ghost disc_before = self.disc.cover_chain(Variant::Standard);
        proof {
            assert(before.skip(1) =~= disc_before);
        }
        let turn = step_level(&mut self.cover, Some(self.track.title().file_safe()), reply);
        match turn {
            Turn::Stop(progress) => {
                proof {
                    let now = self.cover_chain(Variant::Standard);
                    assert(now =~= seq![now[0]] + before.skip(1));
                }
                progress
            },
            Turn::Above(handed) => {
                let progress = self.disc.resolve_cover(handed);
                proof {
                    let now = self.cover_chain(Variant::Standard);
                    assert(now =~= seq![now[0]] + spec_chain_step(disc_before, handed).0);
                }
                progress
            },
        }
    }

    /// Takes one step towards the cover of the track for the car: its own,
    /// or, where it has none, its disc's, or, where that has none, the
    /// album's. Once the cover is resolved, nothing is asked for again.
    pub fn resolve_cover_vw(&mut self, reply: Option<Reply>) -> (r: Progress)
        ensures
            (final(self).cover_chain(Variant::Vw), r@) == spec_chain_step(
                old(self).cover_chain(Variant::Vw),
                reply,
            ),
            final(self).same_place(old(self)),
            final(self).cover_chain(Variant::Standard) == old(self).cover_chain(
                Variant::Standard,
            ),
    {
        reveal_with_fuel(spec_chain_step, 2);
        let ghost before = self.cover_chain(Variant::Vw);
        let ghost disc_before = self.disc.cover_chain(Variant::Vw);
        proof {
            assert(before.skip(1) =~= disc_before);
        }
        let turn = step_level(&mut self.cover_vw, Some(self.track.title().file_safe()), reply);
        match turn {
            Turn::Stop(progress) => {
                proof {
                    let now = self.cover_chain(Variant::Vw);
                    assert(now =~= seq![now[0]] + before.skip(1));
                }
                progress
            },
            Turn::Above(handed) => {
                let progress = self.disc.resolve_cover_vw(handed);
                proof {
                    let now = self.cover_chain(Variant::Vw);
                    assert(now =~= seq![now[0]] + spec_chain_step(disc_before, handed).0);
                }
                progress
            },
        }
    }

    /// The standard cover of the track, as far as it has been resolved:
    /// its own, or, where it is known to have none, that of its disc, which
    /// in turn may be the album's.
    pub fn cover(&self) -> (r: Option<&Image>)
        ensures
            option_image(r) == spec_chain_cover(self.cover_chain(Variant::Standard)),
    {
        reveal_with_fuel(spec_chain_cover, 2);
        proof {
            assert(self.cover_chain(Variant::Standard).skip(1) =~= self.on_disc().cover_chain(
                Variant::Standard,
            ));
        }
        if !self.cover.is_resolved() {
            return None;
        }
        match self.cover.image() {
            Some(image) => Some(image),
            None => self.disc.cover(),
        }
    }

    /// The cover of the track for the car, as far as it has been resolved:
    /// its own, or, where it is known to have none, that of its disc, which
    /// in turn may be the album's.
    pub fn cover_vw(&self) -> (r: Option<&Image>)
        ensures
            option_image(r) == spec_chain_cover(self.cover_chain(Variant::Vw)),
    {
        reveal_with_fuel(spec_chain_cover, 2);
        proof {
            assert(self.cover_chain(Variant::Vw).skip(1) =~= self.on_disc().cover_chain(
                Variant::Vw,
            ));
        }
        if !self.cover_vw.is_resolved() {
            return None;
        }
        match self.cover_vw.image() {
            Some(image) => Some(image),
            None => self.disc.cover_vw(),
        }
    }

    /// The file name that the track should have.
    pub fn canonical_filename(&self) -> (r: String)
        ensures
            r@ == self.spec_canonical(),
    {
        let num_tracks = self.disc.num_tracks();
        let num_discs = self.disc.album().num_discs();
        let mut name = String::new();
        if !(num_tracks == 1 && num_discs == 1) {
            push_zero_padded(&mut name, self.track_number, num_digits(num_tracks));
            name.append(" - ");
        }
        name.append(self.track.title().file_safe());
        name.append(".mp3");
        proof {
            assert(name@ =~= self.spec_canonical());
        }
        name
    }

    /// The file name under which the track is found: the one that the
    /// definition gives, else the canonical one.
    pub fn filename(&self) -> (r: Cow<'_, str>)
        ensures
            r@ == spec_filename(self.definition(), self.spec_canonical()),
            r is Borrowed == self.definition().filename is Some,
    {
        match self.track.filename() {
            Some(name) => Cow::Borrowed(name),
            None => Cow::Owned(self.canonical_filename()),
        }
    }

    /// The file name of the track for the car. The definition's own file
    /// name has no say in it.
    pub fn filename_vw(&self) -> (r: String)
        ensures
            r@ == spec_filename_vw(
                self.spec_num_discs(),
                self.spec_num_tracks(),
                self.on_disc().number(),
                self.number(),
                self.definition().title.file_safe_text(),
            ),
    {
        let num_discs = self.disc.album().num_discs();
        if num_discs == 1 {
            return self.canonical_filename();
        }
        let mut name = String::new();
        push_zero_padded(&mut name, self.disc.disc_number(), num_digits(num_discs));
        name.append("-");
        push_zero_padded(&mut name, self.track_number, num_digits(self.disc.num_tracks()));
        name.append(" - ");
        name.append(self.track.title().file_safe());
        name.append(".mp3");
        proof {
            assert(name@ =~= spec_filename_vw(
                self.spec_num_discs(),
                self.spec_num_tracks(),
                self.on_disc().number(),
                self.number(),
                self.definition().title.file_safe_text(),
            ));
        }
        name
    }

    /// Where the track should be: its canonical file name in its disc's folder.
    pub fn canonical_path(&self) -> (r: Vec<String>)
        ensures
            string_views(r@) == spec_disc_path(
                self.on_disc().owner().root(),
                self.spec_num_discs(),
                self.on_disc().number(),
            ).push(self.spec_canonical()),
    {
        let mut parts = self.disc.path();
        let name = self.canonical_filename();
        proof {
            assert(string_views(parts@.push(name)) =~= string_views(parts@).push(name@));
        }
        parts.push(name);
        parts
    }

    /// Where the track is found. A file name that the definition gives is
    /// taken from the album's folder; the canonical one from the disc's.
    pub fn path(&self) -> (r: Vec<String>)
        ensures
            string_views(r@) == match self.definition().filename {
                Some(name) => seq![self.on_disc().owner().root(), name],
                None => spec_disc_path(
                    self.on_disc().owner().root(),
                    self.spec_num_discs(),
                    self.on_disc().number(),
                ).push(self.spec_canonical()),
            },
    {
        match self.track.filename() {
            Some(name) => {
                let mut parts = self.disc.album().path();
                let owned = String::from_str(name);
                proof {
                    assert(string_views(parts@.push(owned)) =~= string_views(parts@).push(owned@));
                }
                parts.push(owned);
                parts
            },
            None => self.canonical_path(),
        }
    }
}

/// A track without artists of its own has the album's artists, and then no
/// album artists are named beside them. A track with artists of its own has
/// exactly those, and where they differ from the album's, the album's
/// artists are named beside them.
pub proof fn lemma_artists_fall_back(track: TrackView, album: AlbumView)
    ensures
        track.artists is None ==> spec_artists(track, album) == album.artists
            && spec_album_artists(track, album) is None,
        track.artists matches Some(own) ==> spec_artists(track, album) == own,
        track.artists matches Some(own) && own != album.artists ==> spec_album_artists(
            track,
            album,
        ) == Some(album.artists),
{
}

/// A track that has no cover of its own, on a disc that has one, has the
/// cover of its disc.
pub proof fn lemma_track_cover_falls_back(track: Track<'_>, variant: Variant, image: Image)
    requires
        track.cover_cell(variant) == CellView::Resolved(None),
        track.on_disc().cover_cell(variant) == CellView::Resolved(Some(image)),
    ensures
        spec_chain_cover(track.cover_chain(variant)) == Some(image),
{
    let chain = track.cover_chain(variant);
    crate::cover::lemma_cover_falls_back(chain);
}

/// The file name of a track with its number in front, padded with zeros
/// to the width of the disc's number of tracks.
pub open spec fn spec_numbered_filename(
    num_tracks: nat,
    track_number: nat,
    title: Seq<char>,
) -> Seq<char> {
    spec_zero_padded(track_number, spec_num_digits(num_tracks)) + " - "@ + title + ".mp3"@
}

/// The file name for the car of a track that is held for changes. In an
/// album of one disc it is the numbered name; else the disc's and the
/// track's number stand in front, each padded to its own width.
pub open spec fn spec_numbered_filename_vw(
    num_discs: nat,
    num_tracks: nat,
    disc_number: nat,
    track_number: nat,
    title: Seq<char>,
) -> Seq<char> {
    if num_discs == 1 {
        spec_numbered_filename(num_tracks, track_number, title)
    } else {
        spec_zero_padded(disc_number, spec_num_digits(num_discs)) + "-"@ + spec_zero_padded(
            track_number,
            spec_num_digits(num_tracks),
        ) + " - "@ + title + ".mp3"@
    }
}

/// Whether two paths have the same components.
pub fn same_path(a: &Vec<String>, b: &Vec<String>) -> (r: bool)
    ensures
        r == (string_views(a@) == string_views(b@)),
{
    if a.len() != b.len() {
        proof {
            assert(string_views(a@).len() != string_views(b@).len());
        }
        return false;
    }
    let mut i: usize = 0;
    while i < a.len()
        invariant
            i <= a.len(),
            a.len() == b.len(),
            forall|j: int| 0 <= j < i ==> (#[trigger] a@[j])@ == b@[j]@,
        decreases a.len() - i,
    {
        if a[i] != b[i] {
            proof {
                assert(string_views(a@)[i as int] == a@[i as int]@);
                assert(string_views(b@)[i as int] == b@[i as int]@);
            }
            return false;
        }
        i = i + 1;
    }
    proof {
        assert(string_views(a@) =~= string_views(b@));
    }
    true
}

/// A track in its place, held for changes to its file. Its file always
/// carries the number of the track, also where it is the only track of the
/// only disc.
#[derive(Debug)]
pub struct TrackMut<'a> {
    disc: Disc<'a>,
    track: &'a mut raw::Track,
    /// The number of the track on its disc, counted from one.
    pub track_number: usize,
}

impl<'a> TrackMut<'a> {
    /// The track as the definition gives it.
    pub closed spec fn definition(&self) -> TrackView {
        self.track@
    }

    /// The disc that the track is on.
    pub closed spec fn on_disc(&self) -> Disc<'a> {
        self.disc
    }

    /// The number of the track on its disc, counted from one.
    pub closed spec fn number(&self) -> nat {
        self.track_number as nat
    }

    /// What the definition says of the album.
    pub open spec fn album_definition(&self) -> AlbumView {
        self.on_disc().owner().definition()
    }

    /// The number of discs of the album.
    pub open spec fn spec_num_discs(&self) -> nat {
        self.album_definition().discs.len()
    }

    /// The number of tracks on the disc.
    pub open spec fn spec_num_tracks(&self) -> nat {
        self.on_disc().definition().len()
    }

    /// The file name that the track should have.
    pub open spec fn spec_canonical(&self) -> Seq<char> {
        spec_numbered_filename(
            self.spec_num_tracks(),
            self.number(),
            self.definition().title.file_safe_text(),
        )
    }

    /// The components of the path where the track should be.
    pub open spec fn spec_canonical_path(&self) -> Seq<Seq<char>> {
        spec_disc_path(
            self.on_disc().owner().root(),
            self.spec_num_discs(),
            self.on_disc().number(),
        ).push(self.spec_canonical())
    }

    /// The components of the path where the track is found.
    pub open spec fn spec_path(&self) -> Seq<Seq<char>> {
        match self.definition().filename {
            Some(name) => seq![self.on_disc().owner().root(), name],
            None => self.spec_canonical_path(),
        }
    }

    /// A track in its place: the disc, the track and the track's number.
    pub fn new(disc: Disc<'a>, track: &'a mut raw::Track, track_number: usize) -> (t: TrackMut<'a>)
        ensures
            t.on_disc() == disc,
            t.definition() == old(track)@,
            t.number() == track_number,
    {
        TrackMut { disc, track, track_number }
    }

    /// The title of the track.
    pub fn title(&self) -> (r: &Text)
        ensures
            r@ == self.definition().title,
    {
        self.track.title()
    }

    /// The artists of the track: its own where it names any, else the album's.
    pub fn artists(&self) -> (r: &[Text])
        ensures
            text_views(r@) == spec_artists(self.definition(), self.album_definition()),
    {
        match self.track.artists() {
            Some(own) => own,
            None => self.disc.album().artists(),
        }
    }

    /// The artists of the track as one text, joined by commas. A single
    /// artist is handed out as it is, without a copy.
    pub fn artist(&self) -> (r: Cow<'_, Text>)
        ensures
            r@ == spec_comma_separated(spec_artists(self.definition(), self.album_definition())),
            spec_artists(self.definition(), self.album_definition()).len() == 1 ==> r is Borrowed,
    {
        comma_separated(self.artists())
    }

    /// The album's artists, where the track's artists differ from them.
    pub fn album_artists(&self) -> (r: Option<&[Text]>)
        ensures
            option_text_slice_view(r) == spec_album_artists(
                self.definition(),
                self.album_definition(),
            ),
    {
        let album_artists = self.disc.album().artists();
        if !texts_equal(self.artists(), album_artists) {
            Some(album_artists)
        } else {
            None
        }
    }

    /// The album's artists as one text, where the track's artists differ
    /// from them.
    pub fn album_artist(&self) -> (r: Option<Cow<'_, Text>>)
        ensures
            option_cow_view(r) == match spec_album_artists(
                self.definition(),
                self.album_definition(),
            ) {
                Some(artists) => Some(spec_comma_separated(artists)),
                None => None,
            },
    {
        match self.album_artists() {
            Some(artists) => Some(comma_separated(artists)),
            None => None,
        }
    }

    /// The year of the track: its own where it gives one, else the album's.
    pub fn year(&self) -> (r: Option<usize>)
        ensures
            r == spec_year(self.definition(), self.album_definition()),
    {
        match self.track.year() {
            Some(y) => Some(y),
            None => self.disc.album().year(),
        }
    }

    /// The genre of the track: its own where it gives one, else the album's.
    pub fn genre(&self) -> (r: Option<&Text>)
        ensures
            option_text_ref_view(r) == spec_genre(self.definition(), self.album_definition()),
    {
        match self.track.genre() {
            Some(g) => Some(g),
            None => self.disc.album().genre(),
        }
    }

    /// The comment on the track. The album has no say in it.
    pub fn comment(&self) -> (r: Option<&Text>)
        ensures
            option_text_ref_view(r) == self.definition().comment,
    {
        self.track.comment()
    }

    /// The lyrics of the track. The album has no say in them.
    pub fn lyrics(&self) -> (r: Option<&Text>)
        ensures
            option_text_ref_view(r) == self.definition().lyrics,
    {
        self.track.lyrics()
    }

    /// The album that the track belongs to.
    pub fn album(&self) -> (r: &Album)
        ensures
            *r == self.on_disc().owner(),
    {
        self.disc.album()
    }

    /// The disc that the track is on.
    pub fn disc(&self) -> (r: &Disc<'a>)
        ensures
            *r == self.on_disc(),
    {
        &self.disc
    }

    /// The file name that the track should have: its number, padded to the
    /// width of the disc's number of tracks, and its title.
    pub fn canonical_filename(&self) -> (r: String)
        ensures
            r@ == self.spec_canonical(),
    {
        let mut name = String::new();
        push_zero_padded(&mut name, self.track_number, num_digits(self.disc.num_tracks()));
        name.append(" - ");
        name.append(self.track.title().file_safe());
        name.append(".mp3");
        proof {
            assert(name@ =~= self.spec_canonical());
        }
        name
    }

    /// The file name under which the track is found: the one that the
    /// definition gives, else the canonical one.
    pub fn filename(&self) -> (r: Cow<'_, str>)
        ensures
            r@ == spec_filename(self.definition(), self.spec_canonical()),
            r is Borrowed == self.definition().filename is Some,
    {
        match self.track.filename() {
            Some(name) => Cow::Borrowed(name),
            None => Cow::Owned(self.canonical_filename()),
        }
    }

    /// The file name of the track for the car. The definition's own file
    /// name has no say in it.
    pub fn filename_vw(&self) -> (r: String)
        ensures
            r@ == spec_numbered_filename_vw(
                self.spec_num_discs(),
                self.spec_num_tracks(),
                self.on_disc().number(),
                self.number(),
                self.definition().title.file_safe_text(),
            ),
    {
        let num_discs = self.disc.album().num_discs();
        if num_discs == 1 {
            return self.canonical_filename();
        }
        let mut name = String::new();
        push_zero_padded(&mut name, self.disc.disc_number(), num_digits(num_discs));
        name.append("-");
        push_zero_padded(&mut name, self.track_number, num_digits(self.disc.num_tracks()));
        name.append(" - ");
        name.append(self.track.title().file_safe());
        name.append(".mp3");
        proof {
            assert(name@ =~= spec_numbered_filename_vw(
                self.spec_num_discs(),
                self.spec_num_tracks(),
                self.on_disc().number(),
                self.number(),
                self.definition().title.file_safe_text(),
            ));
        }
        name
    }

    /// Where the track should be: its canonical file name in its disc's folder.
    pub fn canonical_path(&self) -> (r: Vec<String>)
        ensures
            string_views(r@) == self.spec_canonical_path(),
    {
        let mut parts = self.disc.path();
        let name = self.canonical_filename();
        proof {
            assert(string_views(parts@.push(name)) =~= string_views(parts@).push(name@));
        }
        parts.push(name);
        parts
    }

    /// Where the track is found. A file name that the definition gives is
    /// taken from the album's folder; the canonical one from the disc's.
    pub fn path(&self) -> (r: Vec<String>)
        ensures
            string_views(r@) == self.spec_path(),
    {
        match self.track.filename() {
            Some(name) => {
                let mut parts = self.disc.album().path();
                let owned = String::from_str(name);
                proof {
                    assert(string_views(parts@.push(owned)) =~= string_views(parts@).push(owned@));
                }
                parts.push(owned);
                parts
            },
            None => self.canonical_path(),
        }
    }

    /// What is to be done so that the track's file is where it should be:
    /// nothing where it is there already, else the path where it is found
    /// and the path that it is to be moved to.
    pub fn rename(&self) -> (r: Option<(Vec<String>, Vec<String>)>)
        ensures
            r is None == (self.spec_path() == self.spec_canonical_path()),
            r matches Some(paths) ==> string_views(paths.0@) == self.spec_path() && string_views(
                paths.1@,
            ) == self.spec_canonical_path(),
    {
        let path = self.path();
        let canonical = self.canonical_path();
        if same_path(&path, &canonical) {
            None
        } else {
            Some((path, canonical))
        }
    }
}

} // verus!
