//! An album as the definition gives it.

use crate::raw::disc::FromYamlError as DiscError;
use crate::raw::disc::{spec_disc_from_yaml, spec_disc_yaml, Disc};
use crate::raw::track::{
    lemma_track_keys_differ, option_text_ref_view, option_text_view, push_optional_text,
    push_optional_year, spec_option_text_yaml, spec_option_year_yaml, spec_optional_entry,
    spec_optional_text, spec_optional_year, yaml_into_usize, TrackView,
};
use crate::text::FromYamlError as TextError;
use crate::text::{
    push_one_or_more, spec_one_or_more, spec_text_from_yaml, spec_text_yaml, with_detail, Text,
    TextView,
};
use crate::utils::{
    comma_separated, spec_comma_separated, spec_texts_from_hash, take_texts, text_views,
    ParseSingularOrPluralError,
};
use crate::yaml::{push_entry, push_item, represents, spec_get, take_key, Yaml, YamlView};
use std::borrow::Cow;
use vstd::prelude::*;
use vstd::string::StringExecFns;

verus! {

/// The views of a sequence of discs.
pub open spec fn disc_views(discs: Seq<Disc>) -> Seq<Seq<TrackView>> {
    discs.map_values(|d: Disc| d@)
}

/// An album: what the definition says of it as a whole, and its discs.
#[derive(Debug, PartialEq, Eq, Hash)]
pub struct Album {
    /// The title of the album.
    pub title: Text,
    /// The artists of the album. An empty list is a list like any other.
    pub artists: Vec<Text>,
    /// The year of the album.
    pub year: Option<usize>,
    /// The genre of the album.
    pub genre: Option<Text>,
    /// The discs of the album, in order. A disc's number is its place in
    /// this list, counted from one.
    pub discs: Vec<Disc>,
}

/// The mathematical value of an [`Album`].
pub struct AlbumView {
    /// The title.
    pub title: TextView,
    /// The artists.
    pub artists: Seq<TextView>,
    /// The year.
    pub year: Option<usize>,
    /// The genre.
    pub genre: Option<TextView>,
    /// The tracks of each disc.
    pub discs: Seq<Seq<TrackView>>,
}

impl AlbumView {
    /// An album of which only the title is known.
    pub open spec fn titled(title: TextView) -> AlbumView {
        AlbumView {
            title,
            artists: Seq::empty(),
            year: None,
            genre: None,
            discs: Seq::empty(),
        }
    }

    /// The number of tracks on the first `n` discs together.
    pub open spec fn tracks_before(self, n: int) -> nat
        decreases n,
    {
        if n <= 0 || n > self.discs.len() {
            0
        } else {
            self.tracks_before(n - 1) + self.discs[n - 1].len()
        }
    }

    /// The number of tracks on all discs together.
    pub open spec fn num_tracks(self) -> nat {
        self.tracks_before(self.discs.len() as int)
    }

    /// More discs hold no fewer tracks.
    pub proof fn lemma_tracks_before_grows(self, a: int, b: int)
        requires
            0 <= a <= b <= self.discs.len(),
        ensures
            self.tracks_before(a) <= self.tracks_before(b),
        decreases b - a,
    {
        if a < b {
            self.lemma_tracks_before_grows(a, b - 1);
        }
    }
}

impl View for Album {
    type V = AlbumView;

    open spec fn view(&self) -> AlbumView {
        AlbumView {
            title: self.title@,
            artists: text_views(self.artists@),
            year: self.year,
            genre: option_text_view(self.genre),
            discs: disc_views(self.discs@),
        }
    }
}

/// An error when reading an album from a definition.
#[derive(Debug, PartialEq, Eq)]
pub enum FromYamlError {
    /// The definition is not a hash.
    NotHash,
    /// The hash has no `title` key.
    MissingTitle,
    /// The title is no text.
    InvalidTitle(TextError),
    /// The hash has neither `artist` nor `artists`.
    MissingArtists,
    /// The value under `artists` is not an array.
    InvalidArtists(Yaml),
    /// An artist is no text.
    InvalidArtist(TextError),
    /// The value under `discs` is not an array.
    InvalidDiscs(Yaml),
    /// A disc could not be read.
    InvalidDisc(DiscError),
    /// The hash has neither `tracks` nor `discs`.
    MissingDiscOrTracks,
    /// The year is not an integer.
    InvalidYear(Yaml),
    /// The genre is no text.
    InvalidGenre(TextError),
}

/// The discs that an array of definitions stands for, or the error of the
/// first item that is no disc.
pub open spec fn spec_discs_from_items(items: Seq<Yaml>) -> Result<Seq<Seq<TrackView>>, DiscError>
    decreases items.len(),
{
    if items.len() == 0 {
        Ok(Seq::empty())
    } else {
        match spec_discs_from_items(items.drop_last()) {
            Err(e) => Err(e),
            Ok(discs) => match spec_disc_from_yaml(items.last()) {
                Ok(d) => Ok(discs.push(d)),
                Err(e) => Err(e),
            },
        }
    }
}

/// The discs that a hash gives: under `tracks` the tracks of the only disc,
/// which is looked at first, or under `discs` an array of discs.
pub open spec fn spec_discs_from_hash(hash: Seq<(Yaml, Yaml)>) -> Result<
    Seq<Seq<TrackView>>,
    ParseSingularOrPluralError<DiscError>,
> {
    match spec_get(hash, "tracks"@) {
        Some(one) => match spec_disc_from_yaml(one) {
            Ok(d) => Ok(seq![d]),
            Err(e) => Err(ParseSingularOrPluralError::InvalidValue(e)),
        },
        None => match spec_get(hash, "discs"@) {
            None => Err(ParseSingularOrPluralError::KeysNotFound),
            Some(Yaml::Array(items)) => match spec_discs_from_items(items@) {
                Ok(discs) => Ok(discs),
                Err(e) => Err(ParseSingularOrPluralError::InvalidValue(e)),
            },
            Some(other) => Err(ParseSingularOrPluralError::NotAnArray(other)),
        },
    }
}

/// The album that a definition stands for. The fields are read in the order
/// title, artists, discs, year, genre, and the first that cannot be read
/// decides the error.
pub open spec fn spec_album_from_yaml(yaml: Yaml) -> Result<AlbumView, FromYamlError> {
    match yaml {
        Yaml::Hash(h) => match spec_get(h@, "title"@) {
            None => Err(FromYamlError::MissingTitle),
            Some(y) => match spec_text_from_yaml(y) {
                Err(e) => Err(FromYamlError::InvalidTitle(e)),
                Ok(title) => match spec_texts_from_hash(h@, "artist"@, "artists"@) {
                    Err(ParseSingularOrPluralError::KeysNotFound) => Err(
                        FromYamlError::MissingArtists,
                    ),
                    Err(ParseSingularOrPluralError::NotAnArray(v)) => Err(
                        FromYamlError::InvalidArtists(v),
                    ),
                    Err(ParseSingularOrPluralError::InvalidValue(e)) => Err(
                        FromYamlError::InvalidArtist(e),
                    ),
                    Ok(artists) => match spec_discs_from_hash(h@) {
                        Err(ParseSingularOrPluralError::KeysNotFound) => Err(
                            FromYamlError::MissingDiscOrTracks,
                        ),
                        Err(ParseSingularOrPluralError::NotAnArray(v)) => Err(
                            FromYamlError::InvalidDiscs(v),
                        ),
                        Err(ParseSingularOrPluralError::InvalidValue(e)) => Err(
                            FromYamlError::InvalidDisc(e),
                        ),
                        Ok(discs) => match spec_optional_year(h@) {
                            Err(v) => Err(FromYamlError::InvalidYear(v)),
                            Ok(year) => match spec_optional_text(h@, "genre"@) {
                                Err(e) => Err(FromYamlError::InvalidGenre(e)),
                                Ok(genre) => Ok(AlbumView { title, artists, year, genre, discs }),
                            },
                        },
                    },
                },
            },
        },
        _ => Err(FromYamlError::NotHash),
    }
}

/// The view of an album that may have failed to be read.
pub open spec fn album_result_view<E>(r: Result<Album, E>) -> Result<AlbumView, E> {
    match r {
        Ok(a) => Ok(a@),
        Err(e) => Err(e),
    }
}

/// The views of a list of discs that may have failed to be read.
pub open spec fn discs_result_view<E>(r: Result<Vec<Disc>, E>) -> Result<Seq<Seq<TrackView>>, E> {
    match r {
        Ok(v) => Ok(disc_views(v@)),
        Err(e) => Err(e),
    }
}

/// Once a prefix of an array fails to be read, the array fails in the same way.
pub proof fn lemma_discs_error_stays(items: Seq<Yaml>, n: int)
    requires
        0 <= n <= items.len(),
        spec_discs_from_items(items.take(n)) is Err,
    ensures
        spec_discs_from_items(items) == spec_discs_from_items(items.take(n)),
    decreases items.len() - n,
{
    if n < items.len() {
        assert(items.take(n + 1).drop_last() =~= items.take(n));
        lemma_discs_error_stays(items, n + 1);
    } else {
        assert(items.take(n) =~= items);
    }
}

/// The keys of an album definition differ from each other.
pub proof fn lemma_album_keys_differ()
    ensures
        "tracks"@ != "discs"@,
        "tracks"@ != "title"@,
        "tracks"@ != "artist"@,
        "tracks"@ != "artists"@,
        "tracks"@ != "year"@,
        "tracks"@ != "genre"@,
        "discs"@ != "title"@,
        "discs"@ != "artist"@,
        "discs"@ != "artists"@,
        "discs"@ != "year"@,
        "discs"@ != "genre"@,
{
    reveal_strlit("tracks");
    reveal_strlit("discs");
    reveal_strlit("title");
    reveal_strlit("artist");
    reveal_strlit("artists");
    reveal_strlit("year");
    reveal_strlit("genre");
    assert("tracks"@[1] == 'r');
    assert("title"@[1] == 'i');
    assert("artist"@[0] == 'a');
    assert("artists"@[0] == 'a');
    assert("tracks"@[0] == 't');
    assert("discs"@[0] == 'd');
    assert("year"@.len() == 4);
    assert("title"@.len() == 5);
    assert("genre"@[0] == 'g');
}

/// Reads every item of an array as a disc; the first item that is no disc
/// decides the error.
pub fn discs_from_items(items: Vec<Yaml>) -> (r: Result<Vec<Disc>, DiscError>)
    ensures
        discs_result_view(r) == spec_discs_from_items(items@),
{
    let mut discs: Vec<Disc> = Vec::new();
    proof {
        assert(disc_views(discs@) =~= Seq::<Seq<TrackView>>::empty());
        assert(items@.take(0).len() == 0);
    }
    for item in it: items
        invariant
            it.seq() == items@,
            spec_discs_from_items(items@.take(it.index() as int)) == Ok::<
                Seq<Seq<TrackView>>,
                DiscError,
            >(disc_views(discs@)),
    {
        let ghost before = it.index() as int;
        proof {
            assert(items@.take(before + 1).drop_last() =~= items@.take(before));
            assert(items@.take(before + 1).last() == item);
        }
        match Disc::from_yaml(item) {
            Ok(d) => {
                proof {
                    assert(disc_views(discs@.push(d)) =~= disc_views(discs@).push(d@));
                }
                discs.push(d);
            },
            Err(e) => {
                proof {
                    lemma_discs_error_stays(items@, before + 1);
                }
                return Err(e);
            },
        }
    }
    proof {
        assert(items@.take(items@.len() as int) =~= items@);
    }
    Ok(discs)
}

/// Takes the discs that a hash gives under `tracks` or `discs`. What the
/// hash holds for other keys stays as it was.
pub fn take_discs(hash: &mut Vec<(Yaml, Yaml)>) -> (r: Result<
    Vec<Disc>,
    ParseSingularOrPluralError<DiscError>,
>)
    ensures
        discs_result_view(r) == spec_discs_from_hash(old(hash)@),
        forall|other: Seq<char>|
            other != "tracks"@ && other != "discs"@ ==> #[trigger] spec_get(final(hash)@, other)
                == spec_get(old(hash)@, other),
{
    match take_key(hash, "tracks") {
        Some(one) => match Disc::from_yaml(one) {
            Ok(d) => {
                let mut discs: Vec<Disc> = Vec::new();
                discs.push(d);
                proof {
                    assert(disc_views(discs@) =~= seq![d@]);
                }
                Ok(discs)
            },
            Err(e) => Err(ParseSingularOrPluralError::InvalidValue(e)),
        },
        None => match take_key(hash, "discs") {
            None => Err(ParseSingularOrPluralError::KeysNotFound),
            Some(Yaml::Array(items)) => match discs_from_items(items) {
                Ok(discs) => Ok(discs),
                Err(e) => Err(ParseSingularOrPluralError::InvalidValue(e)),
            },
            Some(other) => Err(ParseSingularOrPluralError::NotAnArray(other)),
        },
    }
}

impl Album {
    /// Create a new album with only essential information.
    pub fn new(title: Text) -> (a: Album)
        ensures
            a@ == AlbumView::titled(title@),
    {
        let artists: Vec<Text> = Vec::new();
        let discs: Vec<Disc> = Vec::new();
        proof {
            assert(text_views(artists@) =~= Seq::<TextView>::empty());
            assert(disc_views(discs@) =~= Seq::<Seq<TrackView>>::empty());
        }
        Album { title, artists, year: None, genre: None, discs }
    }

    /// Reads an album from a definition: a hash with a title, the artists
    /// under `artist` or `artists`, the tracks under `tracks` or `discs`, and
    /// optionally a year and a genre. Nothing is built unless all of it reads.
    pub fn from_yaml(yaml: Yaml) -> (r: Result<Album, FromYamlError>)
        ensures
            album_result_view(r) == spec_album_from_yaml(yaml),
    {
        let mut hash = match yaml.into_hash() {
            Some(h) => h,
            None => {
                return Err(FromYamlError::NotHash);
            },
        };
        let ghost given = hash@;
        proof {
            lemma_track_keys_differ();
            lemma_album_keys_differ();
        }
        let title = match take_key(&mut hash, "title") {
            None => {
                return Err(FromYamlError::MissingTitle);
            },
            Some(y) => match Text::from_yaml(y) {
                Ok(t) => t,
                Err(e) => {
                    return Err(FromYamlError::InvalidTitle(e));
                },
            },
        };
        let artists = match take_texts(&mut hash, "artist", "artists") {
            Ok(texts) => texts,
            Err(ParseSingularOrPluralError::KeysNotFound) => {
                return Err(FromYamlError::MissingArtists);
            },
            Err(ParseSingularOrPluralError::NotAnArray(v)) => {
                return Err(FromYamlError::InvalidArtists(v));
            },
            Err(ParseSingularOrPluralError::InvalidValue(e)) => {
                return Err(FromYamlError::InvalidArtist(e));
            },
        };
        let discs = match take_discs(&mut hash) {
            Ok(discs) => discs,
            Err(ParseSingularOrPluralError::KeysNotFound) => {
                return Err(FromYamlError::MissingDiscOrTracks);
            },
            Err(ParseSingularOrPluralError::NotAnArray(v)) => {
                return Err(FromYamlError::InvalidDiscs(v));
            },
            Err(ParseSingularOrPluralError::InvalidValue(e)) => {
                return Err(FromYamlError::InvalidDisc(e));
            },
        };
        assert(spec_discs_from_hash(given) == Ok::<
            Seq<Seq<TrackView>>,
            ParseSingularOrPluralError<DiscError>,
        >(disc_views(discs@)));
        let year = match take_key(&mut hash, "year") {
            None => None,
            Some(y) => match yaml_into_usize(y) {
                Ok(n) => Some(n),
                Err(v) => {
                    return Err(FromYamlError::InvalidYear(v));
                },
            },
        };
        assert(spec_optional_year(given) == Ok::<Option<usize>, Yaml>(year));
        let genre = match take_key(&mut hash, "genre") {
            None => None,
            Some(y) => match Text::from_yaml(y) {
                Ok(t) => Some(t),
                Err(e) => {
                    return Err(FromYamlError::InvalidGenre(e));
                },
            },
        };
        Ok(Album { title, artists, year, genre, discs })
    }

    /// The artists of the album as one text, joined by commas. A single
    /// artist is handed out as it is, without a copy.
    pub fn artist(&self) -> (r: Cow<'_, Text>)
        ensures
            r@ == spec_comma_separated(self@.artists),
            self@.artists.len() == 1 ==> r is Borrowed,
    {
        comma_separated(self.artists.as_slice())
    }

    /// The genre of the album.
    pub fn genre(&self) -> (r: Option<&Text>)
        ensures
            option_text_ref_view(r) == self@.genre,
    {
        match &self.genre {
            Some(t) => Some(t),
            None => None,
        }
    }

    /// The number of discs of the album.
    pub fn num_discs(&self) -> (n: usize)
        ensures
            n == self@.discs.len(),
    {
        self.discs.len()
    }

    /// Adds an artist to the album.
    pub fn push_artist(&mut self, artist: Text)
        ensures
            final(self)@ == (AlbumView { artists: old(self)@.artists.push(artist@), ..old(self)@ }),
    {
        proof {
            assert(text_views(self.artists@.push(artist)) =~= text_views(self.artists@).push(
                artist@,
            ));
        }
        self.artists.push(artist);
    }

    /// The album with one more artist.
    pub fn with_artist(self, artist: Text) -> (a: Album)
        ensures
            a@ == (AlbumView { artists: self@.artists.push(artist@), ..self@ }),
    {
        let mut a = self;
        a.push_artist(artist);
        a
    }

    /// Gives the album a year.
    pub fn set_year(&mut self, year: usize)
        ensures
            final(self)@ == (AlbumView { year: Some(year), ..old(self)@ }),
    {
        self.year = Some(year);
    }

    /// Gives the album a genre.
    pub fn set_genre(&mut self, genre: Text)
        ensures
            final(self)@ == (AlbumView { genre: Some(genre@), ..old(self)@ }),
    {
        self.genre = Some(genre);
    }

    /// Adds a disc at the end of the album.
    pub fn push_disc(&mut self, disc: Disc)
        ensures
            final(self)@ == (AlbumView { discs: old(self)@.discs.push(disc@), ..old(self)@ }),
    {
        proof {
            assert(disc_views(self.discs@.push(disc)) =~= disc_views(self.discs@).push(disc@));
        }
        self.discs.push(disc);
    }

    /// The album with a disc added at its end.
    pub fn with_disc(self, disc: Disc) -> (a: Album)
        ensures
            a@ == (AlbumView { discs: self@.discs.push(disc@), ..self@ }),
    {
        let mut a = self;
        a.push_disc(disc);
        a
    }

    /// The album with its title replaced.
    pub fn with_title(self, title: Text) -> (a: Album)
        ensures
            a@ == (AlbumView { title: title@, ..self@ }),
    {
        let mut a = self;
        a.title = title;
        a
    }

    /// The album with its artists replaced.
    pub fn with_artists(self, artists: Vec<Text>) -> (a: Album)
        ensures
            a@ == (AlbumView { artists: text_views(artists@), ..self@ }),
    {
        let mut a = self;
        a.artists = artists;
        a
    }

    /// The album with its year replaced.
    pub fn with_year(self, year: Option<usize>) -> (a: Album)
        ensures
            a@ == (AlbumView { year, ..self@ }),
    {
        let mut a = self;
        a.year = year;
        a
    }

    /// The album with its genre replaced.
    pub fn with_genre(self, genre: Option<Text>) -> (a: Album)
        ensures
            a@ == (AlbumView { genre: option_text_view(genre), ..self@ }),
    {
        let mut a = self;
        a.genre = genre;
        a
    }

    /// The album with its discs replaced.
    pub fn with_discs(self, discs: Vec<Disc>) -> (a: Album)
        ensures
            a@ == (AlbumView { discs: disc_views(discs@), ..self@ }),
    {
        let mut a = self;
        a.discs = discs;
        a
    }
}

/// The definitions of a list of discs, as an array.
pub open spec fn spec_discs_yaml(discs: Seq<Seq<TrackView>>) -> YamlView {
    YamlView::Array(Seq::new(discs.len(), |i: int| spec_disc_yaml(discs[i])))
}

/// The entry of a hash for the discs of an album: the tracks of the only
/// disc under `tracks`, any other number of discs under `discs`.
pub open spec fn spec_discs_entry(discs: Seq<Seq<TrackView>>) -> (YamlView, YamlView) {
    if discs.len() == 1 {
        (YamlView::String("tracks"@), spec_disc_yaml(discs[0]))
    } else {
        (YamlView::String("discs"@), spec_discs_yaml(discs))
    }
}

/// The definition of an album: a hash of the title, the artists, the year
/// and the genre where the album has them, and the discs.
pub open spec fn spec_album_yaml(album: AlbumView) -> YamlView {
    YamlView::Hash(
        seq![
            (YamlView::String("title"@), spec_text_yaml(album.title)),
            spec_one_or_more(album.artists, "artist"@, "artists"@),
        ] + spec_optional_entry("year"@, spec_option_year_yaml(album.year)) + spec_optional_entry(
            "genre"@,
            spec_option_text_yaml(album.genre),
        ) + seq![spec_discs_entry(album.discs)],
    )
}

impl Album {
    /// Writes the album as a definition.
    pub fn to_yaml(&self) -> (r: Yaml)
        ensures
            represents(r, spec_album_yaml(self@)),
    {
        let mut entries: Vec<(Yaml, Yaml)> = Vec::new();
        let ghost mut views: Seq<(YamlView, YamlView)> = Seq::empty();
        let title = self.title.to_yaml();
        push_entry(&mut entries, "title", title, Ghost(views), Ghost(spec_text_yaml(self.title@)));
        proof {
            views = views.push((YamlView::String("title"@), spec_text_yaml(self.title@)));
        }
        push_one_or_more(&mut entries, self.artists.as_slice(), "artist", "artists", Ghost(views));
        proof {
            views = views.push(spec_one_or_more(self@.artists, "artist"@, "artists"@));
            assert(views =~= seq![
                (YamlView::String("title"@), spec_text_yaml(self@.title)),
                spec_one_or_more(self@.artists, "artist"@, "artists"@),
            ]);
        }
        push_optional_year(&mut entries, self.year, Ghost(views));
        proof {
            views = views + spec_optional_entry("year"@, spec_option_year_yaml(self@.year));
        }
        push_optional_text(&mut entries, "genre", self.genre(), Ghost(views));
        proof {
            views = views + spec_optional_entry("genre"@, spec_option_text_yaml(self@.genre));
        }
        if self.discs.len() == 1 {
            let only = self.discs[0].to_yaml();
            proof {
                assert(self@.discs[0] == self.discs@[0]@);
            }
            push_entry(
                &mut entries,
                "tracks",
                only,
                Ghost(views),
                Ghost(spec_disc_yaml(self@.discs[0])),
            );
        } else {
            let mut items: Vec<Yaml> = Vec::new();
            let ghost all = self@.discs;
            let ghost mut item_views: Seq<YamlView> = Seq::empty();
            let mut i: usize = 0;
            while i < self.discs.len()
                invariant
                    i <= self.discs.len(),
                    all == disc_views(self.discs@),
                    item_views == Seq::new(i as nat, |k: int| spec_disc_yaml(all[k])),
                    represents(Yaml::Array(items), YamlView::Array(item_views)),
                decreases self.discs.len() - i,
            {
                let item = self.discs[i].to_yaml();
                push_item(
                    &mut items,
                    item,
                    Ghost(item_views),
                    Ghost(spec_disc_yaml(all[i as int])),
                );
                proof {
                    item_views = item_views.push(spec_disc_yaml(all[i as int]));
                    assert(item_views =~= Seq::new(
                        (i + 1) as nat,
                        |k: int| spec_disc_yaml(all[k]),
                    ));
                }
                i = i + 1;
            }
            push_entry(
                &mut entries,
                "discs",
                Yaml::Array(items),
                Ghost(views),
                Ghost(spec_discs_yaml(all)),
            );
        }
        proof {
            assert(views.push(spec_discs_entry(self@.discs)) =~= views + seq![
                spec_discs_entry(self@.discs),
            ]);
        }
        Yaml::Hash(entries)
    }
}

impl FromYamlError {
    /// What is shown for the error.
    pub open spec fn spec_message(self) -> Seq<char> {
        match self {
            FromYamlError::NotHash => "album must be a hash"@,
            FromYamlError::MissingTitle => "missing \"title\""@,
            FromYamlError::InvalidTitle(e) => "invalid title"@ + ": "@ + e.spec_message(),
            FromYamlError::MissingArtists => "missing \"artists\""@,
            FromYamlError::InvalidArtists(_) => "invalid artists"@,
            FromYamlError::InvalidArtist(e) => "invalid artist"@ + ": "@ + e.spec_message(),
            FromYamlError::InvalidDiscs(_) => "invalid discs"@,
            FromYamlError::InvalidDisc(e) => "invalid disc"@ + ": "@ + e.spec_message(),
            FromYamlError::MissingDiscOrTracks => "missing \"discs\" or \"tracks\""@,
            FromYamlError::InvalidYear(_) => "invalid year"@,
            FromYamlError::InvalidGenre(e) => "invalid genre"@ + ": "@ + e.spec_message(),
        }
    }

    /// What is shown for the error.
    pub fn message(&self) -> (r: String)
        ensures
            r@ == self.spec_message(),
    {
        match self {
            FromYamlError::NotHash => String::from_str("album must be a hash"),
            FromYamlError::MissingTitle => String::from_str("missing \"title\""),
            FromYamlError::InvalidTitle(e) => with_detail("invalid title", e.message().as_str()),
            FromYamlError::MissingArtists => String::from_str("missing \"artists\""),
            FromYamlError::InvalidArtists(_) => String::from_str("invalid artists"),
            FromYamlError::InvalidArtist(e) => with_detail("invalid artist", e.message().as_str()),
            FromYamlError::InvalidDiscs(_) => String::from_str("invalid discs"),
            FromYamlError::InvalidDisc(e) => with_detail("invalid disc", e.message().as_str()),
            FromYamlError::MissingDiscOrTracks => String::from_str(
                "missing \"discs\" or \"tracks\"",
            ),
            FromYamlError::InvalidYear(_) => String::from_str("invalid year"),
            FromYamlError::InvalidGenre(e) => with_detail("invalid genre", e.message().as_str()),
        }
    }
}

} // verus!
