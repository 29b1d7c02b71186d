//! A track as the definition gives it.

use crate::text::FromYamlError as TextError;
use crate::text::{
    push_one_or_more, spec_one_or_more, spec_text_from_yaml, spec_text_yaml, with_detail, Text,
    TextView,
};
use vstd::string::StringExecFns;
use crate::utils::{
    spec_texts_from_hash, spec_texts_from_items, take_texts, text_views, texts_from_items,
    ParseSingularOrPluralError,
};
use crate::yaml::{
    push_entry, represents, spec_get, string_yaml, take_key, Yaml, YamlView,
};
use vstd::prelude::*;

verus! {

/// The view of an optional text.
pub open spec fn option_text_view(o: Option<Text>) -> Option<TextView> {
    match o {
        Some(t) => Some(t@),
        None => None,
    }
}

/// The view of an optional borrowed text.
pub open spec fn option_text_ref_view(o: Option<&Text>) -> Option<TextView> {
    match o {
        Some(t) => Some(t@),
        None => None,
    }
}

/// The view of an optional list of texts.
pub open spec fn option_texts_view(o: Option<Vec<Text>>) -> Option<Seq<TextView>> {
    match o {
        Some(v) => Some(text_views(v@)),
        None => None,
    }
}

/// The view of an optional borrowed list of texts.
pub open spec fn option_text_slice_view(o: Option<&[Text]>) -> Option<Seq<TextView>> {
    match o {
        Some(v) => Some(text_views(v@)),
        None => None,
    }
}

/// The view of an optional string slice.
pub open spec fn option_filename_view(o: Option<&str>) -> Option<Seq<char>> {
    match o {
        Some(s) => Some(s@),
        None => None,
    }
}

/// A music track in an album.
#[derive(Debug, PartialEq, Eq, Hash)]
pub struct Track {
    /// The title of the track.
    pub title: Text,
    /// A list of artists that created the track, or None if the album's artists should be used.
    artists: Option<Vec<Text>>,
    /// The year the track was created, or None if the album's year should be used.
    pub year: Option<usize>,
    /// The genre of the track, or None if the album's genre should be used.
    genre: Option<Text>,
    /// Any comments on the track.
    comment: Option<Text>,
    /// The track's lyrics.
    lyrics: Option<Text>,
    /// Artists a track features.
    featuring: Option<Vec<Text>>,
    /// The track's filename, if it isn't derived from the title.
    filename: Option<String>,
}

/// The mathematical value of a [`Track`].
pub struct TrackView {
    /// The title.
    pub title: TextView,
    /// The track's own artists, if it names any.
    pub artists: Option<Seq<TextView>>,
    /// The track's own year, if it gives one.
    pub year: Option<usize>,
    /// The track's own genre, if it gives one.
    pub genre: Option<TextView>,
    /// The comment.
    pub comment: Option<TextView>,
    /// The lyrics.
    pub lyrics: Option<TextView>,
    /// The featured artists.
    pub featuring: Option<Seq<TextView>>,
    /// The file name, where it is not derived from the title.
    pub filename: Option<Seq<char>>,
}

impl TrackView {
    /// A track of which only the title is known.
    pub open spec fn titled(title: TextView) -> TrackView {
        TrackView {
            title,
            artists: None,
            year: None,
            genre: None,
            comment: None,
            lyrics: None,
            featuring: None,
            filename: None,
        }
    }
}

impl View for Track {
    type V = TrackView;

    closed spec fn view(&self) -> TrackView {
        TrackView {
            title: self.title@,
            artists: option_texts_view(self.artists),
            year: self.year,
            genre: option_text_view(self.genre),
            comment: option_text_view(self.comment),
            lyrics: option_text_view(self.lyrics),
            featuring: option_texts_view(self.featuring),
            filename: crate::chars::option_view(self.filename),
        }
    }
}

impl Track {
    /// Create a new track with just the title set.
    pub fn new(title: Text) -> (t: Track)
        ensures
            t@ == TrackView::titled(title@),
    {
        Track {
            title,
            artists: None,
            year: None,
            genre: None,
            comment: None,
            lyrics: None,
            featuring: None,
            filename: None,
        }
    }

    /// The title of the track.
    pub fn title(&self) -> (r: &Text)
        ensures
            r@ == self@.title,
    {
        &self.title
    }

    /// The track's own artists, if it names any.
    pub fn artists(&self) -> (r: Option<&[Text]>)
        ensures
            option_text_slice_view(r) == self@.artists,
    {
        match &self.artists {
            Some(v) => Some(v.as_slice()),
            None => None,
        }
    }

    /// The track's own year, if it gives one.
    pub fn year(&self) -> (r: Option<usize>)
        ensures
            r == self@.year,
    {
        self.year
    }

    /// The track's own genre, if it gives one.
    pub fn genre(&self) -> (r: Option<&Text>)
        ensures
            option_text_ref_view(r) == self@.genre,
    {
        match &self.genre {
            Some(t) => Some(t),
            None => None,
        }
    }

    /// The comment on the track.
    pub fn comment(&self) -> (r: Option<&Text>)
        ensures
            option_text_ref_view(r) == self@.comment,
    {
        match &self.comment {
            Some(t) => Some(t),
            None => None,
        }
    }

    /// The lyrics of the track.
    pub fn lyrics(&self) -> (r: Option<&Text>)
        ensures
            option_text_ref_view(r) == self@.lyrics,
    {
        match &self.lyrics {
            Some(t) => Some(t),
            None => None,
        }
    }

    /// The artists that the track features.
    pub fn featuring(&self) -> (r: Option<&[Text]>)
        ensures
            option_text_slice_view(r) == self@.featuring,
    {
        match &self.featuring {
            Some(v) => Some(v.as_slice()),
            None => None,
        }
    }

    /// The track's file name, where it is not derived from the title.
    pub fn filename(&self) -> (r: Option<&str>)
        ensures
            option_filename_view(r) == self@.filename,
    {
        match &self.filename {
            Some(s) => Some(s.as_str()),
            None => None,
        }
    }

    /// Adds an artist to the track's own artists, which begin with this
    /// artist where the track had none of its own.
    pub fn push_artist(&mut self, artist: Text)
        ensures
            final(self)@ == (TrackView {
                artists: Some(
                    match old(self)@.artists {
                        Some(own) => own.push(artist@),
                        None => seq![artist@],
                    },
                ),
                ..old(self)@
            }),
    {
        let mut own: Option<Vec<Text>> = None;
        core::mem::swap(&mut self.artists, &mut own);
        let mut list = match own {
            Some(list) => list,
            None => Vec::new(),
        };
        proof {
            assert(text_views(list@.push(artist)) =~= text_views(list@).push(artist@));
            if old(self).artists is None {
                assert(text_views(list@).push(artist@) =~= seq![artist@]);
            }
        }
        list.push(artist);
        self.artists = Some(list);
    }

    /// The track with one more artist of its own.
    pub fn with_artist(self, artist: Text) -> (t: Track)
        ensures
            t@ == (TrackView {
                artists: Some(
                    match self@.artists {
                        Some(own) => own.push(artist@),
                        None => seq![artist@],
                    },
                ),
                ..self@
            }),
    {
        let mut t = self;
        t.push_artist(artist);
        t
    }

    /// Gives the track a year of its own.
    pub fn set_year(&mut self, year: usize)
        ensures
            final(self)@ == (TrackView { year: Some(year), ..old(self)@ }),
    {
        self.year = Some(year);
    }

    /// Gives the track a genre of its own.
    pub fn set_genre(&mut self, genre: Text)
        ensures
            final(self)@ == (TrackView { genre: Some(genre@), ..old(self)@ }),
    {
        self.genre = Some(genre);
    }

    /// Gives the track a comment.
    pub fn set_comment(&mut self, comment: Text)
        ensures
            final(self)@ == (TrackView { comment: Some(comment@), ..old(self)@ }),
    {
        self.comment = Some(comment);
    }

    /// Gives the track lyrics.
    pub fn set_lyrics(&mut self, lyrics: Text)
        ensures
            final(self)@ == (TrackView { lyrics: Some(lyrics@), ..old(self)@ }),
    {
        self.lyrics = Some(lyrics);
    }

    /// The track with its artists replaced.
    pub fn with_artists(self, artists: Option<Vec<Text>>) -> (t: Track)
        ensures
            t@ == (TrackView { artists: option_texts_view(artists), ..self@ }),
    {
        let mut t = self;
        t.artists = artists;
        t
    }

    /// The track with its year replaced.
    pub fn with_year(self, year: Option<usize>) -> (t: Track)
        ensures
            t@ == (TrackView { year, ..self@ }),
    {
        let mut t = self;
        t.year = year;
        t
    }

    /// The track with its genre replaced.
    pub fn with_genre(self, genre: Option<Text>) -> (t: Track)
        ensures
            t@ == (TrackView { genre: option_text_view(genre), ..self@ }),
    {
        let mut t = self;
        t.genre = genre;
        t
    }

    /// The track with a comment.
    pub fn with_comment(self, comment: Text) -> (t: Track)
        ensures
            t@ == (TrackView { comment: Some(comment@), ..self@ }),
    {
        let mut t = self;
        t.comment = Some(comment);
        t
    }

    /// The track with lyrics.
    pub fn with_lyrics(self, lyrics: Text) -> (t: Track)
        ensures
            t@ == (TrackView { lyrics: Some(lyrics@), ..self@ }),
    {
        let mut t = self;
        t.lyrics = Some(lyrics);
        t
    }

    /// The track with its featured artists replaced.
    pub fn with_featuring(self, featuring: Option<Vec<Text>>) -> (t: Track)
        ensures
            t@ == (TrackView { featuring: option_texts_view(featuring), ..self@ }),
    {
        let mut t = self;
        t.featuring = featuring;
        t
    }

    /// The track with its file name replaced.
    pub fn with_filename(self, filename: Option<String>) -> (t: Track)
        ensures
            t@ == (TrackView { filename: crate::chars::option_view(filename), ..self@ }),
    {
        let mut t = self;
        t.filename = filename;
        t
    }
}

/// An error when reading a track from a definition.
#[derive(Debug, PartialEq, Eq)]
pub enum FromYamlError {
    /// The hash has no `title` key.
    MissingTitle,
    /// The title is no text.
    InvalidTitle(TextError),
    /// The value under `artists` is not an array.
    InvalidArtists(Yaml),
    /// An artist is no text.
    InvalidArtist(TextError),
    /// The year is not an integer.
    InvalidYear(Yaml),
    /// The genre is no text.
    InvalidGenre(TextError),
    /// The comment is no text.
    InvalidComment(TextError),
    /// The lyrics are no text.
    InvalidLyrics(TextError),
    /// A featured artist is no text.
    InvalidFeaturing(TextError),
    /// The file name is not a string.
    InvalidFilename(Yaml),
    /// The definition is neither a string nor a hash.
    InvalidTrack(Yaml),
}

/// The year that a value stands for: an integer that is not negative and
/// fits an unsigned number. Any other value is handed back.
pub open spec fn spec_yaml_into_usize(yaml: Yaml) -> Result<usize, Yaml> {
    match yaml {
        Yaml::Integer(n) => if 0 <= n <= usize::MAX {
            Ok(n as usize)
        } else {
            Err(yaml)
        },
        other => Err(other),
    }
}

/// Reads a year: an integer that is not negative and fits an unsigned
/// number.
pub fn yaml_into_usize(yaml: Yaml) -> (r: Result<usize, Yaml>)
    ensures
        r == spec_yaml_into_usize(yaml),
{
    match yaml {
        Yaml::Integer(n) => {
            if n >= 0 && n as u64 <= usize::MAX as u64 {
                Ok(n as usize)
            } else {
                Err(Yaml::Integer(n))
            }
        },
        other => Err(other),
    }
}

/// The text that a hash may give under `key`.
pub open spec fn spec_optional_text(hash: Seq<(Yaml, Yaml)>, key: Seq<char>) -> Result<
    Option<TextView>,
    TextError,
> {
    match spec_get(hash, key) {
        None => Ok(None),
        Some(y) => match spec_text_from_yaml(y) {
            Ok(t) => Ok(Some(t)),
            Err(e) => Err(e),
        },
    }
}

/// The year that a hash may give under `year`.
pub open spec fn spec_optional_year(hash: Seq<(Yaml, Yaml)>) -> Result<Option<usize>, Yaml> {
    match spec_get(hash, "year"@) {
        None => Ok(None),
        Some(y) => match spec_yaml_into_usize(y) {
            Ok(n) => Ok(Some(n)),
            Err(e) => Err(e),
        },
    }
}

/// The featured artists that a hash may give under `featuring`: one text, or
/// an array of texts.
pub open spec fn spec_featuring(hash: Seq<(Yaml, Yaml)>) -> Result<
    Option<Seq<TextView>>,
    TextError,
> {
    match spec_get(hash, "featuring"@) {
        None => Ok(None),
        Some(Yaml::Array(items)) => match spec_texts_from_items(items@) {
            Ok(texts) => Ok(Some(texts)),
            Err(e) => Err(e),
        },
        Some(one) => match spec_text_from_yaml(one) {
            Ok(t) => Ok(Some(seq![t])),
            Err(e) => Err(e),
        },
    }
}

/// The file name that a hash may give under `filename`.
pub open spec fn spec_filename(hash: Seq<(Yaml, Yaml)>) -> Result<Option<Seq<char>>, Yaml> {
    match spec_get(hash, "filename"@) {
        None => Ok(None),
        Some(Yaml::String(s)) => Ok(Some(s@)),
        Some(other) => Err(other),
    }
}

/// The artists that a hash may give under `artist` or `artists`.
pub open spec fn spec_track_artists(hash: Seq<(Yaml, Yaml)>) -> Result<
    Option<Seq<TextView>>,
    FromYamlError,
> {
    match spec_texts_from_hash(hash, "artist"@, "artists"@) {
        Ok(texts) => Ok(Some(texts)),
        Err(ParseSingularOrPluralError::KeysNotFound) => Ok(None),
        Err(ParseSingularOrPluralError::NotAnArray(v)) => Err(FromYamlError::InvalidArtists(v)),
        Err(ParseSingularOrPluralError::InvalidValue(e)) => Err(FromYamlError::InvalidArtist(e)),
    }
}

/// The track that a hash stands for. The fields are read in the order
/// title, artists, year, genre, comment, lyrics, featuring, file name, and
/// the first that cannot be read decides the error.
pub open spec fn spec_track_from_hash(hash: Seq<(Yaml, Yaml)>) -> Result<TrackView, FromYamlError> {
    match spec_get(hash, "title"@) {
        None => Err(FromYamlError::MissingTitle),
        Some(y) => match spec_text_from_yaml(y) {
            Err(e) => Err(FromYamlError::InvalidTitle(e)),
            Ok(title) => match spec_track_artists(hash) {
                Err(e) => Err(e),
                Ok(artists) => match spec_optional_year(hash) {
                    Err(v) => Err(FromYamlError::InvalidYear(v)),
                    Ok(year) => match spec_optional_text(hash, "genre"@) {
                        Err(e) => Err(FromYamlError::InvalidGenre(e)),
                        Ok(genre) => match spec_optional_text(hash, "comment"@) {
                            Err(e) => Err(FromYamlError::InvalidComment(e)),
                            Ok(comment) => match spec_optional_text(hash, "lyrics"@) {
                                Err(e) => Err(FromYamlError::InvalidLyrics(e)),
                                Ok(lyrics) => match spec_featuring(hash) {
                                    Err(e) => Err(FromYamlError::InvalidFeaturing(e)),
                                    Ok(featuring) => match spec_filename(hash) {
                                        Err(v) => Err(FromYamlError::InvalidFilename(v)),
                                        Ok(filename) => Ok(
                                            TrackView {
                                                title,
                                                artists,
                                                year,
                                                genre,
                                                comment,
                                                lyrics,
                                                featuring,
                                                filename,
                                            },
                                        ),
                                    },
                                },
                            },
                        },
                    },
                },
            },
        },
    }
}

/// The track that a definition stands for: a bare string is a title, a hash
/// gives the fields.
pub open spec fn spec_track_from_yaml(yaml: Yaml) -> Result<TrackView, FromYamlError> {
    match yaml {
        Yaml::String(title) => Ok(TrackView::titled(TextView::build(title@, None))),
        Yaml::Hash(hash) => spec_track_from_hash(hash@),
        other => Err(FromYamlError::InvalidTrack(other)),
    }
}

/// The view of a track that may have failed to be read.
pub open spec fn track_result_view<E>(r: Result<Track, E>) -> Result<TrackView, E> {
    match r {
        Ok(t) => Ok(t@),
        Err(e) => Err(e),
    }
}

/// The keys of a track definition differ from each other.
pub proof fn lemma_track_keys_differ()
    ensures
        "title"@ != "artist"@,
        "title"@ != "artists"@,
        "title"@ != "year"@,
        "title"@ != "genre"@,
        "title"@ != "comment"@,
        "title"@ != "lyrics"@,
        "title"@ != "featuring"@,
        "title"@ != "filename"@,
        "artist"@ != "artists"@,
        "artist"@ != "year"@,
        "artist"@ != "genre"@,
        "artist"@ != "comment"@,
        "artist"@ != "lyrics"@,
        "artist"@ != "featuring"@,
        "artist"@ != "filename"@,
        "artists"@ != "year"@,
        "artists"@ != "genre"@,
        "artists"@ != "comment"@,
        "artists"@ != "lyrics"@,
        "artists"@ != "featuring"@,
        "artists"@ != "filename"@,
        "year"@ != "genre"@,
        "year"@ != "comment"@,
        "year"@ != "lyrics"@,
        "year"@ != "featuring"@,
        "year"@ != "filename"@,
        "genre"@ != "comment"@,
        "genre"@ != "lyrics"@,
        "genre"@ != "featuring"@,
        "genre"@ != "filename"@,
        "comment"@ != "lyrics"@,
        "comment"@ != "featuring"@,
        "comment"@ != "filename"@,
        "lyrics"@ != "featuring"@,
        "lyrics"@ != "filename"@,
        "featuring"@ != "filename"@,
{
    reveal_strlit("title");
    reveal_strlit("artist");
    reveal_strlit("artists");
    reveal_strlit("year");
    reveal_strlit("genre");
    reveal_strlit("comment");
    reveal_strlit("lyrics");
    reveal_strlit("featuring");
    reveal_strlit("filename");
    assert("title"@[0] == 't');
    assert("genre"@[0] == 'g');
    assert("artist"@[0] == 'a');
    assert("lyrics"@[0] == 'l');
    assert("artists"@[0] == 'a');
    assert("comment"@[0] == 'c');
    assert("featuring"@[0] == 'f');
    assert("filename"@[0] == 'f');
    assert("featuring"@.len() == 9);
    assert("filename"@.len() == 8);
    assert("year"@.len() == 4);
    assert("artist"@.len() == 6);
    assert("artists"@.len() == 7);
}

/// Takes the text that a hash may give under `key`.
fn take_optional_text(hash: &mut Vec<(Yaml, Yaml)>, key: &str) -> (r: Result<
    Option<Text>,
    TextError,
>)
    ensures
        match r {
            Ok(t) => spec_optional_text(old(hash)@, key@) == Ok::<Option<TextView>, TextError>(
                option_text_view(t),
            ),
            Err(e) => spec_optional_text(old(hash)@, key@) == Err::<Option<TextView>, TextError>(e),
        },
        forall|other: Seq<char>|
            other != key@ ==> #[trigger] spec_get(final(hash)@, other) == spec_get(
                old(hash)@,
                other,
            ),
{
    match take_key(hash, key) {
        None => Ok(None),
        Some(y) => match Text::from_yaml(y) {
            Ok(t) => Ok(Some(t)),
            Err(e) => Err(e),
        },
    }
}

impl Track {
    /// Reads a track from a definition: a bare string is the title, a hash
    /// gives the title and whatever else the track has of its own.
    pub fn from_yaml(yaml: Yaml) -> (r: Result<Track, FromYamlError>)
        ensures
            track_result_view(r) == spec_track_from_yaml(yaml),
    {
        match yaml {
            Yaml::String(title) => Ok(Track::new(Text::new(title.as_str(), None))),
            Yaml::Hash(mut hash) => {
                let ghost given = hash@;
                proof {
                    lemma_track_keys_differ();
                }
                let title = match take_key(&mut hash, "title") {
                    None => {
                        return Err(FromYamlError::MissingTitle);
                    },
                    Some(y) => match Text::from_yaml(y) {
                        Ok(t) => t,
                        Err(e) => {
                            return Err(FromYamlError::InvalidTitle(e));
                        },
                    },
                };
                let artists = match take_texts(&mut hash, "artist", "artists") {
                    Ok(texts) => Some(texts),
                    Err(ParseSingularOrPluralError::KeysNotFound) => None,
                    Err(ParseSingularOrPluralError::NotAnArray(v)) => {
                        return Err(FromYamlError::InvalidArtists(v));
                    },
                    Err(ParseSingularOrPluralError::InvalidValue(e)) => {
                        return Err(FromYamlError::InvalidArtist(e));
                    },
                };
                assert(spec_track_artists(given) == Ok::<Option<Seq<TextView>>, FromYamlError>(
                    option_texts_view(artists),
                ));
                let year = match take_key(&mut hash, "year") {
                    None => None,
                    Some(y) => match yaml_into_usize(y) {
                        Ok(n) => Some(n),
                        Err(v) => {
                            return Err(FromYamlError::InvalidYear(v));
                        },
                    },
                };
                assert(spec_optional_year(given) == Ok::<Option<usize>, Yaml>(year));
                let genre = match take_optional_text(&mut hash, "genre") {
                    Ok(t) => t,
                    Err(e) => {
                        return Err(FromYamlError::InvalidGenre(e));
                    },
                };
                let comment = match take_optional_text(&mut hash, "comment") {
                    Ok(t) => t,
                    Err(e) => {
                        return Err(FromYamlError::InvalidComment(e));
                    },
                };
                let lyrics = match take_optional_text(&mut hash, "lyrics") {
                    Ok(t) => t,
                    Err(e) => {
                        return Err(FromYamlError::InvalidLyrics(e));
                    },
                };
                let featuring = match take_key(&mut hash, "featuring") {
                    None => None,
                    Some(Yaml::Array(items)) => match texts_from_items(items) {
                        Ok(texts) => Some(texts),
                        Err(e) => {
                            return Err(FromYamlError::InvalidFeaturing(e));
                        },
                    },
                    Some(one) => match Text::from_yaml(one) {
                        Ok(t) => {
                            let mut texts: Vec<Text> = Vec::new();
                            texts.push(t);
                            proof {
                                assert(text_views(texts@) =~= seq![t@]);
                            }
                            Some(texts)
                        },
                        Err(e) => {
                            return Err(FromYamlError::InvalidFeaturing(e));
                        },
                    },
                };
                assert(spec_featuring(given) == Ok::<Option<Seq<TextView>>, TextError>(
                    option_texts_view(featuring),
                ));
                let filename = match take_key(&mut hash, "filename") {
                    None => None,
                    Some(Yaml::String(s)) => Some(s),
                    Some(other) => {
                        return Err(FromYamlError::InvalidFilename(other));
                    },
                };
                Ok(Track { title, artists, year, genre, comment, lyrics, featuring, filename })
            },
            other => Err(FromYamlError::InvalidTrack(other)),
        }
    }
}

/// The entries of a hash that an optional value adds: one, or none.
pub open spec fn spec_optional_entry(key: Seq<char>, value: Option<YamlView>) -> Seq<
    (YamlView, YamlView),
> {
    match value {
        Some(v) => seq![(YamlView::String(key), v)],
        None => Seq::empty(),
    }
}

/// The definition of an optional text.
pub open spec fn spec_option_text_yaml(text: Option<TextView>) -> Option<YamlView> {
    match text {
        Some(t) => Some(spec_text_yaml(t)),
        None => None,
    }
}

/// The entries of a hash that an optional list of texts adds.
pub open spec fn spec_optional_texts_entry(
    texts: Option<Seq<TextView>>,
    singular: Seq<char>,
    plural: Seq<char>,
) -> Seq<(YamlView, YamlView)> {
    match texts {
        Some(t) => seq![spec_one_or_more(t, singular, plural)],
        None => Seq::empty(),
    }
}

/// The definition of an optional year.
pub open spec fn spec_option_year_yaml(year: Option<usize>) -> Option<YamlView> {
    match year {
        Some(y) => Some(YamlView::Integer(y as i64)),
        None => None,
    }
}

/// The definition of an optional string.
pub open spec fn spec_option_string_yaml(s: Option<Seq<char>>) -> Option<YamlView> {
    match s {
        Some(t) => Some(YamlView::String(t)),
        None => None,
    }
}

/// Whether a track has nothing but a title whose ASCII rendering is derived.
pub open spec fn spec_is_plain(track: TrackView) -> bool {
    &&& track.artists is None
    &&& track.year is None
    &&& track.genre is None
    &&& track.comment is None
    &&& track.lyrics is None
    &&& track.featuring is None
    &&& track.filename is None
    &&& !track.title.has_overridden_ascii()
}

/// The definition of a track: the title alone where the track is plain,
/// else a hash of the title and whatever else the track has of its own.
pub open spec fn spec_track_yaml(track: TrackView) -> YamlView {
    if spec_is_plain(track) {
        YamlView::String(track.title.value)
    } else {
        YamlView::Hash(
            seq![(YamlView::String("title"@), spec_text_yaml(track.title))]
                + spec_optional_texts_entry(track.artists, "artist"@, "artists"@)
                + spec_optional_entry("year"@, spec_option_year_yaml(track.year))
                + spec_optional_entry("genre"@, spec_option_text_yaml(track.genre))
                + spec_optional_entry("comment"@, spec_option_text_yaml(track.comment))
                + spec_optional_entry("lyrics"@, spec_option_text_yaml(track.lyrics))
                + spec_optional_texts_entry(track.featuring, "featuring"@, "featuring"@)
                + spec_optional_entry("filename"@, spec_option_string_yaml(track.filename)),
        )
    }
}

/// Adds to a hash the entry for an optional text.
pub(crate) fn push_optional_text(
    entries: &mut Vec<(Yaml, Yaml)>,
    key: &str,
    text: Option<&Text>,
    Ghost(views): Ghost<Seq<(YamlView, YamlView)>>,
)
    requires
        represents(Yaml::Hash(*old(entries)), YamlView::Hash(views)),
    ensures
        represents(
            Yaml::Hash(*final(entries)),
            YamlView::Hash(
                views + spec_optional_entry(
                    key@,
                    spec_option_text_yaml(option_text_ref_view(text)),
                ),
            ),
        ),
{
    match text {
        Some(t) => {
            let item = t.to_yaml();
            push_entry(entries, key, item, Ghost(views), Ghost(spec_text_yaml(t@)));
            proof {
                assert(views.push((YamlView::String(key@), spec_text_yaml(t@))) =~= views
                    + spec_optional_entry(key@, Some(spec_text_yaml(t@))));
            }
        },
        None => {
            proof {
                assert(views + Seq::<(YamlView, YamlView)>::empty() =~= views);
            }
        },
    }
}

/// Adds to a hash the entry for an optional list of texts.
pub(crate) fn push_optional_texts(
    entries: &mut Vec<(Yaml, Yaml)>,
    texts: Option<&[Text]>,
    singular: &str,
    plural: &str,
    Ghost(views): Ghost<Seq<(YamlView, YamlView)>>,
)
    requires
        represents(Yaml::Hash(*old(entries)), YamlView::Hash(views)),
    ensures
        represents(
            Yaml::Hash(*final(entries)),
            YamlView::Hash(
                views + spec_optional_texts_entry(
                    option_text_slice_view(texts),
                    singular@,
                    plural@,
                ),
            ),
        ),
{
    match texts {
        Some(t) => {
            push_one_or_more(entries, t, singular, plural, Ghost(views));
            proof {
                assert(views.push(spec_one_or_more(text_views(t@), singular@, plural@)) =~= views
                    + spec_optional_texts_entry(Some(text_views(t@)), singular@, plural@));
            }
        },
        None => {
            proof {
                assert(views + Seq::<(YamlView, YamlView)>::empty() =~= views);
            }
        },
    }
}

/// Adds to a hash the entry for an optional year.
pub(crate) fn push_optional_year(
    entries: &mut Vec<(Yaml, Yaml)>,
    year: Option<usize>,
    Ghost(views): Ghost<Seq<(YamlView, YamlView)>>,
)
    requires
        represents(Yaml::Hash(*old(entries)), YamlView::Hash(views)),
    ensures
        represents(
            Yaml::Hash(*final(entries)),
            YamlView::Hash(views + spec_optional_entry("year"@, spec_option_year_yaml(year))),
        ),
{
    match year {
        Some(y) => {
            let n: i64 = #[verifier::truncate] (y as i64);
            let value = Yaml::Integer(n);
            push_entry(entries, "year", value, Ghost(views), Ghost(YamlView::Integer(n)));
            proof {
                assert(views.push((YamlView::String("year"@), YamlView::Integer(n))) =~= views
                    + spec_optional_entry("year"@, Some(YamlView::Integer(n))));
            }
        },
        None => {
            proof {
                assert(views + Seq::<(YamlView, YamlView)>::empty() =~= views);
            }
        },
    }
}

impl Track {
    /// Whether the track has nothing but a title whose ASCII rendering is
    /// derived.
    pub fn is_plain(&self) -> (r: bool)
        ensures
            r == spec_is_plain(self@),
    {
        self.artists.is_none() && self.year.is_none() && self.genre.is_none()
            && self.comment.is_none() && self.lyrics.is_none() && self.featuring.is_none()
            && self.filename.is_none() && !self.title.has_overridden_ascii()
    }

    /// Writes the track as a definition.
    pub fn to_yaml(&self) -> (r: Yaml)
        ensures
            represents(r, spec_track_yaml(self@)),
    {
        if self.is_plain() {
            return string_yaml(self.title.value());
        }
        let mut entries: Vec<(Yaml, Yaml)> = Vec::new();
        let ghost mut views: Seq<(YamlView, YamlView)> = Seq::empty();
        let title = self.title.to_yaml();
        push_entry(&mut entries, "title", title, Ghost(views), Ghost(spec_text_yaml(self.title@)));
        proof {
            views = views.push((YamlView::String("title"@), spec_text_yaml(self.title@)));
            assert(views =~= seq![(YamlView::String("title"@), spec_text_yaml(self.title@))]);
        }
        push_optional_texts(&mut entries, self.artists(), "artist", "artists", Ghost(views));
        proof {
            views = views + spec_optional_texts_entry(self@.artists, "artist"@, "artists"@);
        }
        push_optional_year(&mut entries, self.year, Ghost(views));
        proof {
            views = views + spec_optional_entry("year"@, spec_option_year_yaml(self@.year));
        }
        push_optional_text(&mut entries, "genre", self.genre(), Ghost(views));
        proof {
            views = views + spec_optional_entry("genre"@, spec_option_text_yaml(self@.genre));
        }
        push_optional_text(&mut entries, "comment", self.comment(), Ghost(views));
        proof {
            views = views + spec_optional_entry("comment"@, spec_option_text_yaml(self@.comment));
        }
        push_optional_text(&mut entries, "lyrics", self.lyrics(), Ghost(views));
        proof {
            views = views + spec_optional_entry("lyrics"@, spec_option_text_yaml(self@.lyrics));
        }
        push_optional_texts(&mut entries, self.featuring(), "featuring", "featuring", Ghost(views));
        proof {
            views = views + spec_optional_texts_entry(
                self@.featuring,
                "featuring"@,
                "featuring"@,
            );
        }
        match &self.filename {
            Some(name) => {
                push_entry(
                    &mut entries,
                    "filename",
                    string_yaml(name.as_str()),
                    Ghost(views),
                    Ghost(YamlView::String(name@)),
                );
                proof {
                    assert(views.push((YamlView::String("filename"@), YamlView::String(name@)))
                        =~= views + spec_optional_entry(
                        "filename"@,
                        spec_option_string_yaml(self@.filename),
                    ));
                }
            },
            None => {
                proof {
                    assert(views + Seq::<(YamlView, YamlView)>::empty() =~= views);
                }
            },
        }
        Yaml::Hash(entries)
    }
}

impl FromYamlError {
    /// What is shown for the error.
    pub open spec fn spec_message(self) -> Seq<char> {
        match self {
            FromYamlError::MissingTitle => "missing title"@,
            FromYamlError::InvalidTitle(e) => "invalid title"@ + ": "@ + e.spec_message(),
            FromYamlError::InvalidArtists(_) => "invalid artists"@,
            FromYamlError::InvalidArtist(e) => "invalid artist"@ + ": "@ + e.spec_message(),
            FromYamlError::InvalidYear(_) => "year must be integer"@,
            FromYamlError::InvalidGenre(e) => "invalid genre"@ + ": "@ + e.spec_message(),
            FromYamlError::InvalidComment(e) => "invalid comment"@ + ": "@ + e.spec_message(),
            FromYamlError::InvalidLyrics(e) => "invalid lyrics"@ + ": "@ + e.spec_message(),
            FromYamlError::InvalidFeaturing(e) => "invalid featuring"@ + ": "@ + e.spec_message(),
            FromYamlError::InvalidFilename(_) => "filename must be a string"@,
            FromYamlError::InvalidTrack(_) => "track must be a string or hash"@,
        }
    }

    /// What is shown for the error.
    pub fn message(&self) -> (r: String)
        ensures
            r@ == self.spec_message(),
    {
        match self {
            FromYamlError::MissingTitle => String::from_str("missing title"),
            FromYamlError::InvalidTitle(e) => with_detail("invalid title", e.message().as_str()),
            FromYamlError::InvalidArtists(_) => String::from_str("invalid artists"),
            FromYamlError::InvalidArtist(e) => with_detail("invalid artist", e.message().as_str()),
            FromYamlError::InvalidYear(_) => String::from_str("year must be integer"),
            FromYamlError::InvalidGenre(e) => with_detail("invalid genre", e.message().as_str()),
            FromYamlError::InvalidComment(e) => with_detail(
                "invalid comment",
                e.message().as_str(),
            ),
            FromYamlError::InvalidLyrics(e) => with_detail("invalid lyrics", e.message().as_str()),
            FromYamlError::InvalidFeaturing(e) => with_detail(
                "invalid featuring",
                e.message().as_str(),
            ),
            FromYamlError::InvalidFilename(_) => String::from_str("filename must be a string"),
            FromYamlError::InvalidTrack(_) => String::from_str("track must be a string or hash"),
        }
    }
}

} // verus!
