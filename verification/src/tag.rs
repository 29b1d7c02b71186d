//! What goes into the tag of a track's file.

use crate::album::option_image;
use crate::chars::option_view;
use crate::cover::{spec_chain_cover, Variant};
use crate::image::Image;
use crate::text::{Text, TextView};
use crate::track::{spec_album_artists, spec_artists, spec_genre, spec_year, Track};
use crate::utils::{spec_comma_separated, text_of};
use vstd::prelude::*;
use vstd::string::StringExecFns;

verus! {

/// A picture in a tag. It is always the front cover, without a description.
#[derive(Debug, PartialEq, Eq)]
pub struct Picture {
    /// The MIME type of the data.
    pub mime_type: String,
    /// The encoded image.
    pub data: Vec<u8>,
}

/// The mathematical value of a [`Picture`].
pub struct PictureModel {
    /// The MIME type of the data.
    pub mime_type: Seq<char>,
    /// The encoded image.
    pub data: Seq<u8>,
}

impl View for Picture {
    type V = PictureModel;

    open spec fn view(&self) -> PictureModel {
        PictureModel { mime_type: self.mime_type@, data: self.data@ }
    }
}

/// What is written into the tag of a track's file.
#[derive(Debug, PartialEq, Eq)]
pub struct Tag {
    /// The title of the track.
    pub title: String,
    /// The artists of the track as one text, unless there are none.
    pub artist: Option<String>,
    /// The number of the track on its disc.
    pub track: u32,
    /// The artists of the album as one text, where they differ from the track's.
    pub album_artist: Option<String>,
    /// The number of the disc, unless it is the only one.
    pub disc: Option<u32>,
    /// The title of the album.
    pub album: String,
    /// The year of the recording.
    pub year: Option<i32>,
    /// The genre.
    pub genre: Option<String>,
    /// The comment, which is taken to be in English.
    pub comment: Option<String>,
    /// The lyrics, which are taken to be in English.
    pub lyrics: Option<String>,
    /// The cover.
    pub picture: Option<Picture>,
}

/// The mathematical value of a [`Tag`].
pub struct TagView {
    /// The title of the track.
    pub title: Seq<char>,
    /// The artists of the track as one text.
    pub artist: Option<Seq<char>>,
    /// The number of the track on its disc.
    pub track: u32,
    /// The artists of the album as one text.
    pub album_artist: Option<Seq<char>>,
    /// The number of the disc.
    pub disc: Option<u32>,
    /// The title of the album.
    pub album: Seq<char>,
    /// The year of the recording.
    pub year: Option<i32>,
    /// The genre.
    pub genre: Option<Seq<char>>,
    /// The comment.
    pub comment: Option<Seq<char>>,
    /// The lyrics.
    pub lyrics: Option<Seq<char>>,
    /// The cover.
    pub picture: Option<PictureModel>,
}

/// The view of an optional picture.
pub open spec fn option_picture_view(o: Option<Picture>) -> Option<PictureModel> {
    match o {
        Some(p) => Some(p@),
        None => None,
    }
}

impl View for Tag {
    type V = TagView;

    open spec fn view(&self) -> TagView {
        TagView {
            title: self.title@,
            artist: option_view(self.artist),
            track: self.track,
            album_artist: option_view(self.album_artist),
            disc: self.disc,
            album: self.album@,
            year: self.year,
            genre: option_view(self.genre),
            comment: option_view(self.comment),
            lyrics: option_view(self.lyrics),
            picture: option_picture_view(self.picture),
        }
    }
}

/// The picture that a cover makes.
pub open spec fn spec_picture(cover: Option<Image>) -> Option<PictureModel> {
    match cover {
        Some(image) => Some(
            PictureModel { mime_type: image.format.spec_mime(), data: image.data@ },
        ),
        None => None,
    }
}

/// The value of an optional text.
pub open spec fn spec_option_value(o: Option<TextView>) -> Option<Seq<char>> {
    match o {
        Some(t) => Some(t.value),
        None => None,
    }
}

/// The artists as one text, unless there are none.
pub open spec fn spec_joined(artists: Seq<TextView>) -> Option<TextView> {
    if artists.len() == 0 {
        None
    } else {
        Some(spec_comma_separated(artists))
    }
}

/// The album's artists as one text, where they differ from the track's.
pub open spec fn spec_album_artist(track: &Track<'_>) -> Option<TextView> {
    match spec_album_artists(track.definition(), track.album_definition()) {
        Some(artists) => Some(spec_comma_separated(artists)),
        None => None,
    }
}

/// The number of the disc, unless it is the only one.
pub open spec fn spec_disc_tag(track: &Track<'_>) -> Option<u32> {
    if track.spec_num_discs() == 1 {
        None
    } else {
        Some(track.on_disc().number() as u32)
    }
}

/// The tag of a track: every attribute in its written form, the artist only
/// where there is one, the album artist only where it differs, the disc's
/// number only where the album has several discs, and the standard cover as
/// far as it has been resolved.
pub open spec fn spec_tag(track: &Track<'_>) -> TagView {
    let artists = spec_artists(track.definition(), track.album_definition());
    TagView {
        title: track.definition().title.value,
        artist: spec_option_value(spec_joined(artists)),
        track: track.number() as u32,
        album_artist: spec_option_value(spec_album_artist(track)),
        disc: spec_disc_tag(track),
        album: track.album_definition().title.value,
        year: match spec_year(track.definition(), track.album_definition()) {
            Some(y) => Some(y as i32),
            None => None,
        },
        genre: spec_option_value(spec_genre(track.definition(), track.album_definition())),
        comment: spec_option_value(track.definition().comment),
        lyrics: spec_option_value(track.definition().lyrics),
        picture: spec_picture(spec_chain_cover(track.cover_chain(Variant::Standard))),
    }
}

/// The value of an optional ASCII rendering.
pub open spec fn spec_option_ascii(o: Option<TextView>) -> Option<Seq<char>> {
    match o {
        Some(t) => Some(t.ascii_text()),
        None => None,
    }
}

/// The tag of a track for the car: the texts in their ASCII renderings,
/// the cover for the car, and neither year, genre, comment nor lyrics.
pub open spec fn spec_tag_vw(track: &Track<'_>) -> TagView {
    let artists = spec_artists(track.definition(), track.album_definition());
    TagView {
        title: track.definition().title.ascii_text(),
        artist: spec_option_ascii(spec_joined(artists)),
        track: track.number() as u32,
        album_artist: spec_option_ascii(spec_album_artist(track)),
        disc: spec_disc_tag(track),
        album: track.album_definition().title.ascii_text(),
        year: None,
        genre: None,
        comment: None,
        lyrics: None,
        picture: spec_picture(spec_chain_cover(track.cover_chain(Variant::Vw))),
    }
}

/// The picture that a cover makes.
pub fn picture_of(cover: Option<&Image>) -> (r: Option<Picture>)
    ensures
        option_picture_view(r) == spec_picture(option_image(cover)),
{
    match cover {
        Some(image) => Some(
            Picture { mime_type: String::from_str(image.format.mime()), data: image.data.clone() },
        ),
        None => None,
    }
}

/// The written form of an optional text.
fn value_of(text: Option<&Text>) -> (r: Option<String>)
    ensures
        option_view(r) == spec_option_value(crate::raw::track::option_text_ref_view(text)),
{
    match text {
        Some(t) => Some(String::from_str(t.value())),
        None => None,
    }
}

impl<'a> Track<'a> {
    /// What is written into the tag of the track's file. The cover is the
    /// standard cover as far as it has been resolved.
    pub fn tag(&self) -> (r: Tag)
        ensures
            r@ == spec_tag(self),
    {
        let artist = if self.artists().len() > 0 {
            Some(String::from_str(text_of(&self.artist()).value()))
        } else {
            None
        };
        let album_artist = match self.album_artist() {
            Some(joined) => Some(String::from_str(text_of(&joined).value())),
            None => None,
        };
        let disc = if self.disc().is_only_disc() {
            None
        } else {
            Some(#[verifier::truncate] (self.disc().disc_number() as u32))
        };
        let year = match self.year() {
            Some(y) => Some(#[verifier::truncate] (y as i32)),
            None => None,
        };
        Tag {
            title: String::from_str(self.title().value()),
            artist,
            track: #[verifier::truncate] (self.track_number() as u32),
            album_artist,
            disc,
            album: String::from_str(self.album().title().value()),
            year,
            genre: value_of(self.genre()),
            comment: value_of(self.comment()),
            lyrics: value_of(self.lyrics()),
            picture: picture_of(self.cover()),
        }
    }

    /// What is written into the tag of the copy of the track's file for the
    /// car. The cover is the cover for the car as far as it has been resolved.
    pub fn tag_vw(&self) -> (r: Tag)
        ensures
            r@ == spec_tag_vw(self),
    {
        let artist = if self.artists().len() > 0 {
            Some(String::from_str(text_of(&self.artist()).ascii()))
        } else {
            None
        };
        let album_artist = match self.album_artist() {
            Some(joined) => Some(String::from_str(text_of(&joined).ascii())),
            None => None,
        };
        let disc = if self.disc().is_only_disc() {
            None
        } else {
            Some(#[verifier::truncate] (self.disc().disc_number() as u32))
        };
        Tag {
            title: String::from_str(self.title().ascii()),
            artist,
            track: #[verifier::truncate] (self.track_number() as u32),
            album_artist,
            disc,
            album: String::from_str(self.album().title().ascii()),
            year: None,
            genre: None,
            comment: None,
            lyrics: None,
            picture: picture_of(self.cover_vw()),
        }
    }
}

/// The only disc of an album has no folder of its own, and its number goes
/// into no tag.
pub proof fn lemma_only_disc_is_not_named(track: &Track<'_>)
    requires
        track.spec_num_discs() == 1,
    ensures
        crate::disc::spec_disc_filename(track.spec_num_discs(), track.on_disc().number()) is None,
        crate::disc::spec_disc_path(
            track.on_disc().owner().root(),
            track.spec_num_discs(),
            track.on_disc().number(),
        ) == seq![track.on_disc().owner().root()],
        spec_tag(track).disc is None,
        spec_tag_vw(track).disc is None,
{
}

} // verus!
