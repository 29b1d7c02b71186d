//! Holding the tag that a file has against the tag that it should have.

use crate::chars::option_view;
use crate::image::LoadWithCacheError;
use crate::tag::{PictureModel, Tag, TagView};
use crate::track::Track;
use crate::utils::{push_zero_padded, spec_digits};
use vstd::prelude::*;
use vstd::string::StringExecFns;

verus! {

/// An error of the tag library.
#[verifier::external_type_specification]
#[verifier::external_body]
pub struct ExTagError(id3::Error);

/// A point in time as a tag gives it: a year, and whatever else it says.
#[derive(Clone, Copy, Debug, PartialEq, Eq, Structural)]
pub struct Timestamp {
    /// The year.
    pub year: i32,
    /// The month, if given.
    pub month: Option<u8>,
    /// The day, if given.
    pub day: Option<u8>,
    /// The hour, if given.
    pub hour: Option<u8>,
    /// The minute, if given.
    pub minute: Option<u8>,
    /// The second, if given.
    pub second: Option<u8>,
}

/// A date that was found in a tag, with the text that shows it.
#[derive(Debug, PartialEq, Eq)]
pub struct FoundDate {
    /// The date.
    pub date: Timestamp,
    /// The date as the tag library prints it.
    pub shown: String,
}

/// A comment or the lyrics that were found in a tag, with the text that
/// shows them.
#[derive(Debug, PartialEq, Eq)]
pub struct FoundText {
    /// The language.
    pub lang: String,
    /// The description.
    pub description: String,
    /// The text.
    pub text: String,
    /// The whole frame as the tag library prints it.
    pub shown: String,
}

/// A picture that was found in a tag.
#[derive(Debug, PartialEq, Eq)]
pub struct FoundPicture {
    /// The MIME type of the data.
    pub mime_type: String,
    /// Whether the picture is marked as the front cover.
    pub is_front_cover: bool,
    /// The description.
    pub description: String,
    /// The encoded image.
    pub data: Vec<u8>,
}

/// What was found in the tag of a file. Of the comments, the lyrics and the
/// pictures it is the first.
#[derive(Debug, PartialEq, Eq)]
pub struct Found {
    /// The title.
    pub title: Option<String>,
    /// The artist.
    pub artist: Option<String>,
    /// The number of the track.
    pub track: Option<u32>,
    /// The artist of the album.
    pub album_artist: Option<String>,
    /// The number of the disc.
    pub disc: Option<u32>,
    /// The title of the album.
    pub album: Option<String>,
    /// The date of the recording.
    pub year: Option<FoundDate>,
    /// The genre.
    pub genre: Option<String>,
    /// The first comment.
    pub comment: Option<FoundText>,
    /// The first lyrics.
    pub lyrics: Option<FoundText>,
    /// The first picture.
    pub picture: Option<FoundPicture>,
}

/// What is wrong with the tag of a file.
#[derive(Debug)]
pub enum ValidateError {
    /// The tag could not be read.
    CouldntReadTag(id3::Error),
    /// A frame that should be there is not.
    MissingFrame(&'static str),
    /// A frame is there more than once.
    DuplicateFrame(&'static str),
    /// A frame holds something else than it should.
    IncorrectDataInFrame(&'static str, String),
    /// A frame is there that should not be.
    UnexpectedFrame(&'static str),
    /// The cover could not be loaded.
    CouldntLoadCover(LoadWithCacheError),
}

/// The mathematical value of a [`ValidateError`].
pub enum ErrorView {
    /// The tag could not be read.
    CouldntReadTag(id3::Error),
    /// A frame that should be there is not.
    MissingFrame(Seq<char>),
    /// A frame is there more than once.
    DuplicateFrame(Seq<char>),
    /// A frame holds something else than it should.
    IncorrectDataInFrame(Seq<char>, Seq<char>),
    /// A frame is there that should not be.
    UnexpectedFrame(Seq<char>),
    /// The cover could not be loaded.
    CouldntLoadCover(LoadWithCacheError),
}

impl View for ValidateError {
    type V = ErrorView;

    open spec fn view(&self) -> ErrorView {
        match self {
            ValidateError::CouldntReadTag(e) => ErrorView::CouldntReadTag(*e),
            ValidateError::MissingFrame(frame) => ErrorView::MissingFrame(frame@),
            ValidateError::DuplicateFrame(frame) => ErrorView::DuplicateFrame(frame@),
            ValidateError::IncorrectDataInFrame(frame, shown) => ErrorView::IncorrectDataInFrame(
                frame@,
                shown@,
            ),
            ValidateError::UnexpectedFrame(frame) => ErrorView::UnexpectedFrame(frame@),
            ValidateError::CouldntLoadCover(e) => ErrorView::CouldntLoadCover(*e),
        }
    }
}

/// The views of a sequence of errors.
pub open spec fn error_views(errors: Seq<ValidateError>) -> Seq<ErrorView> {
    errors.map_values(|e: ValidateError| e@)
}

/// What is wrong with one frame: it is there and should not be, it should
/// be there and is not, or it holds something else than it should; `shown`
/// is what is reported of a frame that holds something else.
pub open spec fn spec_check<T>(
    frame: Seq<char>,
    expected: Option<T>,
    found: Option<T>,
    shown: Seq<char>,
) -> Seq<ErrorView> {
    match (expected, found) {
        (None, Some(_)) => seq![ErrorView::UnexpectedFrame(frame)],
        (Some(_), None) => seq![ErrorView::MissingFrame(frame)],
        (Some(a), Some(b)) => if a != b {
            seq![ErrorView::IncorrectDataInFrame(frame, shown)]
        } else {
            Seq::empty()
        },
        (None, None) => Seq::empty(),
    }
}

/// The text of an optional string, or the empty text.
pub open spec fn spec_shown(o: Option<Seq<char>>) -> Seq<char> {
    match o {
        Some(s) => s,
        None => Seq::empty(),
    }
}

/// A number as it is reported.
pub open spec fn spec_shown_number(o: Option<u32>) -> Seq<char> {
    match o {
        Some(n) => spec_digits(n as nat),
        None => Seq::empty(),
    }
}

/// The date that a tag should hold for a year: the year and nothing else.
pub open spec fn spec_date(year: Option<i32>) -> Option<Timestamp> {
    match year {
        Some(y) => Some(
            Timestamp { year: y, month: None, day: None, hour: None, minute: None, second: None },
        ),
        None => None,
    }
}

/// A comment or lyrics, as far as they are held against each other: the
/// language, the description and the text.
pub struct FrameText {
    /// The language.
    pub lang: Seq<char>,
    /// The description.
    pub description: Seq<char>,
    /// The text.
    pub text: Seq<char>,
}

/// The frame that a tag should hold for a comment or for lyrics: the text,
/// in English, without a description.
pub open spec fn spec_frame_text(text: Option<Seq<char>>) -> Option<FrameText> {
    match text {
        Some(t) => Some(FrameText { lang: "eng"@, description: ""@, text: t }),
        None => None,
    }
}

/// What a found comment or found lyrics hold.
pub open spec fn spec_found_text(found: Option<FoundText>) -> Option<FrameText> {
    match found {
        Some(f) => Some(FrameText { lang: f.lang@, description: f.description@, text: f.text@ }),
        None => None,
    }
}

/// How found comments or lyrics are reported.
pub open spec fn spec_found_text_shown(found: Option<FoundText>) -> Seq<char> {
    match found {
        Some(f) => f.shown@,
        None => Seq::empty(),
    }
}

/// A picture, as far as pictures are held against each other.
pub struct FramePicture {
    /// The MIME type of the data.
    pub mime_type: Seq<char>,
    /// Whether the picture is marked as the front cover.
    pub is_front_cover: bool,
    /// The description.
    pub description: Seq<char>,
    /// The encoded image.
    pub data: Seq<u8>,
}

/// The picture frame that a tag should hold for a cover: the front cover,
/// without a description.
pub open spec fn spec_frame_picture(picture: Option<PictureModel>) -> Option<FramePicture> {
    match picture {
        Some(p) => Some(
            FramePicture {
                mime_type: p.mime_type,
                is_front_cover: true,
                description: ""@,
                data: p.data,
            },
        ),
        None => None,
    }
}

/// What a found picture holds.
pub open spec fn spec_found_picture(found: Option<FoundPicture>) -> Option<FramePicture> {
    match found {
        Some(f) => Some(
            FramePicture {
                mime_type: f.mime_type@,
                is_front_cover: f.is_front_cover,
                description: f.description@,
                data: f.data@,
            },
        ),
        None => None,
    }
}

/// The date that was found.
pub open spec fn spec_found_date(found: Option<FoundDate>) -> Option<Timestamp> {
    match found {
        Some(f) => Some(f.date),
        None => None,
    }
}

/// How a found date is reported.
pub open spec fn spec_found_date_shown(found: Option<FoundDate>) -> Seq<char> {
    match found {
        Some(f) => f.shown@,
        None => Seq::empty(),
    }
}

/// What is wrong with the frames of a found tag other than the cover, frame
/// by frame in the order title, artist, track, album artist, disc, album,
/// year, genre, comments, lyrics. The title, the track and the album should
/// always be there.
pub open spec fn spec_validate_frames(expected: TagView, found: Found) -> Seq<ErrorView> {
    let title = option_view(found.title);
    let artist = option_view(found.artist);
    let album_artist = option_view(found.album_artist);
    let album = option_view(found.album);
    let genre = option_view(found.genre);
    spec_check("title"@, Some(expected.title), title, spec_shown(title))
        + spec_check("artist"@, expected.artist, artist, spec_shown(artist))
        + spec_check("track"@, Some(expected.track), found.track, spec_shown_number(found.track))
        + spec_check("album artist"@, expected.album_artist, album_artist, spec_shown(album_artist))
        + spec_check("disc"@, expected.disc, found.disc, spec_shown_number(found.disc))
        + spec_check("album"@, Some(expected.album), album, spec_shown(album))
        + spec_check(
        "year"@,
        spec_date(expected.year),
        spec_found_date(found.year),
        spec_found_date_shown(found.year),
    ) + spec_check("genre"@, expected.genre, genre, spec_shown(genre)) + spec_check(
        "comments"@,
        spec_frame_text(expected.comment),
        spec_found_text(found.comment),
        spec_found_text_shown(found.comment),
    ) + spec_check(
        "lyrics"@,
        spec_frame_text(expected.lyrics),
        spec_found_text(found.lyrics),
        spec_found_text_shown(found.lyrics),
    )
}

/// What is wrong with the cover of a found tag.
pub open spec fn spec_validate_cover(expected: TagView, found: Found) -> Seq<ErrorView> {
    spec_check(
        "cover"@,
        spec_frame_picture(expected.picture),
        spec_found_picture(found.picture),
        "..."@,
    )
}

/// Everything that is wrong with a found tag: the frames other than the
/// cover in their order, and the cover last.
pub open spec fn spec_validate(expected: TagView, found: Found) -> Seq<ErrorView> {
    spec_validate_frames(expected, found) + spec_validate_cover(expected, found)
}

/// Everything that is wrong with a found tag, where looking for the cover
/// may have failed: the frames other than the cover in their order, and
/// last what is wrong with the cover, or that it could not be loaded.
pub open spec fn spec_validate_with(
    expected: TagView,
    found: Found,
    cover: Result<(), LoadWithCacheError>,
) -> Seq<ErrorView> {
    spec_validate_frames(expected, found) + match cover {
        Ok(_) => spec_validate_cover(expected, found),
        Err(e) => seq![ErrorView::CouldntLoadCover(e)],
    }
}

/// Adds to `errors` what is wrong with a frame of text.
fn check_text(
    errors: &mut Vec<ValidateError>,
    frame: &'static str,
    expected: &Option<String>,
    found: &Option<String>,
)
    ensures
        error_views(final(errors)@) == error_views(old(errors)@) + spec_check(
            frame@,
            option_view(*expected),
            option_view(*found),
            spec_shown(option_view(*found)),
        ),
{
    let ghost before = errors@;
    match (expected, found) {
        (None, Some(_)) => {
            report(errors, ValidateError::UnexpectedFrame(frame));
        },
        (Some(_), None) => {
            report(errors, ValidateError::MissingFrame(frame));
        },
        (Some(a), Some(b)) => {
            if *a != *b {
                report(errors, ValidateError::IncorrectDataInFrame(frame, b.clone()));
            }
        },
        (None, None) => {},
    }
    proof {
        assert(error_views(before) + Seq::<ErrorView>::empty() =~= error_views(before));
    }
}

/// Adds to `errors` what is wrong with a frame that holds a number.
fn check_number(
    errors: &mut Vec<ValidateError>,
    frame: &'static str,
    expected: Option<u32>,
    found: Option<u32>,
)
    ensures
        error_views(final(errors)@) == error_views(old(errors)@) + spec_check(
            frame@,
            expected,
            found,
            spec_shown_number(found),
        ),
{
    let ghost before = errors@;
    match (expected, found) {
        (None, Some(_)) => {
            report(errors, ValidateError::UnexpectedFrame(frame));
        },
        (Some(_), None) => {
            report(errors, ValidateError::MissingFrame(frame));
        },
        (Some(a), Some(b)) => {
            if a != b {
                let mut shown = String::new();
                push_zero_padded(&mut shown, b as usize, 0);
                proof {
                    assert(shown@ =~= spec_digits(b as nat));
                }
                report(errors, ValidateError::IncorrectDataInFrame(frame, shown));
            }
        },
        (None, None) => {},
    }
    proof {
        assert(error_views(before) + Seq::<ErrorView>::empty() =~= error_views(before));
    }
}

/// Adds to `errors` what is wrong with a frame that holds a comment or lyrics.
fn check_frame_text(
    errors: &mut Vec<ValidateError>,
    frame: &'static str,
    expected: &Option<String>,
    found: &Option<FoundText>,
)
    ensures
        error_views(final(errors)@) == error_views(old(errors)@) + spec_check(
            frame@,
            spec_frame_text(option_view(*expected)),
            spec_found_text(*found),
            spec_found_text_shown(*found),
        ),
{
    let ghost before = errors@;
    match (expected, found) {
        (None, Some(_)) => {
            report(errors, ValidateError::UnexpectedFrame(frame));
        },
        (Some(_), None) => {
            report(errors, ValidateError::MissingFrame(frame));
        },
        (Some(a), Some(b)) => {
            let lang = String::from_str("eng");
            let description = String::new();
            proof {
                reveal_strlit("");
                assert(description@ =~= ""@);
            }
            let same = b.lang == lang && b.description == description && b.text == *a;
            if !same {
                report(errors, ValidateError::IncorrectDataInFrame(frame, b.shown.clone()));
            }
        },
        (None, None) => {},
    }
    proof {
        assert(error_views(before) + Seq::<ErrorView>::empty() =~= error_views(before));
    }
}

/// Adds an error to the list.
fn report(errors: &mut Vec<ValidateError>, error: ValidateError)
    ensures
        error_views(final(errors)@) == error_views(old(errors)@) + seq![error@],
{
    proof {
        assert(error_views(errors@.push(error)) =~= error_views(errors@) + seq![error@]);
    }
    errors.push(error);
}

/// Whether two byte strings are equal.
fn bytes_equal(a: &Vec<u8>, b: &Vec<u8>) -> (r: bool)
    ensures
        r == (a@ == b@),
{
    if a.len() != b.len() {
        return false;
    }
    let mut i: usize = 0;
    while i < a.len()
        invariant
            i <= a.len(),
            a.len() == b.len(),
            forall|j: int| 0 <= j < i ==> a@[j] == b@[j],
        decreases a.len() - i,
    {
        if a[i] != b[i] {
            return false;
        }
        i = i + 1;
    }
    proof {
        assert(a@ =~= b@);
    }
    true
}

/// Holds the frames of the tag that was found in a file, other than the
/// cover, against the tag that the file should have. Every frame that is
/// missing, unexpected or different is reported, in a fixed order.
pub fn validate_frames(expected: &Tag, found: &Found) -> (errors: Vec<ValidateError>)
    ensures
        error_views(errors@) == spec_validate_frames(expected@, *found),
{
    let mut errors: Vec<ValidateError> = Vec::new();
    proof {
        assert(error_views(errors@) =~= Seq::<ErrorView>::empty());
    }
    let ghost e0 = error_views(errors@);
    let title = Some(expected.title.clone());
    check_text(&mut errors, "title", &title, &found.title);
    check_text(&mut errors, "artist", &expected.artist, &found.artist);
    check_number(&mut errors, "track", Some(expected.track), found.track);
    check_text(&mut errors, "album artist", &expected.album_artist, &found.album_artist);
    check_number(&mut errors, "disc", expected.disc, found.disc);
    let album = Some(expected.album.clone());
    check_text(&mut errors, "album", &album, &found.album);
    let ghost e6 = error_views(errors@);
    match (expected.year, &found.year) {
        (None, Some(_)) => {
            report(&mut errors, ValidateError::UnexpectedFrame("year"));
        },
        (Some(_), None) => {
            report(&mut errors, ValidateError::MissingFrame("year"));
        },
        (Some(y), Some(f)) => {
            let same = f.date.year == y && f.date.month.is_none() && f.date.day.is_none()
                && f.date.hour.is_none() && f.date.minute.is_none() && f.date.second.is_none();
            if !same {
                report(&mut errors, ValidateError::IncorrectDataInFrame("year", f.shown.clone()));
            }
        },
        (None, None) => {},
    }
    proof {
        assert(e6 + Seq::<ErrorView>::empty() =~= e6);
    }
    check_text(&mut errors, "genre", &expected.genre, &found.genre);
    check_frame_text(&mut errors, "comments", &expected.comment, &found.comment);
    check_frame_text(&mut errors, "lyrics", &expected.lyrics, &found.lyrics);
    proof {
        assert(e0 + spec_validate_frames(expected@, *found) =~= spec_validate_frames(
            expected@,
            *found,
        ));
    }
    errors
}

/// Adds to `errors` what is wrong with the cover.
fn check_cover(errors: &mut Vec<ValidateError>, expected: &Tag, found: &Found)
    ensures
        error_views(final(errors)@) == error_views(old(errors)@) + spec_validate_cover(
            expected@,
            *found,
        ),
{
    let ghost before = error_views(errors@);
    match (&expected.picture, &found.picture) {
        (None, Some(_)) => {
            report(errors, ValidateError::UnexpectedFrame("cover"));
        },
        (Some(_), None) => {
            report(errors, ValidateError::MissingFrame("cover"));
        },
        (Some(a), Some(b)) => {
            let empty = String::new();
            proof {
                reveal_strlit("");
                assert(empty@ =~= ""@);
            }
            let same = b.mime_type == a.mime_type && b.is_front_cover && b.description == empty
                && bytes_equal(&b.data, &a.data);
            if !same {
                let shown = String::from_str("...");
                report(errors, ValidateError::IncorrectDataInFrame("cover", shown));
            }
        },
        (None, None) => {},
    }
    proof {
        assert(before + Seq::<ErrorView>::empty() =~= before);
    }
}

/// A list of faults as a result: `Ok` where there is none.
fn as_result(errors: Vec<ValidateError>) -> (r: Result<(), Vec<ValidateError>>)
    ensures
        match r {
            Ok(_) => errors@.len() == 0,
            Err(list) => list == errors && errors@.len() > 0,
        },
{
    if errors.len() == 0 {
        Ok(())
    } else {
        Err(errors)
    }
}

/// Holds the tag that was found in a file against the tag that the file
/// should have. Every frame that is missing, unexpected or different is
/// reported, in a fixed order; a tag without fault gives `Ok`.
pub fn validate(expected: &Tag, found: &Found) -> (r: Result<(), Vec<ValidateError>>)
    ensures
        match r {
            Ok(_) => spec_validate(expected@, *found).len() == 0,
            Err(errors) => errors@.len() > 0 && error_views(errors@) == spec_validate(
                expected@,
                *found,
            ),
        },
{
    let mut errors = validate_frames(expected, found);
    check_cover(&mut errors, expected, found);
    as_result(errors)
}

/// Holds the tag that was found in a file against the tag that the file
/// should have, where looking for the cover may have failed. The frames
/// other than the cover are held against the tag in any case; a cover that
/// could not be loaded is reported after them, in place of what would be
/// wrong with the cover.
pub fn validate_with(
    expected: &Tag,
    found: &Found,
    cover: Result<(), LoadWithCacheError>,
) -> (r: Result<(), Vec<ValidateError>>)
    ensures
        match r {
            Ok(_) => spec_validate_with(expected@, *found, cover).len() == 0,
            Err(errors) => errors@.len() > 0 && error_views(errors@) == spec_validate_with(
                expected@,
                *found,
                cover,
            ),
        },
{
    let mut errors = validate_frames(expected, found);
    match cover {
        Ok(_) => {
            check_cover(&mut errors, expected, found);
        },
        Err(e) => {
            report(&mut errors, ValidateError::CouldntLoadCover(e));
        },
    }
    as_result(errors)
}

impl<'a> Track<'a> {
    /// Holds the tag that was found in the track's file against the tag
    /// that the track should have.
    pub fn validate(&self, found: &Found) -> (r: Result<(), Vec<ValidateError>>)
        ensures
            match r {
                Ok(_) => spec_validate(crate::tag::spec_tag(self), *found).len() == 0,
                Err(errors) => errors@.len() > 0 && error_views(errors@) == spec_validate(
                    crate::tag::spec_tag(self),
                    *found,
                ),
            },
    {
        validate(&self.tag(), found)
    }

    /// Holds the tag that was found in the track's file against the tag
    /// that the track should have, where looking for the cover may have
    /// failed: a cover that could not be loaded is reported after what is
    /// wrong with the other frames.
    pub fn validate_with(
        &self,
        found: &Found,
        cover: Result<(), LoadWithCacheError>,
    ) -> (r: Result<(), Vec<ValidateError>>)
        ensures
            match r {
                Ok(_) => spec_validate_with(crate::tag::spec_tag(self), *found, cover).len() == 0,
                Err(errors) => errors@.len() > 0 && error_views(errors@) == spec_validate_with(
                    crate::tag::spec_tag(self),
                    *found,
                    cover,
                ),
            },
    {
        validate_with(&self.tag(), found, cover)
    }
}

impl ValidateError {
    /// What is shown for the error.
    pub open spec fn spec_message(self) -> Seq<char> {
        match self {
            ValidateError::CouldntReadTag(_) => "couldn't read tag"@,
            ValidateError::MissingFrame(frame) => "missing frame "@ + frame@,
            ValidateError::DuplicateFrame(frame) => "duplicate frame "@ + frame@,
            ValidateError::IncorrectDataInFrame(frame, _) => "incorrect data in frame "@ + frame@,
            ValidateError::UnexpectedFrame(frame) => "unexpected frame "@ + frame@,
            ValidateError::CouldntLoadCover(_) => "couldn't load cover"@,
        }
    }

    /// What is shown for the error.
    pub fn message(&self) -> (r: String)
        ensures
            r@ == self.spec_message(),
    {
        match self {
            ValidateError::CouldntReadTag(_) => String::from_str("couldn't read tag"),
            ValidateError::MissingFrame(frame) => {
                let mut message = String::from_str("missing frame ");
                message.append(frame);
                message
            },
            ValidateError::DuplicateFrame(frame) => {
                let mut message = String::from_str("duplicate frame ");
                message.append(frame);
                message
            },
            ValidateError::IncorrectDataInFrame(frame, _) => {
                let mut message = String::from_str("incorrect data in frame ");
                message.append(frame);
                message
            },
            ValidateError::UnexpectedFrame(frame) => {
                let mut message = String::from_str("unexpected frame ");
                message.append(frame);
                message
            },
            ValidateError::CouldntLoadCover(_) => String::from_str("couldn't load cover"),
        }
    }
}

} // verus!
