use maestro::album::Album;
use maestro::raw;
use maestro::tag::{Picture, Tag};
use maestro::text::Text;
use maestro::image::LoadWithCacheError;
use maestro::validate::{
    validate, validate_frames, validate_with, Found, FoundDate, FoundPicture, FoundText,
    Timestamp, ValidateError,
};

fn tag() -> Tag {
    Tag {
        title: "t".to_string(),
        artist: Some("a".to_string()),
        track: 3,
        album_artist: None,
        disc: Some(2),
        album: "al".to_string(),
        year: Some(1999),
        genre: None,
        comment: Some("c".to_string()),
        lyrics: None,
        picture: Some(Picture {
            mime_type: "image/png".to_string(),
            data: vec![1, 2],
        }),
    }
}

fn year(year: i32, month: Option<u8>) -> FoundDate {
    FoundDate {
        date: Timestamp {
            year,
            month,
            day: None,
            hour: None,
            minute: None,
            second: None,
        },
        shown: match month {
            Some(m) => format!("{}-{:02}", year, m),
            None => format!("{}", year),
        },
    }
}

fn comment(lang: &str, text: &str) -> FoundText {
    FoundText {
        lang: lang.to_string(),
        description: String::new(),
        text: text.to_string(),
        shown: format!("{}:{}", lang, text),
    }
}

fn found() -> Found {
    Found {
        title: Some("t".to_string()),
        artist: Some("a".to_string()),
        track: Some(3),
        album_artist: None,
        disc: Some(2),
        album: Some("al".to_string()),
        year: Some(year(1999, None)),
        genre: None,
        comment: Some(comment("eng", "c")),
        lyrics: None,
        picture: Some(FoundPicture {
            mime_type: "image/png".to_string(),
            is_front_cover: true,
            description: String::new(),
            data: vec![1, 2],
        }),
    }
}

fn shown(errors: Result<(), Vec<ValidateError>>) -> Vec<String> {
    match errors {
        Ok(()) => vec![],
        Err(errors) => errors
            .iter()
            .map(|e| match e {
                ValidateError::MissingFrame(f) => format!("missing {}", f),
                ValidateError::UnexpectedFrame(f) => format!("unexpected {}", f),
                ValidateError::IncorrectDataInFrame(f, s) => format!("incorrect {} {}", f, s),
                other => format!("{:?}", other),
            })
            .collect(),
    }
}

#[test]
fn tag_without_fault_is_valid() {
    assert!(validate(&tag(), &found()).is_ok());
}

#[test]
fn empty_tag_misses_what_should_be_there() {
    let nothing = Found {
        title: None,
        artist: None,
        track: None,
        album_artist: None,
        disc: None,
        album: None,
        year: None,
        genre: None,
        comment: None,
        lyrics: None,
        picture: None,
    };
    assert_eq!(
        shown(validate(&tag(), &nothing)),
        vec![
            "missing title",
            "missing artist",
            "missing track",
            "missing disc",
            "missing album",
            "missing year",
            "missing comments",
            "missing cover",
        ]
    );
}

#[test]
fn frames_that_differ_are_reported_in_order() {
    let mut other = found();
    other.title = Some("x".to_string());
    other.artist = Some("b".to_string());
    other.track = Some(40);
    other.album_artist = Some("aa".to_string());
    other.disc = Some(1);
    other.album = Some("y".to_string());
    other.year = Some(year(1999, Some(5)));
    other.genre = Some("g".to_string());
    other.comment = Some(comment("deu", "c"));
    other.lyrics = Some(comment("eng", "l"));
    other.picture.as_mut().unwrap().data = vec![1, 3];
    assert_eq!(
        shown(validate(&tag(), &other)),
        vec![
            "incorrect title x",
            "incorrect artist b",
            "incorrect track 40",
            "unexpected album artist",
            "incorrect disc 1",
            "incorrect album y",
            "incorrect year 1999-05",
            "unexpected genre",
            "incorrect comments deu:c",
            "unexpected lyrics",
            "incorrect cover ...",
        ]
    );
}

#[test]
fn picture_must_be_the_front_cover_without_description() {
    let mut other = found();
    other.picture.as_mut().unwrap().is_front_cover = false;
    assert_eq!(shown(validate(&tag(), &other)), vec!["incorrect cover ..."]);
    let mut other = found();
    other.picture.as_mut().unwrap().description = "d".to_string();
    assert_eq!(shown(validate(&tag(), &other)), vec!["incorrect cover ..."]);
    let mut other = found();
    other.picture.as_mut().unwrap().mime_type = "image/jpeg".to_string();
    assert_eq!(shown(validate(&tag(), &other)), vec!["incorrect cover ..."]);
    let mut other = found();
    other.comment.as_mut().unwrap().description = "d".to_string();
    assert_eq!(shown(validate(&tag(), &other)), vec!["incorrect comments eng:c"]);
    let mut other = found();
    other.year = Some(year(2000, None));
    assert_eq!(shown(validate(&tag(), &other)), vec!["incorrect year 2000"]);
}

#[test]
fn track_is_held_against_its_own_tag() {
    let album = raw::Album::new(Text::from("al"))
        .with_artists(vec![Text::from("a")])
        .with_discs(vec![raw::Disc::from_tracks(vec![raw::Track::new(
            Text::from("t"),
        )])]);
    let album = Album::new(album, String::from("."));
    let track = album.disc(1).unwrap().into_track(1).unwrap();
    let mut there = found();
    there.track = Some(1);
    there.disc = None;
    there.year = None;
    there.comment = None;
    there.picture = None;
    assert!(track.validate(&there).is_ok());
    there.disc = Some(1);
    assert_eq!(shown(track.validate(&there)), vec!["unexpected disc"]);
}

#[test]
fn cover_that_could_not_be_loaded_is_reported_last() {
    let mut other = found();
    other.title = Some("x".to_string());
    other.genre = Some("g".to_string());
    other.picture = None;
    let failed = validate_with(&tag(), &other, Err(LoadWithCacheError::EmptyImage));
    let errors = failed.unwrap_err();
    assert_eq!(errors.len(), 3);
    assert!(matches!(errors[0], ValidateError::IncorrectDataInFrame("title", _)));
    assert!(matches!(errors[1], ValidateError::UnexpectedFrame("genre")));
    assert!(matches!(
        errors[2],
        ValidateError::CouldntLoadCover(LoadWithCacheError::EmptyImage)
    ));
    let only_cover = validate_with(&tag(), &found(), Err(LoadWithCacheError::NoImage));
    let errors = only_cover.unwrap_err();
    assert_eq!(errors.len(), 1);
    assert!(matches!(errors[0], ValidateError::CouldntLoadCover(_)));
    assert_eq!(
        shown(validate_with(&tag(), &other, Ok(()))),
        vec!["incorrect title x", "unexpected genre", "missing cover"]
    );
    assert!(validate_with(&tag(), &found(), Ok(())).is_ok());
    assert_eq!(validate_frames(&tag(), &other).len(), 2);
    assert_eq!(validate_frames(&tag(), &found()).len(), 0);
}

#[test]
fn track_reports_a_cover_that_could_not_be_loaded() {
    let album = raw::Album::new(Text::from("al"))
        .with_artists(vec![Text::from("a")])
        .with_discs(vec![raw::Disc::from_tracks(vec![raw::Track::new(
            Text::from("t"),
        )])]);
    let album = Album::new(album, String::from("."));
    let track = album.disc(1).unwrap().into_track(1).unwrap();
    let mut there = found();
    there.track = Some(1);
    there.disc = None;
    there.year = None;
    there.comment = None;
    let errors = track
        .validate_with(&there, Err(LoadWithCacheError::NoImage))
        .unwrap_err();
    assert_eq!(errors.len(), 1);
    assert!(matches!(errors[0], ValidateError::CouldntLoadCover(_)));
    assert_eq!(
        shown(track.validate_with(&there, Ok(()))),
        vec!["unexpected cover"]
    );
}
