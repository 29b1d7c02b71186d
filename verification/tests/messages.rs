use maestro::image::{Image, LoadError, LoadWithCacheError};
use maestro::raw::album::FromYamlError as AlbumError;
use maestro::raw::disc::FromYamlError as DiscError;
use maestro::raw::track::FromYamlError as TrackError;
use maestro::text::FromYamlError as TextError;
use maestro::text::with_detail;
use maestro::validate::ValidateError;
use maestro::yaml::Yaml;
use std::io::{Error, ErrorKind};

#[test]
fn definition_errors_say_what_is_wrong() {
    assert_eq!(TextError::MissingText.message(), "missing \"text\"");
    assert_eq!(
        TextError::InvalidText(Yaml::Null).message(),
        "text must be a string"
    );
    assert_eq!(
        TextError::InvalidAscii(Yaml::Null).message(),
        "ascii must be a string"
    );
    assert_eq!(
        TextError::NotStringOrHash(Yaml::Null).message(),
        "text must be a string or hash"
    );
    assert_eq!(TrackError::MissingTitle.message(), "missing title");
    assert_eq!(
        TrackError::InvalidTitle(TextError::MissingText).message(),
        "invalid title: missing \"text\""
    );
    assert_eq!(
        TrackError::InvalidArtists(Yaml::Null).message(),
        "invalid artists"
    );
    assert_eq!(
        TrackError::InvalidYear(Yaml::Null).message(),
        "year must be integer"
    );
    assert_eq!(
        TrackError::InvalidTrack(Yaml::Null).message(),
        "track must be a string or hash"
    );
    assert_eq!(DiscError::InvalidTracks.message(), "invalid tracks");
    assert_eq!(
        DiscError::InvalidTrack(TrackError::MissingTitle).message(),
        "invalid track: missing title"
    );
    assert_eq!(AlbumError::NotHash.message(), "album must be a hash");
    assert_eq!(AlbumError::MissingTitle.message(), "missing \"title\"");
    assert_eq!(AlbumError::MissingArtists.message(), "missing \"artists\"");
    assert_eq!(
        AlbumError::MissingDiscOrTracks.message(),
        "missing \"discs\" or \"tracks\""
    );
    assert_eq!(
        AlbumError::InvalidDisc(DiscError::InvalidTrack(TrackError::InvalidGenre(
            TextError::InvalidAscii(Yaml::Integer(1))
        )))
        .message(),
        "invalid disc: invalid track: invalid genre: ascii must be a string"
    );
    assert_eq!(with_detail("a", "b"), "a: b");
}

#[test]
fn image_errors_say_what_is_wrong() {
    let io = || Error::new(ErrorKind::Other, "disk on fire");
    assert_eq!(LoadError::NoImage.message(), "no image found");
    assert_eq!(
        LoadError::CouldntReadFile(io()).message(),
        "couldn't read file: disk on fire"
    );
    assert_eq!(LoadWithCacheError::NoImage.message(), "no image found");
    assert_eq!(
        LoadWithCacheError::EmptyImage.message(),
        "image has no pixels"
    );
    assert_eq!(
        LoadWithCacheError::CacheLoadError(LoadError::CouldntReadFile(io())).message(),
        "error with cache file: couldn't read file: disk on fire"
    );
    assert_eq!(
        LoadWithCacheError::CouldntCreateCacheFolder(io()).message(),
        "couldn't create cache folder: disk on fire"
    );
    assert_eq!(
        LoadWithCacheError::CouldntWriteCachedFile(io()).message(),
        "couldn't write cached file: disk on fire"
    );
    let unknown = match Image::from_data(vec![0, 1, 2, 3]) {
        Err(e) => e,
        Ok(image) => panic!("loaded {:?}", image),
    };
    assert!(unknown.message().starts_with("couldn't detect format: "));
    assert!(unknown.message().len() > "couldn't detect format: ".len());
    let gif = match Image::from_data(b"GIF89a".to_vec()) {
        Err(e) => e,
        Ok(image) => panic!("loaded {:?}", image),
    };
    assert_eq!(gif.message(), "unsupported format: invalid format: Gif");
    let broken = image::load_from_memory(&[1, 2, 3]).unwrap_err();
    assert!(LoadWithCacheError::CouldntOpenUncachedImage(broken)
        .message()
        .starts_with("couldn't open uncached image: "));
}

#[test]
fn tag_errors_say_what_is_wrong() {
    assert_eq!(
        ValidateError::MissingFrame("title").message(),
        "missing frame title"
    );
    assert_eq!(
        ValidateError::DuplicateFrame("title").message(),
        "duplicate frame title"
    );
    assert_eq!(
        ValidateError::IncorrectDataInFrame("year", "1999".to_string()).message(),
        "incorrect data in frame year"
    );
    assert_eq!(
        ValidateError::UnexpectedFrame("disc").message(),
        "unexpected frame disc"
    );
    assert_eq!(
        ValidateError::CouldntLoadCover(LoadWithCacheError::NoImage).message(),
        "couldn't load cover"
    );
}
