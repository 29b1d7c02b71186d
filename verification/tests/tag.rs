use maestro::album::Album;
use maestro::image::Image;
use maestro::raw;
use maestro::tag::{picture_of, Picture, Tag};
use maestro::text::Text;

#[test]
fn tag_holds_the_resolved_attributes() {
    let album = raw::Album::new(Text::from("Plötzlich"))
        .with_artists(vec![Text::from("a"), Text::from(("bé", "bee"))])
        .with_year(Some(1999))
        .with_discs(vec![
            raw::Disc::from_tracks(vec![
                raw::Track::new(Text::from(("Söng", "Song")))
                    .with_artists(Some(vec![Text::from("ç")]))
                    .with_genre(Some(Text::from("Pop")))
                    .with_comment(Text::from("live"))
                    .with_lyrics(Text::from("la")),
                raw::Track::new(Text::from("other")),
            ]),
            raw::Disc::new(),
        ]);
    let album = Album::new(album, String::from("."));
    let track = album.disc(1).unwrap().into_track(1).unwrap();
    assert_eq!(
        track.tag(),
        Tag {
            title: "Söng".to_string(),
            artist: Some("ç".to_string()),
            track: 1,
            album_artist: Some("a, bé".to_string()),
            disc: Some(1),
            album: "Plötzlich".to_string(),
            year: Some(1999),
            genre: Some("Pop".to_string()),
            comment: Some("live".to_string()),
            lyrics: Some("la".to_string()),
            picture: None,
        }
    );
    assert_eq!(
        track.tag_vw(),
        Tag {
            title: "Song".to_string(),
            artist: Some("c".to_string()),
            track: 1,
            album_artist: Some("a, bee".to_string()),
            disc: Some(1),
            album: "Plotzlich".to_string(),
            year: None,
            genre: None,
            comment: None,
            lyrics: None,
            picture: None,
        }
    );
    let second = album.disc(1).unwrap().into_track(2).unwrap();
    let tag = second.tag();
    assert_eq!(tag.artist, Some("a, bé".to_string()));
    assert_eq!(tag.album_artist, None);
    assert_eq!(tag.track, 2);
    assert_eq!(tag.genre, None);
}

#[test]
fn tag_of_only_disc_has_no_disc_number_and_no_artist_without_artists() {
    let album = raw::Album::new(Text::from("x"))
        .with_discs(vec![raw::Disc::from_tracks(vec![raw::Track::new(Text::from("t"))])]);
    let album = Album::new(album, String::from("."));
    let track = album.disc(1).unwrap().into_track(1).unwrap();
    let tag = track.tag();
    assert_eq!(tag.disc, None);
    assert_eq!(tag.artist, None);
    assert_eq!(tag.album_artist, None);
    assert_eq!(tag.year, None);
    assert_eq!(track.tag_vw().disc, None);
}

#[test]
fn picture_has_the_mime_type_of_the_image() {
    assert_eq!(picture_of(None), None);
    assert_eq!(
        picture_of(Some(&Image::from_jpeg(vec![9]))),
        Some(Picture {
            mime_type: "image/jpeg".to_string(),
            data: vec![9]
        })
    );
}
