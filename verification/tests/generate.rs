use maestro::generate::{less, most_often, most_often_number, Field, TagInfo, TrackInfo};
use maestro::raw::{Album, Disc, Track};
use maestro::text::Text;

fn tag() -> TagInfo {
    TagInfo {
        title: None,
        artist: None,
        album: None,
        album_artist: None,
        year: None,
        genre: None,
        disc: None,
    }
}

fn file(name: &str, tag: Option<TagInfo>) -> TrackInfo {
    TrackInfo {
        filename: Some(format!("{}.mp3", name)),
        stem: Some(name.to_string()),
        tag,
    }
}

fn strings(values: &[&str]) -> Vec<String> {
    values.iter().map(|v| v.to_string()).collect()
}

#[test]
fn most_often_takes_the_first_of_the_most_frequent() {
    assert_eq!(most_often(&strings(&[])), None);
    assert_eq!(most_often(&strings(&["a"])), Some(&"a".to_string()));
    assert_eq!(
        most_often(&strings(&["a", "b", "b", "a", "c"])),
        Some(&"a".to_string())
    );
    assert_eq!(
        most_often(&strings(&["a", "b", "b", "c"])),
        Some(&"b".to_string())
    );
    assert_eq!(most_often_number(&vec![]), None);
    assert_eq!(most_often_number(&vec![3, 1, 1, 3, 1]), Some(1));
    assert_eq!(most_often_number(&vec![3, 1, 2]), Some(3));
}

#[test]
fn texts_are_compared_character_by_character() {
    assert!(less("1", "2"));
    assert!(less("10", "2"));
    assert!(less("", "a"));
    assert!(!less("a", ""));
    assert!(!less("", ""));
    assert!(!less("a", "a"));
    assert!(less("a", "ab"));
    assert!(!less("ab", "a"));
    assert!(less("9", "Disc 1"));
    assert!(!less("Disc 1", "9"));
    assert_eq!(less("é", "z"), "é" < "z");
    assert_eq!(less("z", "é"), "z" < "é");
}

#[test]
fn file_without_tag_is_named_by_its_stem() {
    let info = file("song", None);
    assert_eq!(info.title(), "song");
    assert_eq!(info.disc_key(), "Disc 1");
    assert_eq!(info.year(), None);
    assert_eq!(info.field(Field::Artist), None);
    assert_eq!(
        info.track(),
        Track::new(Text::from("song")).with_filename(Some("song.mp3".to_string()))
    );
    let nameless = TrackInfo {
        filename: None,
        stem: None,
        tag: None,
    };
    assert_eq!(nameless.title(), "");
    assert_eq!(nameless.track(), Track::new(Text::from("")));
}

#[test]
fn tagged_file_gives_its_track_what_the_tag_says() {
    let info = file(
        "01",
        Some(TagInfo {
            title: Some("Söng".to_string()),
            artist: Some("me".to_string()),
            album: Some("al".to_string()),
            album_artist: Some("us".to_string()),
            year: Some(1984),
            genre: Some("Pop".to_string()),
            disc: Some(12),
        }),
    );
    assert_eq!(info.title(), "Söng");
    assert_eq!(info.disc_key(), "12");
    assert_eq!(info.field(Field::Album), Some(&"al".to_string()));
    assert_eq!(info.field(Field::AlbumArtist), Some(&"us".to_string()));
    assert_eq!(info.field(Field::Genre), Some(&"Pop".to_string()));
    assert_eq!(
        info.track(),
        Track::new(Text::from("Söng"))
            .with_filename(Some("01.mp3".to_string()))
            .with_artists(Some(vec![Text::from("me")]))
            .with_year(Some(1984))
            .with_genre(Some(Text::from("Pop")))
    );
}

#[test]
fn album_is_made_of_what_most_tags_say() {
    let tagged = |album: &str, artist: &str, year: i32, disc: Option<u32>| {
        Some(TagInfo {
            album: Some(album.to_string()),
            artist: Some(artist.to_string()),
            year: Some(year),
            disc,
            ..tag()
        })
    };
    let infos = vec![
        file("a", tagged("X", "p", 2000, Some(2))),
        file("b", tagged("Y", "q", 2001, Some(10))),
        file("c", tagged("Y", "q", 2001, Some(2))),
        file("d", None),
        file("e", tagged("X", "p", 2000, Some(1))),
        file("f", tagged("Y", "p", 2002, None)),
    ];
    let album = Album::generate(&infos);
    assert_eq!(album.title, Text::from("Y"));
    assert_eq!(album.artists, vec![Text::from("p")]);
    assert_eq!(album.year, Some(2000));
    assert_eq!(album.genre(), None);
    let titles = |d: &Disc| -> Vec<String> {
        d.tracks()
            .iter()
            .map(|t| t.title.value().to_string())
            .collect()
    };
    let discs: Vec<Vec<String>> = album.discs.iter().map(titles).collect();
    assert_eq!(
        discs,
        vec![
            vec!["e".to_string()],
            vec!["b".to_string()],
            vec!["a".to_string(), "c".to_string()],
            vec!["d".to_string(), "f".to_string()],
        ]
    );
}

#[test]
fn album_artist_of_the_tags_goes_before_the_artist() {
    let infos = vec![
        file(
            "a",
            Some(TagInfo {
                artist: Some("solo".to_string()),
                genre: Some("g".to_string()),
                ..tag()
            }),
        ),
        file(
            "b",
            Some(TagInfo {
                artist: Some("solo".to_string()),
                album_artist: Some("band".to_string()),
                ..tag()
            }),
        ),
    ];
    let album = Album::generate(&infos);
    assert_eq!(album.artists, vec![Text::from("band")]);
    assert_eq!(album.title, Text::from(""));
    assert_eq!(album.genre(), Some(&Text::from("g")));
    assert_eq!(album.num_discs(), 1);
    let nothing = Album::generate(&vec![]);
    assert_eq!(nothing.title, Text::from(""));
    assert_eq!(nothing.artists, vec![Text::from("")]);
    assert_eq!(nothing.num_discs(), 0);
    assert_eq!(nothing.year, None);
}
