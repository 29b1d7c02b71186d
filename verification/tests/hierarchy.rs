use maestro::album::Album;
use maestro::raw;
use maestro::text::Text;
use maestro::track::{same_path, TrackMut};
use std::borrow::Cow;

fn album_with_discs(discs: Vec<raw::Disc>) -> Album {
    let album = raw::Album::new(Text::from("foo")).with_discs(discs);
    Album::new(album, String::from("."))
}

fn titled(titles: &[&str]) -> raw::Disc {
    raw::Disc::from_tracks(
        titles
            .iter()
            .map(|t| raw::Track::new(Text::from(*t)))
            .collect(),
    )
}

#[test]
fn only_disc_has_no_filename() {
    let album = album_with_discs(vec![raw::Disc::new()]);
    let disc = album.disc(1).unwrap();
    assert!(disc.filename().is_none());
}

#[test]
fn only_disc_has_empty_filename() {
    let album = album_with_discs(vec![]);
    let mut raw_album = raw::Album::new(Text::from("title"));
    raw_album.discs.push(raw::Disc::new());
    let album2 = Album::new(raw_album, String::from("."));
    let disc = album2.disc(1).unwrap();
    assert_eq!(disc.filename(), None);
    assert!(album.disc(1).is_none());
}

#[test]
fn discs_are_named_correctly() {
    let album = album_with_discs(vec![raw::Disc::new(), raw::Disc::new()]);
    assert_eq!(
        Some(String::from("Disc 1")),
        album.disc(1).unwrap().filename()
    );
    assert_eq!(
        Some(String::from("Disc 2")),
        album.disc(2).unwrap().filename()
    );
}

#[test]
fn first_disc_is_named_correctly() {
    let album = album_with_discs(vec![raw::Disc::new(), raw::Disc::new()]);
    let disc = album.disc(1).unwrap();
    assert_eq!(disc.filename().unwrap(), "Disc 1");
}

#[test]
fn second_disc_is_named_correctly() {
    let album = album_with_discs(vec![raw::Disc::new(), raw::Disc::new()]);
    let disc = album.disc(2).unwrap();
    assert_eq!(disc.filename().unwrap(), "Disc 2");
}

#[test]
fn disc_only_disc_has_same_path_as_album() {
    let album = album_with_discs(vec![raw::Disc::new()]);
    let disc = album.disc(1).unwrap();
    assert_eq!(album.path(), disc.path());
}

#[test]
fn disc_numbers_are_padded_to_the_widest() {
    let album = album_with_discs((0..11).map(|_| raw::Disc::new()).collect());
    assert_eq!(album.disc(1).unwrap().filename().unwrap(), "Disc 01");
    assert_eq!(album.disc(11).unwrap().filename().unwrap(), "Disc 11");
    assert_eq!(
        album.disc(3).unwrap().path(),
        vec![String::from("."), String::from("Disc 03")]
    );
    assert!(album.disc(0).is_none());
    assert!(album.disc(12).is_none());
    assert_eq!(album.discs().len(), 11);
    assert_eq!(album.discs()[4].disc_number, 5);
}

#[test]
fn album_artist_is_only_artist_in_list() {
    let album = raw::Album::new(Text::from("foo")).with_artists(vec![Text::from(("b", "c"))]);
    assert_eq!(Cow::Borrowed(&Text::from(("b", "c"))), album.artist());
    let album = Album::new(album, String::from("."));
    assert_eq!(*album.artist(), Text::new("b", Some("c")));
}

#[test]
fn album_artist_is_comma_separated_if_multiple() {
    let album = raw::Album::new(Text::from("foo"))
        .with_artists(vec![Text::from("a"), Text::from(("b", "c"))]);
    assert_eq!(
        Cow::<Text>::Owned(Text::from(("a, b", "a, c"))),
        album.artist()
    );
    let album = Album::new(album, String::from("."));
    assert_eq!(*album.artist(), Text::new("a, b", Some("a, c")));
}

fn album_of_one_track(track: raw::Track) -> Album {
    let album = raw::Album::new(Text::from("foo"))
        .with_artists(vec![Text::from("a"), Text::from(("b", "c"))])
        .with_discs(vec![raw::Disc::from_tracks(vec![track])]);
    Album::new(album, String::from("."))
}

#[test]
fn track_artists_are_inherited_from_album() {
    let album = album_of_one_track(raw::Track::new(Text::from("song")));
    let disc = album.disc(1).unwrap();
    let track = disc.track(1).unwrap();
    assert_eq!(&[Text::from("a"), Text::from(("b", "c"))], track.artists());
}

#[test]
fn track_artists_are_overridden_by_track() {
    let album = album_of_one_track(
        raw::Track::new(Text::from("song")).with_artists(Some(vec![Text::from("d")])),
    );
    let disc = album.disc(1).unwrap();
    let track = disc.track(1).unwrap();
    assert_eq!(&[Text::from("d")], track.artists());
}

#[test]
fn track_no_album_artists_without_override() {
    let album = album_of_one_track(raw::Track::new(Text::from("song")));
    let disc = album.disc(1).unwrap();
    let track = disc.track(1).unwrap();
    assert!(track.album_artists().is_none());
    assert!(track.album_artist().is_none());
}

#[test]
fn track_album_artists_are_set_when_overridden() {
    let album = album_of_one_track(
        raw::Track::new(Text::from("song")).with_artists(Some(vec![Text::from("d")])),
    );
    let disc = album.disc(1).unwrap();
    let track = disc.track(1).unwrap();
    assert_eq!(
        Some(&[Text::from("a"), Text::from(("b", "c"))][..]),
        track.album_artists(),
    );
    assert_eq!(
        track.album_artist().map(|t| t.into_owned()),
        Some(Text::from(("a, b", "a, c")))
    );
    assert_eq!(*track.artist(), Text::from("d"));
}

#[test]
fn own_artists_equal_to_the_albums_give_no_album_artists() {
    let album = album_of_one_track(
        raw::Track::new(Text::from("song"))
            .with_artists(Some(vec![Text::from("a"), Text::from(("b", "c"))])),
    );
    let track = album.disc(1).unwrap().into_track(1).unwrap();
    assert_eq!(&[Text::from("a"), Text::from(("b", "c"))], track.artists());
    assert!(track.album_artists().is_none());
}

#[test]
fn own_empty_artist_list_is_kept() {
    let album = album_of_one_track(
        raw::Track::new(Text::from("song")).with_artists(Some(vec![])),
    );
    let track = album.disc(1).unwrap().into_track(1).unwrap();
    assert!(track.artists().is_empty());
    assert_eq!(*track.artist(), Text::from(""));
    assert_eq!(
        Some(&[Text::from("a"), Text::from(("b", "c"))][..]),
        track.album_artists(),
    );
}

#[test]
fn track_number_has_single_digit_track_num_in_filename() {
    let album = raw::Album::new(Text::from("foo"))
        .with_artists(vec![Text::from("a"), Text::from(("b", "c"))])
        .with_discs(vec![raw::Disc::from_tracks(vec![
            raw::Track::new(Text::from("song")).with_artists(Some(vec![Text::from("d")])),
            raw::Track::new(Text::from("other")),
        ])]);
    let album = Album::new(album, String::from("."));
    let disc = album.disc(1).unwrap();
    let track = disc.track(1).unwrap();
    let filename = track.canonical_filename();
    assert_eq!("1 - song.mp3", filename);
}

#[test]
fn track_number_has_two_digit_track_num_in_filename() {
    let album = raw::Album::new(Text::from("foo"))
        .with_artists(vec![Text::from("a"), Text::from(("b", "c"))])
        .with_discs(vec![raw::Disc::from_tracks(vec![
            raw::Track::new(Text::from("song")).with_artists(Some(vec![Text::from("d")])),
            raw::Track::new(Text::from("2")),
            raw::Track::new(Text::from("3")),
            raw::Track::new(Text::from("4")),
            raw::Track::new(Text::from("5")),
            raw::Track::new(Text::from("6")),
            raw::Track::new(Text::from("7")),
            raw::Track::new(Text::from("8")),
            raw::Track::new(Text::from("9")),
            raw::Track::new(Text::from("10")),
        ])]);
    let album = Album::new(album, String::from("."));
    let disc = album.disc(1).unwrap();
    let track = disc.track(1).unwrap();
    let filename = track.canonical_filename();
    assert_eq!("01 - song.mp3", filename);
    assert_eq!("10 - 10.mp3", disc.track(10).unwrap().canonical_filename());
}

#[test]
fn track_number_is_removed_from_filename_when_only_track() {
    let album = album_of_one_track(
        raw::Track::new(Text::from("song")).with_artists(Some(vec![Text::from("d")])),
    );
    let disc = album.disc(1).unwrap();
    let track = disc.track(1).unwrap();
    let filename = track.canonical_filename();
    assert_eq!("song.mp3", filename);
    assert_eq!("song.mp3", track.filename_vw());
    assert_eq!(
        track.path(),
        vec![String::from("."), String::from("song.mp3")]
    );
}

#[test]
fn numbers_come_from_the_place_in_the_album() {
    let album = album_with_discs(vec![titled(&["a", "b", "c"]), titled(&["d"])]);
    let second = album.disc(2).unwrap();
    assert_eq!(second.disc_number, 2);
    assert_eq!(second.disc_number(), 2);
    let track = second.track(1).unwrap();
    assert_eq!(track.track_number, 1);
    assert_eq!(track.title().value(), "d");
    assert_eq!(album.disc(1).unwrap().filename().unwrap(), "Disc 1");
    assert_eq!(second.filename().unwrap(), "Disc 2");
    assert!(!second.is_only_disc());
    assert_eq!(second.num_tracks(), 1);
    assert!(second.track(2).is_none());
    assert!(second.track(0).is_none());
    assert_eq!(album.num_tracks(), 4);
    assert_eq!(album.num_discs(), 2);
    let all = album.tracks();
    let places: Vec<(usize, usize, String)> = all
        .iter()
        .map(|t| {
            (
                t.disc().disc_number,
                t.track_number,
                t.title().value().to_string(),
            )
        })
        .collect();
    assert_eq!(
        places,
        vec![
            (1, 1, "a".to_string()),
            (1, 2, "b".to_string()),
            (1, 3, "c".to_string()),
            (2, 1, "d".to_string()),
        ]
    );
    let first = album.disc(1).unwrap();
    let on_first: Vec<usize> = first.tracks().iter().map(|t| t.track_number).collect();
    assert_eq!(on_first, vec![1, 2, 3]);
}

#[test]
fn empty_discs_have_no_tracks_to_list() {
    let album = album_with_discs(vec![raw::Disc::new(), titled(&["x"]), raw::Disc::new()]);
    let all = album.tracks();
    assert_eq!(all.len(), 1);
    assert_eq!(all[0].disc().disc_number, 2);
    assert_eq!(all[0].track_number, 1);
    assert_eq!(album.num_tracks(), 1);
    assert_eq!(album_with_discs(vec![]).tracks().len(), 0);
}

#[test]
fn car_names_carry_disc_and_track_numbers() {
    let mut discs: Vec<raw::Disc> = (0..9).map(|_| titled(&["x"])).collect();
    discs.push(titled(&["a: b", "c", "d", "e", "f", "g", "h", "i", "j", "k", "l"]));
    let album = album_with_discs(discs);
    let disc = album.disc(10).unwrap();
    let track = disc.track(1).unwrap();
    assert_eq!(track.filename_vw(), "10-01 - a - b.mp3");
    assert_eq!(track.canonical_filename(), "01 - a - b.mp3");
    let third = album.disc(3).unwrap().into_track(1).unwrap();
    assert_eq!(third.filename_vw(), "03-1 - x.mp3");
    assert_eq!(third.canonical_filename(), "1 - x.mp3");
    assert_eq!(
        third.canonical_path(),
        vec![
            String::from("."),
            String::from("Disc 03"),
            String::from("1 - x.mp3")
        ]
    );
    assert_eq!(third.path(), third.canonical_path());
}

#[test]
fn explicit_filename_is_found_in_the_album_folder() {
    let album = raw::Album::new(Text::from("foo")).with_discs(vec![
        raw::Disc::from_tracks(vec![raw::Track::new(Text::from("song"))
            .with_filename(Some(String::from("odd/name.mp3")))]),
        raw::Disc::new(),
    ]);
    let album = Album::new(album, String::from("root"));
    let track = album.disc(1).unwrap().into_track(1).unwrap();
    assert_eq!(track.filename(), "odd/name.mp3");
    assert!(matches!(track.filename(), Cow::Borrowed(_)));
    assert_eq!(
        track.path(),
        vec![String::from("root"), String::from("odd/name.mp3")]
    );
    assert_eq!(track.canonical_filename(), "1 - song.mp3");
    assert_eq!(track.filename_vw(), "1-1 - song.mp3");
    assert_eq!(
        track.canonical_path(),
        vec![
            String::from("root"),
            String::from("Disc 1"),
            String::from("1 - song.mp3")
        ]
    );
}

#[test]
fn year_genre_comment_and_lyrics_are_resolved() {
    let album = raw::Album::new(Text::from("foo"))
        .with_year(Some(1999))
        .with_genre(Some(Text::from("Rock")))
        .with_discs(vec![raw::Disc::from_tracks(vec![
            raw::Track::new(Text::from("plain")),
            raw::Track::new(Text::from("own"))
                .with_year(Some(2004))
                .with_genre(Some(Text::from("Pop")))
                .with_comment(Text::from("live"))
                .with_lyrics(Text::from("la la"))
                .with_featuring(Some(vec![Text::from("guest")])),
        ])]);
    let album = Album::new(album, String::from("."));
    let disc = album.disc(1).unwrap();
    let plain = disc.track(1).unwrap();
    assert_eq!(plain.year(), Some(1999));
    assert_eq!(plain.genre(), Some(&Text::from("Rock")));
    assert_eq!(plain.comment(), None);
    assert_eq!(plain.lyrics(), None);
    let own = disc.track(2).unwrap();
    assert_eq!(own.year(), Some(2004));
    assert_eq!(own.genre(), Some(&Text::from("Pop")));
    assert_eq!(own.comment(), Some(&Text::from("live")));
    assert_eq!(own.lyrics(), Some(&Text::from("la la")));
    assert_eq!(album.year(), Some(1999));
    assert_eq!(album.genre(), Some(&Text::from("Rock")));
    assert_eq!(album.title(), &Text::from("foo"));
    assert_eq!(album.raw().num_discs(), 1);
    assert_eq!(own.album().title(), &Text::from("foo"));
    let bare = album_with_discs(vec![titled(&["x"])]);
    let track = bare.disc(1).unwrap().into_track(1).unwrap();
    assert_eq!(track.year(), None);
    assert_eq!(track.genre(), None);
}

#[test]
fn folders_lie_below_extras() {
    let album = Album::new(raw::Album::new(Text::from("foo")), String::from("/music/foo"));
    let s = |parts: &[&str]| parts.iter().map(|p| p.to_string()).collect::<Vec<_>>();
    assert_eq!(album.path(), s(&["/music/foo"]));
    assert_eq!(album.extras_path(), s(&["/music/foo", "extras"]));
    assert_eq!(album.image_path(), s(&["/music/foo", "extras", "images"]));
    assert_eq!(album.cache_path(), s(&["/music/foo", "extras", ".cache"]));
    assert_eq!(
        album.covers_path(),
        s(&["/music/foo", "extras", ".cache", "covers"])
    );
    assert_eq!(
        album.covers_vw_path(),
        s(&["/music/foo", "extras", ".cache", "covers-vw"])
    );
}

#[test]
fn raw_builders_replace_what_they_name() {
    let album = raw::Album::new(Text::from("foo")).with_title(Text::from("bar"));
    assert_eq!(album.title, Text::from("bar"));
    assert_eq!(album.num_discs(), 0);
    let disc = raw::Disc::new()
        .with_track(raw::Track::new(Text::from("a")))
        .with_track(raw::Track::new(Text::from("b")));
    assert_eq!(disc.num_tracks(), 2);
    assert_eq!(disc.tracks()[1].title, Text::from("b"));
    let mut other = raw::Disc::default();
    other.push_track(raw::Track::new(Text::from("c")));
    assert_eq!(other.tracks().len(), 1);
}

#[test]
fn artists_are_added_one_by_one() {
    let mut track = raw::Track::new(Text::from("song"));
    assert_eq!(track.artists(), None);
    track.push_artist(Text::from("a"));
    track.push_artist(Text::from("b"));
    assert_eq!(track.artists(), Some(&[Text::from("a"), Text::from("b")][..]));
    track.set_year(7);
    track.set_genre(Text::from("g"));
    track.set_comment(Text::from("c"));
    track.set_lyrics(Text::from("l"));
    assert_eq!(track.year(), Some(7));
    assert_eq!(track.genre(), Some(&Text::from("g")));
    assert_eq!(track.comment(), Some(&Text::from("c")));
    assert_eq!(track.lyrics(), Some(&Text::from("l")));
    let mut album = raw::Album::new(Text::from("title"))
        .with_artist(Text::from("a"))
        .with_artist(Text::from(("b", "c")))
        .with_disc(raw::Disc::new().with_track(raw::Track::new(Text::from("song")).with_artist(Text::from("d"))));
    album.push_artist(Text::from("e"));
    album.set_year(3);
    album.set_genre(Text::from("g"));
    album.push_disc(raw::Disc::new());
    assert_eq!(album.artists.len(), 3);
    assert_eq!(album.year, Some(3));
    assert_eq!(album.num_discs(), 2);
    let album = Album::new(album, String::from("."));
    let track = album.disc(1).unwrap().into_track(1).unwrap();
    assert_eq!(track.artists(), &[Text::from("d")]);
}

#[test]
fn track_held_for_changes_always_carries_its_number() {
    let album = album_of_one_track(raw::Track::new(Text::from("unused")));
    let mut own = raw::Track::new(Text::from("so: ng")).with_year(Some(5));
    let track = TrackMut::new(album.disc(1).unwrap(), &mut own, 1);
    assert_eq!(track.canonical_filename(), "1 - so - ng.mp3");
    assert_eq!(track.filename(), "1 - so - ng.mp3");
    assert_eq!(track.filename_vw(), "1 - so - ng.mp3");
    assert_eq!(track.track_number, 1);
    assert_eq!(track.title(), &Text::from("so: ng"));
    assert_eq!(track.artists(), &[Text::from("a"), Text::from(("b", "c"))]);
    assert_eq!(*track.artist(), Text::from(("a, b", "a, c")));
    assert_eq!(track.album_artists(), None);
    assert!(track.album_artist().is_none());
    assert_eq!(track.year(), Some(5));
    assert_eq!(track.genre(), None);
    assert_eq!(track.comment(), None);
    assert_eq!(track.lyrics(), None);
    assert_eq!(track.album().title(), &Text::from("foo"));
    assert_eq!(track.disc().disc_number, 1);
    assert_eq!(
        track.canonical_path(),
        vec![".".to_string(), "1 - so - ng.mp3".to_string()]
    );
    assert_eq!(track.path(), track.canonical_path());
    assert_eq!(track.rename(), None);
}

#[test]
fn misplaced_file_is_to_be_renamed() {
    let album = album_with_discs(vec![titled(&["a"]), titled(&["b", "c"])]);
    let mut own = raw::Track::new(Text::from("c"))
        .with_artists(Some(vec![Text::from("x")]))
        .with_filename(Some("old name.mp3".to_string()));
    let track = TrackMut::new(album.disc(2).unwrap(), &mut own, 2);
    assert_eq!(track.filename(), "old name.mp3");
    assert_eq!(track.canonical_filename(), "2 - c.mp3");
    assert_eq!(track.filename_vw(), "2-2 - c.mp3");
    assert_eq!(track.album_artists(), Some(&[][..]));
    let from = vec![".".to_string(), "old name.mp3".to_string()];
    let to = vec![".".to_string(), "Disc 2".to_string(), "2 - c.mp3".to_string()];
    assert_eq!(track.rename(), Some((from.clone(), to.clone())));
    assert!(same_path(&from, &from));
    assert!(!same_path(&from, &to));
    assert!(!same_path(&to, &vec![".".to_string(), "Disc 2".to_string(), "x".to_string()]));
    let mut there = raw::Track::new(Text::from("b"));
    let track = TrackMut::new(album.disc(2).unwrap(), &mut there, 1);
    assert_eq!(track.rename(), None);
}

#[test]
fn tracks_are_changed_in_place() {
    let mut disc = titled(&["a", "b"]);
    disc.tracks_mut()[1].set_year(1984);
    disc.tracks_mut()[0].title = Text::from("z");
    assert_eq!(disc.tracks()[1].year(), Some(1984));
    assert_eq!(disc.tracks()[0].title, Text::from("z"));
    assert_eq!(disc.num_tracks(), 2);
}
