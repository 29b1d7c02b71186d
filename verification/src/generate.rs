//! Making an album definition from what the tags of a folder of files say.

use crate::chars::{chars_of, option_view};
use crate::raw::album::AlbumView;
use crate::raw::disc::track_views;
use crate::raw::track::TrackView;
use crate::raw::{Album, Disc, Track};
use crate::text::{Text, TextView};
use crate::utils::{push_zero_padded, spec_digits, text_views};
use vstd::prelude::*;
use vstd::string::StringExecFns;

verus! {

/// What the tag of a file says, as far as a definition is made from it.
#[derive(Debug, PartialEq, Eq)]
pub struct TagInfo {
    /// The title.
    pub title: Option<String>,
    /// The artist.
    pub artist: Option<String>,
    /// The title of the album.
    pub album: Option<String>,
    /// The artist of the album.
    pub album_artist: Option<String>,
    /// The year of the recording.
    pub year: Option<i32>,
    /// The genre.
    pub genre: Option<String>,
    /// The number of the disc.
    pub disc: Option<u32>,
}

/// A file of the folder. The files are taken in the order of their paths.
#[derive(Debug, PartialEq, Eq)]
pub struct TrackInfo {
    /// The path of the file below the folder, if it can be written down.
    pub filename: Option<String>,
    /// The name of the file without its extension, if it can be written down.
    pub stem: Option<String>,
    /// The tag of the file, if it has one.
    pub tag: Option<TagInfo>,
}

/// A text of a tag that the album as a whole is made from.
#[derive(Clone, Copy, Debug, PartialEq, Eq, Structural)]
pub enum Field {
    /// The title of the album.
    Album,
    /// The artist of the album.
    AlbumArtist,
    /// The artist of the track.
    Artist,
    /// The genre.
    Genre,
}

/// What a file's tag says in a field.
pub open spec fn spec_field(info: TrackInfo, field: Field) -> Option<Seq<char>> {
    match info.tag {
        None => None,
        Some(tag) => match field {
            Field::Album => option_view(tag.album),
            Field::AlbumArtist => option_view(tag.album_artist),
            Field::Artist => option_view(tag.artist),
            Field::Genre => option_view(tag.genre),
        },
    }
}

/// What the tags of the first `n` files say in a field, in order.
pub open spec fn spec_values(infos: Seq<TrackInfo>, field: Field, n: int) -> Seq<Seq<char>>
    decreases n,
{
    if n <= 0 || n > infos.len() {
        Seq::empty()
    } else {
        match spec_field(infos[n - 1], field) {
            Some(v) => spec_values(infos, field, n - 1).push(v),
            None => spec_values(infos, field, n - 1),
        }
    }
}

/// The year that a file's tag gives, taken as an unsigned number.
pub open spec fn spec_info_year(info: TrackInfo) -> Option<usize> {
    match info.tag {
        Some(tag) => match tag.year {
            Some(y) => Some(y as usize),
            None => None,
        },
        None => None,
    }
}

/// The years that the tags of the first `n` files give, in order.
pub open spec fn spec_years(infos: Seq<TrackInfo>, n: int) -> Seq<usize>
    decreases n,
{
    if n <= 0 || n > infos.len() {
        Seq::empty()
    } else {
        match spec_info_year(infos[n - 1]) {
            Some(y) => spec_years(infos, n - 1).push(y),
            None => spec_years(infos, n - 1),
        }
    }
}

/// How often `v` occurs among the first `n` values.
pub open spec fn spec_count<T>(values: Seq<T>, v: T, n: int) -> nat
    decreases n,
{
    if n <= 0 || n > values.len() {
        0
    } else if values[n - 1] == v {
        spec_count(values, v, n - 1) + 1
    } else {
        spec_count(values, v, n - 1)
    }
}

/// The place of the value that occurs most often, as far as the first `n`
/// places go; of values that occur equally often, the one that comes first.
pub open spec fn spec_best<T>(values: Seq<T>, n: int) -> int
    decreases n,
{
    if n <= 1 || n > values.len() {
        0
    } else {
        let before = spec_best(values, n - 1);
        if spec_count(values, values[n - 1], values.len() as int) > spec_count(
            values,
            values[before],
            values.len() as int,
        ) {
            n - 1
        } else {
            before
        }
    }
}

/// The value that occurs most often; of values that occur equally often,
/// the one that comes first. There is none among no values.
pub open spec fn spec_most_often<T>(values: Seq<T>) -> Option<T> {
    if values.len() == 0 {
        None
    } else {
        Some(values[spec_best(values, values.len() as int)])
    }
}

/// The best place lies among the places looked at, and no value occurs more
/// often than the one there.
pub proof fn lemma_best<T>(values: Seq<T>, n: int)
    requires
        1 <= n <= values.len(),
    ensures
        0 <= spec_best(values, n) < n,
        forall|j: int|
            0 <= j < n ==> spec_count(values, #[trigger] values[j], values.len() as int)
                <= spec_count(values, values[spec_best(values, n)], values.len() as int),
    decreases n,
{
    if n > 1 {
        lemma_best(values, n - 1);
    }
}

/// The place of the first largest number.
fn first_largest(counts: &Vec<usize>) -> (r: usize)
    requires
        counts@.len() > 0,
    ensures
        r < counts@.len(),
        forall|j: int| 0 <= j < counts@.len() ==> counts@[j] <= counts@[r as int],
        forall|j: int| 0 <= j < r ==> counts@[j] < counts@[r as int],
{
    let mut best: usize = 0;
    let mut i: usize = 1;
    while i < counts.len()
        invariant
            1 <= i <= counts@.len(),
            best < i,
            forall|j: int| 0 <= j < i ==> counts@[j] <= counts@[best as int],
            forall|j: int| 0 <= j < best ==> counts@[j] < counts@[best as int],
        decreases counts.len() - i,
    {
        if counts[i] > counts[best] {
            best = i;
        }
        i = i + 1;
    }
    best
}

/// The first largest number stands at the best place.
proof fn lemma_first_largest_is_best<T>(values: Seq<T>, counts: Seq<usize>, r: int, n: int)
    requires
        counts.len() == values.len(),
        forall|j: int|
            0 <= j < values.len() ==> counts[j] == spec_count(
                values,
                #[trigger] values[j],
                values.len() as int,
            ),
        0 <= r < values.len(),
        forall|j: int| 0 <= j < counts.len() ==> counts[j] <= counts[r],
        forall|j: int| 0 <= j < r ==> counts[j] < counts[r],
        1 <= n <= values.len(),
    ensures
        spec_best(values, n) == if n > r {
            r
        } else {
            spec_best(values, n)
        },
        spec_best(values, n) <= r,
    decreases n,
{
    if n > 1 {
        lemma_first_largest_is_best(values, counts, r, n - 1);
        lemma_best(values, n - 1);
        let before = spec_best(values, n - 1);
        assert(counts[before] == spec_count(values, values[before], values.len() as int));
        assert(counts[n - 1] == spec_count(values, values[n - 1], values.len() as int));
    }
}

/// The text that occurs most often among the texts; of texts that occur
/// equally often, the one that comes first.
pub fn most_often(values: &Vec<String>) -> (r: Option<&String>)
    ensures
        match spec_most_often(crate::utils::string_views(values@)) {
            Some(v) => r is Some && r->0@ == v,
            None => r is None,
        },
{
    if values.len() == 0 {
        return None;
    }
    let ghost views = crate::utils::string_views(values@);
    let mut counts: Vec<usize> = Vec::new();
    let mut i: usize = 0;
    while i < values.len()
        invariant
            i <= values.len(),
            views == crate::utils::string_views(values@),
            counts@.len() == i,
            forall|j: int|
                0 <= j < i ==> counts@[j] == spec_count(
                    views,
                    #[trigger] views[j],
                    views.len() as int,
                ),
        decreases values.len() - i,
    {
        let mut count: usize = 0;
        let mut k: usize = 0;
        while k < values.len()
            invariant
                k <= values.len(),
                i < values.len(),
                views == crate::utils::string_views(values@),
                count == spec_count(views, views[i as int], k as int),
                count <= k,
            decreases values.len() - k,
        {
            if values[k] == values[i] {
                count = count + 1;
            }
            k = k + 1;
        }
        counts.push(count);
        i = i + 1;
    }
    let best = first_largest(&counts);
    proof {
        lemma_first_largest_is_best(views, counts@, best as int, views.len() as int);
    }
    Some(&values[best])
}

/// The number that occurs most often among the numbers; of numbers that
/// occur equally often, the one that comes first.
pub fn most_often_number(values: &Vec<usize>) -> (r: Option<usize>)
    ensures
        r == spec_most_often(values@),
{
    if values.len() == 0 {
        return None;
    }
    let mut counts: Vec<usize> = Vec::new();
    let mut i: usize = 0;
    while i < values.len()
        invariant
            i <= values.len(),
            counts@.len() == i,
            forall|j: int|
                0 <= j < i ==> counts@[j] == spec_count(
                    values@,
                    #[trigger] values@[j],
                    values@.len() as int,
                ),
        decreases values.len() - i,
    {
        let mut count: usize = 0;
        let mut k: usize = 0;
        while k < values.len()
            invariant
                k <= values.len(),
                i < values.len(),
                count == spec_count(values@, values@[i as int], k as int),
                count <= k,
            decreases values.len() - k,
        {
            if values[k] == values[i] {
                count = count + 1;
            }
            k = k + 1;
        }
        counts.push(count);
        i = i + 1;
    }
    let best = first_largest(&counts);
    proof {
        lemma_first_largest_is_best(values@, counts@, best as int, values@.len() as int);
    }
    Some(values[best])
}

impl TrackInfo {
    /// What the file's tag says in a field.
    pub fn field(&self, field: Field) -> (r: Option<&String>)
        ensures
            match spec_field(*self, field) {
                Some(v) => r is Some && r->0@ == v,
                None => r is None,
            },
    {
        match &self.tag {
            None => None,
            Some(tag) => {
                let value = match field {
                    Field::Album => &tag.album,
                    Field::AlbumArtist => &tag.album_artist,
                    Field::Artist => &tag.artist,
                    Field::Genre => &tag.genre,
                };
                match value {
                    Some(v) => Some(v),
                    None => None,
                }
            },
        }
    }

    /// The year that the file's tag gives, taken as an unsigned number.
    pub fn year(&self) -> (r: Option<usize>)
        ensures
            r == spec_info_year(*self),
    {
        match &self.tag {
            Some(tag) => match tag.year {
                Some(y) => Some(#[verifier::truncate] (y as usize)),
                None => None,
            },
            None => None,
        }
    }
}

/// What the tags of the files say in a field, in order.
pub fn field_values(infos: &Vec<TrackInfo>, field: Field) -> (r: Vec<String>)
    ensures
        crate::utils::string_views(r@) == spec_values(infos@, field, infos@.len() as int),
{
    let mut values: Vec<String> = Vec::new();
    proof {
        assert(crate::utils::string_views(values@) =~= Seq::<Seq<char>>::empty());
    }
    let mut i: usize = 0;
    while i < infos.len()
        invariant
            i <= infos.len(),
            crate::utils::string_views(values@) == spec_values(infos@, field, i as int),
        decreases infos.len() - i,
    {
        match infos[i].field(field) {
            Some(v) => {
                let owned = v.clone();
                proof {
                    assert(crate::utils::string_views(values@.push(owned))
                        =~= crate::utils::string_views(values@).push(owned@));
                }
                values.push(owned);
            },
            None => {},
        }
        i = i + 1;
    }
    values
}

/// The years that the tags of the files give, in order.
pub fn year_values(infos: &Vec<TrackInfo>) -> (r: Vec<usize>)
    ensures
        r@ == spec_years(infos@, infos@.len() as int),
{
    let mut values: Vec<usize> = Vec::new();
    let mut i: usize = 0;
    while i < infos.len()
        invariant
            i <= infos.len(),
            values@ == spec_years(infos@, i as int),
        decreases infos.len() - i,
    {
        match infos[i].year() {
            Some(y) => values.push(y),
            None => {},
        }
        i = i + 1;
    }
    values
}

/// The text without an override that an optional string stands for.
pub open spec fn spec_option_text(value: Option<Seq<char>>) -> Option<TextView> {
    match value {
        Some(v) => Some(TextView::build(v, None)),
        None => None,
    }
}

/// The title of a file's track: what the tag says, else the name of the
/// file without its extension, else nothing.
pub open spec fn spec_info_title(info: TrackInfo) -> Seq<char> {
    let tagged = match info.tag {
        Some(tag) => option_view(tag.title),
        None => None,
    };
    match tagged {
        Some(t) => t,
        None => match info.stem {
            Some(s) => s@,
            None => Seq::empty(),
        },
    }
}

/// The track that is made from a file: the title, the file's path, and the
/// artist, the year and the genre that the tag gives.
pub open spec fn spec_info_track(info: TrackInfo) -> TrackView {
    TrackView {
        title: TextView::build(spec_info_title(info), None),
        artists: match spec_field(info, Field::Artist) {
            Some(a) => Some(seq![TextView::build(a, None)]),
            None => None,
        },
        year: spec_info_year(info),
        genre: spec_option_text(spec_field(info, Field::Genre)),
        comment: None,
        lyrics: None,
        featuring: None,
        filename: option_view(info.filename),
    }
}

/// The name under which the tracks of a disc are gathered: the number of
/// the disc as the tag gives it, else `Disc 1`.
pub open spec fn spec_disc_key(info: TrackInfo) -> Seq<char> {
    let disc = match info.tag {
        Some(tag) => tag.disc,
        None => None,
    };
    match disc {
        Some(n) => spec_digits(n as nat),
        None => "Disc 1"@,
    }
}

/// Whether `a` comes before `b` where texts are compared character by
/// character.
pub open spec fn spec_less(a: Seq<char>, b: Seq<char>) -> bool
    decreases a.len(),
{
    if b.len() == 0 {
        false
    } else if a.len() == 0 {
        true
    } else if a[0] != b[0] {
        a[0] < b[0]
    } else {
        spec_less(a.skip(1), b.skip(1))
    }
}

/// Of two texts that differ, one comes before the other.
pub proof fn lemma_less_total(a: Seq<char>, b: Seq<char>)
    ensures
        a == b || spec_less(a, b) || spec_less(b, a),
        !(spec_less(a, b) && spec_less(b, a)),
        !spec_less(a, a),
    decreases a.len(),
{
    if a.len() > 0 && b.len() > 0 {
        if a[0] == b[0] {
            lemma_less_total(a.skip(1), b.skip(1));
            if a.skip(1) == b.skip(1) {
                assert(a =~= seq![a[0]] + a.skip(1));
                assert(b =~= seq![b[0]] + b.skip(1));
            }
        }
    } else if a.len() == 0 && b.len() == 0 {
        assert(a =~= b);
    }
    if a.len() > 0 {
        lemma_less_total(a.skip(1), a.skip(1));
    }
}

/// The tracks that are gathered under a name.
pub struct Group {
    /// The name of the disc.
    pub key: Seq<char>,
    /// The tracks, in the order in which they came.
    pub tracks: Seq<TrackView>,
}

/// The groups with one more track under a name. The track joins the group
/// of that name; where there is none, a group is begun before the first
/// group whose name comes later.
pub open spec fn spec_place(groups: Seq<Group>, key: Seq<char>, track: TrackView, from: int) -> Seq<
    Group,
>
    decreases groups.len() - from,
{
    if from < 0 || from >= groups.len() {
        groups.push(Group { key, tracks: seq![track] })
    } else if groups[from].key == key {
        groups.update(from, Group { key, tracks: groups[from].tracks.push(track) })
    } else if spec_less(key, groups[from].key) {
        groups.insert(from, Group { key, tracks: seq![track] })
    } else {
        spec_place(groups, key, track, from + 1)
    }
}

/// The groups that the first `n` files make.
pub open spec fn spec_groups(infos: Seq<TrackInfo>, n: int) -> Seq<Group>
    decreases n,
{
    if n <= 0 || n > infos.len() {
        Seq::empty()
    } else {
        spec_place(
            spec_groups(infos, n - 1),
            spec_disc_key(infos[n - 1]),
            spec_info_track(infos[n - 1]),
            0,
        )
    }
}

/// Whether the names of the groups come one after the other, none twice.
pub open spec fn spec_sorted(groups: Seq<Group>) -> bool {
    forall|i: int, j: int|
        0 <= i < j < groups.len() ==> spec_less(
            (#[trigger] groups[i]).key,
            (#[trigger] groups[j]).key,
        )
}

/// `a` before `b` and `b` before `c` put `a` before `c`.
pub proof fn lemma_less_transitive(a: Seq<char>, b: Seq<char>, c: Seq<char>)
    requires
        spec_less(a, b),
        spec_less(b, c),
    ensures
        spec_less(a, c),
    decreases a.len(),
{
    if a.len() > 0 && b.len() > 0 && c.len() > 0 {
        if a[0] == b[0] && b[0] == c[0] {
            lemma_less_transitive(a.skip(1), b.skip(1), c.skip(1));
        }
    }
}

/// Placing a track keeps the groups in the order of their names, where the
/// groups before `from` come before the track's name.
pub proof fn lemma_place_sorted(groups: Seq<Group>, key: Seq<char>, track: TrackView, from: int)
    requires
        spec_sorted(groups),
        0 <= from <= groups.len(),
        forall|i: int| 0 <= i < from ==> spec_less((#[trigger] groups[i]).key, key),
    ensures
        spec_sorted(spec_place(groups, key, track, from)),
    decreases groups.len() - from,
{
    let placed = spec_place(groups, key, track, from);
    if from >= groups.len() {
        assert forall|i: int, j: int| 0 <= i < j < placed.len() implies spec_less(
            (#[trigger] placed[i]).key,
            (#[trigger] placed[j]).key,
        ) by {
            if j < groups.len() {
                assert(placed[i] == groups[i] && placed[j] == groups[j]);
            } else {
                assert(placed[i] == groups[i]);
            }
        }
    } else if groups[from].key == key {
        assert forall|i: int, j: int| 0 <= i < j < placed.len() implies spec_less(
            (#[trigger] placed[i]).key,
            (#[trigger] placed[j]).key,
        ) by {
            assert(placed[i].key == groups[i].key);
            assert(placed[j].key == groups[j].key);
        }
    } else if spec_less(key, groups[from].key) {
        assert forall|i: int, j: int| 0 <= i < j < placed.len() implies spec_less(
            (#[trigger] placed[i]).key,
            (#[trigger] placed[j]).key,
        ) by {
            if j < from {
                assert(placed[i] == groups[i] && placed[j] == groups[j]);
            } else if j == from {
                assert(placed[i] == groups[i]);
            } else if i < from {
                assert(placed[i] == groups[i] && placed[j] == groups[j - 1]);
            } else if i == from {
                assert(placed[j] == groups[j - 1]);
                if j - 1 > from {
                    assert(spec_less(groups[from].key, groups[j - 1].key));
                    lemma_less_transitive(key, groups[from].key, groups[j - 1].key);
                }
            } else {
                assert(placed[i] == groups[i - 1] && placed[j] == groups[j - 1]);
            }
        }
    } else {
        lemma_less_total(key, groups[from].key);
        lemma_place_sorted(groups, key, track, from + 1);
    }
}

/// The groups that files make come in the order of their names, none twice.
pub proof fn lemma_groups_sorted(infos: Seq<TrackInfo>, n: int)
    requires
        0 <= n <= infos.len(),
    ensures
        spec_sorted(spec_groups(infos, n)),
    decreases n,
{
    if n > 0 {
        lemma_groups_sorted(infos, n - 1);
        lemma_place_sorted(
            spec_groups(infos, n - 1),
            spec_disc_key(infos[n - 1]),
            spec_info_track(infos[n - 1]),
            0,
        );
    }
}

/// The album that is made from the files of a folder. The title, the
/// artist, the year and the genre are what most tags say; the artist is
/// the artist of the album where a tag names one, else the artist of a
/// track. The tracks are gathered into discs by the number of the disc in
/// their tag, and the discs come in the order of these numbers as texts.
pub open spec fn spec_generate(infos: Seq<TrackInfo>) -> AlbumView {
    let n = infos.len() as int;
    let title = match spec_most_often(spec_values(infos, Field::Album, n)) {
        Some(t) => t,
        None => Seq::empty(),
    };
    let artist = match spec_most_often(spec_values(infos, Field::AlbumArtist, n)) {
        Some(a) => a,
        None => match spec_most_often(spec_values(infos, Field::Artist, n)) {
            Some(a) => a,
            None => Seq::empty(),
        },
    };
    let groups = spec_groups(infos, n);
    AlbumView {
        title: TextView::build(title, None),
        artists: seq![TextView::build(artist, None)],
        year: spec_most_often(spec_years(infos, n)),
        genre: spec_option_text(spec_most_often(spec_values(infos, Field::Genre, n))),
        discs: Seq::new(groups.len(), |i: int| groups[i].tracks),
    }
}

/// Whether `a` comes before `b` where texts are compared character by
/// character.
pub fn less(a: &str, b: &str) -> (r: bool)
    ensures
        r == spec_less(a@, b@),
{
    let x = chars_of(a);
    let y = chars_of(b);
    let mut i: usize = 0;
    proof {
        assert(a@.skip(0) =~= a@);
        assert(b@.skip(0) =~= b@);
    }
    while i < x.len() && i < y.len()
        invariant
            i <= x.len(),
            i <= y.len(),
            x@ == a@,
            y@ == b@,
            spec_less(a@, b@) == spec_less(a@.skip(i as int), b@.skip(i as int)),
        decreases x.len() - i,
    {
        proof {
            assert(a@.skip(i as int)[0] == a@[i as int]);
            assert(b@.skip(i as int)[0] == b@[i as int]);
            assert(a@.skip(i as int).skip(1) =~= a@.skip(i + 1));
            assert(b@.skip(i as int).skip(1) =~= b@.skip(i + 1));
        }
        if x[i] != y[i] {
            return x[i] < y[i];
        }
        i = i + 1;
    }
    i < y.len()
}

/// The views of the groups that are being gathered.
pub open spec fn group_views(groups: Seq<(String, Vec<Track>)>) -> Seq<Group> {
    groups.map_values(|g: (String, Vec<Track>)| Group { key: g.0@, tracks: track_views(g.1@) })
}

/// Puts a track into the group of its name, or begins a group for it.
fn place(groups: &mut Vec<(String, Vec<Track>)>, key: String, track: Track)
    ensures
        group_views(final(groups)@) == spec_place(group_views(old(groups)@), key@, track@, 0),
{
    let ghost before = group_views(groups@);
    let mut i: usize = 0;
    while i < groups.len()
        invariant
            i <= groups.len(),
            *groups == *old(groups),
            before == group_views(groups@),
            spec_place(before, key@, track@, 0) == spec_place(before, key@, track@, i as int),
        decreases groups.len() - i,
    {
        proof {
            assert(before[i as int].key == groups@[i as int].0@);
        }
        if groups[i].0 == key {
            let (name, mut tracks) = groups.remove(i);
            let ghost gathered = tracks@;
            tracks.push(track);
            proof {
                assert(track_views(gathered.push(track)) =~= track_views(gathered).push(track@));
            }
            groups.insert(i, (name, tracks));
            proof {
                assert(group_views(groups@) =~= before.update(
                    i as int,
                    Group { key: key@, tracks: before[i as int].tracks.push(track@) },
                ));
            }
            return ;
        }
        if less(key.as_str(), groups[i].0.as_str()) {
            let mut tracks: Vec<Track> = Vec::new();
            tracks.push(track);
            proof {
                assert(track_views(tracks@) =~= seq![track@]);
            }
            groups.insert(i, (key, tracks));
            proof {
                assert(group_views(groups@) =~= before.insert(
                    i as int,
                    Group { key: key@, tracks: seq![track@] },
                ));
            }
            return ;
        }
        i = i + 1;
    }
    let mut tracks: Vec<Track> = Vec::new();
    tracks.push(track);
    proof {
        assert(track_views(tracks@) =~= seq![track@]);
    }
    groups.push((key, tracks));
    proof {
        assert(group_views(groups@) =~= before.push(Group { key: key@, tracks: seq![track@] }));
    }
}

/// A text without an override for an optional string.
fn option_text(value: Option<&String>) -> (r: Option<Text>)
    ensures
        crate::raw::track::option_text_view(r) == spec_option_text(
            match value {
                Some(v) => Some(v@),
                None => None,
            },
        ),
{
    match value {
        Some(v) => Some(Text::new(v.as_str(), None)),
        None => None,
    }
}

impl TrackInfo {
    /// The title of the file's track.
    pub fn title(&self) -> (r: &str)
        ensures
            r@ == spec_info_title(*self),
    {
        let tagged = match &self.tag {
            Some(tag) => match &tag.title {
                Some(t) => Some(t),
                None => None,
            },
            None => None,
        };
        match tagged {
            Some(t) => t.as_str(),
            None => match &self.stem {
                Some(s) => s.as_str(),
                None => {
                    proof {
                        reveal_strlit("");
                        assert(""@ =~= Seq::<char>::empty());
                    }
                    ""
                },
            },
        }
    }

    /// The name under which the file's track is gathered with others.
    pub fn disc_key(&self) -> (r: String)
        ensures
            r@ == spec_disc_key(*self),
    {
        let disc = match &self.tag {
            Some(tag) => tag.disc,
            None => None,
        };
        match disc {
            Some(n) => {
                let mut key = String::new();
                push_zero_padded(&mut key, n as usize, 0);
                proof {
                    assert(key@ =~= spec_digits(n as nat));
                }
                key
            },
            None => String::from_str("Disc 1"),
        }
    }

    /// The track that is made from the file.
    pub fn track(&self) -> (r: Track)
        ensures
            r@ == spec_info_track(*self),
    {
        let artists = match self.field(Field::Artist) {
            Some(a) => {
                let mut list: Vec<Text> = Vec::new();
                let text = Text::new(a.as_str(), None);
                list.push(text);
                proof {
                    assert(text_views(list@) =~= seq![text@]);
                }
                Some(list)
            },
            None => None,
        };
        let filename = match &self.filename {
            Some(f) => Some(f.clone()),
            None => None,
        };
        Track::new(Text::new(self.title(), None)).with_filename(filename).with_artists(
            artists,
        ).with_year(self.year()).with_genre(option_text(self.field(Field::Genre)))
    }
}

impl Album {
    /// Makes an album from the files of a folder, which come in the order
    /// of their paths.
    pub fn generate(infos: &Vec<TrackInfo>) -> (r: Album)
        ensures
            r@ == spec_generate(infos@),
    {
        let albums = field_values(infos, Field::Album);
        let album_artists = field_values(infos, Field::AlbumArtist);
        let track_artists = field_values(infos, Field::Artist);
        let genres = field_values(infos, Field::Genre);
        let years = year_values(infos);
        proof {
            reveal_strlit("");
            assert(""@ =~= Seq::<char>::empty());
        }
        let title = match most_often(&albums) {
            Some(t) => Text::new(t.as_str(), None),
            None => Text::new("", None),
        };
        let artist = match most_often(&album_artists) {
            Some(a) => Text::new(a.as_str(), None),
            None => match most_often(&track_artists) {
                Some(a) => Text::new(a.as_str(), None),
                None => Text::new("", None),
            },
        };
        let mut artists: Vec<Text> = Vec::new();
        artists.push(artist);
        proof {
            assert(text_views(artists@) =~= seq![artist@]);
        }
        let year = most_often_number(&years);
        let genre = option_text(most_often(&genres));
        let mut groups: Vec<(String, Vec<Track>)> = Vec::new();
        proof {
            assert(group_views(groups@) =~= Seq::<Group>::empty());
        }
        let mut i: usize = 0;
        while i < infos.len()
            invariant
                i <= infos.len(),
                group_views(groups@) == spec_groups(infos@, i as int),
            decreases infos.len() - i,
        {
            place(&mut groups, infos[i].disc_key(), infos[i].track());
            i = i + 1;
        }
        let ghost gathered = group_views(groups@);
        let mut discs: Vec<Disc> = Vec::new();
        for group in it: groups
            invariant
                it.seq() == groups@,
                gathered == group_views(groups@),
                crate::raw::album::disc_views(discs@) == Seq::new(
                    it.index() as nat,
                    |k: int| gathered[k].tracks,
                ),
        {
            let ghost before = discs@;
            let ghost at = it.index() as int;
            let ghost tracks = track_views(group.1@);
            proof {
                assert(group == groups@[at]);
                assert(gathered[at].tracks == tracks);
            }
            let disc = Disc::from_tracks(group.1);
            proof {
                assert(crate::raw::album::disc_views(before.push(disc))
                    =~= crate::raw::album::disc_views(before).push(disc@));
            }
            discs.push(disc);
            proof {
                assert(crate::raw::album::disc_views(discs@) =~= Seq::new(
                    (at + 1) as nat,
                    |k: int| gathered[k].tracks,
                ));
            }
        }
        Album::new(title).with_artists(artists).with_year(year).with_genre(genre).with_discs(discs)
    }
}

} // verus!
