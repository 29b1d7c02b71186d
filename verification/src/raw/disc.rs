//! A disc as the definition gives it: its tracks, in order.

use crate::raw::track::FromYamlError as TrackError;
use crate::raw::track::{spec_track_from_yaml, spec_track_yaml, Track, TrackView};
use crate::yaml::{push_item, represents, Yaml, YamlView};
use vstd::prelude::*;
use vstd::string::StringExecFns;

verus! {

/// The views of a sequence of tracks.
pub open spec fn track_views(tracks: Seq<Track>) -> Seq<TrackView> {
    tracks.map_values(|t: Track| t@)
}

/// A disc of an album. A track's number is its place on the disc, counted
/// from one; it is stored nowhere.
#[derive(Debug, PartialEq, Eq, Hash)]
pub struct Disc {
    tracks: Vec<Track>,
}

impl View for Disc {
    type V = Seq<TrackView>;

    closed spec fn view(&self) -> Seq<TrackView> {
        track_views(self.tracks@)
    }
}

impl Default for Disc {
    fn default() -> (d: Disc)
        ensures
            d@ == Seq::<TrackView>::empty(),
    {
        let tracks: Vec<Track> = Vec::new();
        proof {
            assert(track_views(tracks@) =~= Seq::<TrackView>::empty());
        }
        Disc { tracks }
    }
}

/// An error when reading a disc from a definition.
#[derive(Debug, PartialEq, Eq)]
pub enum FromYamlError {
    /// The definition is not an array.
    InvalidTracks,
    /// A track could not be read.
    InvalidTrack(TrackError),
}

/// The tracks that an array of definitions stands for, or the error of the
/// first item that is no track.
pub open spec fn spec_tracks_from_items(items: Seq<Yaml>) -> Result<Seq<TrackView>, TrackError>
    decreases items.len(),
{
    if items.len() == 0 {
        Ok(Seq::empty())
    } else {
        match spec_tracks_from_items(items.drop_last()) {
            Err(e) => Err(e),
            Ok(tracks) => match spec_track_from_yaml(items.last()) {
                Ok(t) => Ok(tracks.push(t)),
                Err(e) => Err(e),
            },
        }
    }
}

/// The disc that a definition stands for: an array of tracks.
pub open spec fn spec_disc_from_yaml(yaml: Yaml) -> Result<Seq<TrackView>, FromYamlError> {
    match yaml {
        Yaml::Array(items) => match spec_tracks_from_items(items@) {
            Ok(tracks) => Ok(tracks),
            Err(e) => Err(FromYamlError::InvalidTrack(e)),
        },
        _ => Err(FromYamlError::InvalidTracks),
    }
}

/// The view of a disc that may have failed to be read.
pub open spec fn disc_result_view<E>(r: Result<Disc, E>) -> Result<Seq<TrackView>, E> {
    match r {
        Ok(d) => Ok(d@),
        Err(e) => Err(e),
    }
}

/// Once a prefix of an array fails to be read, the array fails in the same way.
pub proof fn lemma_tracks_error_stays(items: Seq<Yaml>, n: int)
    requires
        0 <= n <= items.len(),
        spec_tracks_from_items(items.take(n)) is Err,
    ensures
        spec_tracks_from_items(items) == spec_tracks_from_items(items.take(n)),
    decreases items.len() - n,
{
    if n < items.len() {
        assert(items.take(n + 1).drop_last() =~= items.take(n));
        lemma_tracks_error_stays(items, n + 1);
    } else {
        assert(items.take(n) =~= items);
    }
}

impl Disc {
    /// A disc without tracks.
    pub fn new() -> (d: Disc)
        ensures
            d@ == Seq::<TrackView>::empty(),
    {
        Disc::default()
    }

    /// A disc with the given tracks.
    pub fn from_tracks(tracks: Vec<Track>) -> (d: Disc)
        ensures
            d@ == track_views(tracks@),
    {
        Disc { tracks }
    }

    /// Reads a disc from a definition: an array of tracks. The first track
    /// that cannot be read decides the error.
    pub fn from_yaml(yaml: Yaml) -> (r: Result<Disc, FromYamlError>)
        ensures
            disc_result_view(r) == spec_disc_from_yaml(yaml),
    {
        let items = match yaml.into_vec() {
            Some(items) => items,
            None => {
                return Err(FromYamlError::InvalidTracks);
            },
        };
        let mut tracks: Vec<Track> = Vec::new();
        proof {
            assert(track_views(tracks@) =~= Seq::<TrackView>::empty());
            assert(items@.take(0).len() == 0);
        }
        for item in it: items
            invariant
                it.seq() == items@,
                yaml == Yaml::Array(items),
                spec_tracks_from_items(items@.take(it.index() as int)) == Ok::<
                    Seq<TrackView>,
                    TrackError,
                >(track_views(tracks@)),
        {
            let ghost before = it.index() as int;
            proof {
                assert(items@.take(before + 1).drop_last() =~= items@.take(before));
                assert(items@.take(before + 1).last() == item);
            }
            match Track::from_yaml(item) {
                Ok(t) => {
                    proof {
                        assert(track_views(tracks@.push(t)) =~= track_views(tracks@).push(t@));
                    }
                    tracks.push(t);
                },
                Err(e) => {
                    proof {
                        lemma_tracks_error_stays(items@, before + 1);
                    }
                    return Err(FromYamlError::InvalidTrack(e));
                },
            }
        }
        proof {
            assert(items@.take(items@.len() as int) =~= items@);
        }
        Ok(Disc::from_tracks(tracks))
    }

    /// The tracks of the disc, in order.
    pub fn tracks(&self) -> (r: &[Track])
        ensures
            track_views(r@) == self@,
    {
        self.tracks.as_slice()
    }

    /// The tracks of the disc, in order, to be changed in place. The disc
    /// holds afterwards what the slice then holds.
    pub fn tracks_mut(&mut self) -> (r: &mut [Track])
        ensures
            track_views(r@) == old(self)@,
            track_views(final(r)@) == final(self)@,
    {
        self.tracks.as_mut_slice()
    }

    /// The number of tracks on the disc.
    pub fn num_tracks(&self) -> (n: usize)
        ensures
            n == self@.len(),
    {
        self.tracks.len()
    }

    /// Adds a track at the end of the disc.
    pub fn push_track(&mut self, track: Track)
        ensures
            final(self)@ == old(self)@.push(track@),
    {
        proof {
            assert(track_views(self.tracks@.push(track)) =~= track_views(self.tracks@).push(
                track@,
            ));
        }
        self.tracks.push(track);
    }

    /// The disc with a track added at its end.
    pub fn with_track(self, track: Track) -> (d: Disc)
        ensures
            d@ == self@.push(track@),
    {
        let mut d = self;
        d.push_track(track);
        d
    }
}

/// The definition of a disc: the definitions of its tracks, as an array.
pub open spec fn spec_disc_yaml(disc: Seq<TrackView>) -> YamlView {
    YamlView::Array(Seq::new(disc.len(), |i: int| spec_track_yaml(disc[i])))
}

impl Disc {
    /// Writes the disc as a definition.
    pub fn to_yaml(&self) -> (r: Yaml)
        ensures
            represents(r, spec_disc_yaml(self@)),
    {
        let mut items: Vec<Yaml> = Vec::new();
        let ghost all = self@;
        let ghost mut views: Seq<YamlView> = Seq::empty();
        let mut i: usize = 0;
        while i < self.tracks.len()
            invariant
                i <= self.tracks.len(),
                all == track_views(self.tracks@),
                views == Seq::new(i as nat, |k: int| spec_track_yaml(all[k])),
                represents(Yaml::Array(items), YamlView::Array(views)),
            decreases self.tracks.len() - i,
        {
            let item = self.tracks[i].to_yaml();
            push_item(&mut items, item, Ghost(views), Ghost(spec_track_yaml(all[i as int])));
            proof {
                views = views.push(spec_track_yaml(all[i as int]));
                assert(views =~= Seq::new((i + 1) as nat, |k: int| spec_track_yaml(all[k])));
            }
            i = i + 1;
        }
        Yaml::Array(items)
    }
}

impl FromYamlError {
    /// What is shown for the error.
    pub open spec fn spec_message(self) -> Seq<char> {
        match self {
            FromYamlError::InvalidTracks => "invalid tracks"@,
            FromYamlError::InvalidTrack(e) => "invalid track"@ + ": "@ + e.spec_message(),
        }
    }

    /// What is shown for the error.
    pub fn message(&self) -> (r: String)
        ensures
            r@ == self.spec_message(),
    {
        match self {
            FromYamlError::InvalidTracks => String::from_str("invalid tracks"),
            FromYamlError::InvalidTrack(e) => crate::text::with_detail(
                "invalid track",
                e.message().as_str(),
            ),
        }
    }
}

} // verus!
