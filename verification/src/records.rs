use vstd::prelude::*;
use crate::track::{TrackDetails, TrackView, TrackMetadata, MetadataView, tracks_view};

verus! {

/// The statistics a track gets when the database first sees it at `now`:
/// last played and added now, nothing played yet.
pub open spec fn first_stats(now: u64) -> (u64, u64, u64) {
    (now, 0, now)
}

/// The statistics stored for a track, or, where there are none yet, the
/// ones to store for it; the flag tells whether they must be stored.
pub fn stats_or_new(found: Option<(u64, u64, u64)>, now: u64) -> (r: ((u64, u64, u64), bool))
    ensures
        r == match found {
            Some(s) => (s, false),
            None => (first_stats(now), true),
        },
{
    match found {
        Some(s) => (s, false),
        None => ((now, 0, now), true),
    }
}

/// The statistics of a track after it started playing at `now`; a track
/// without stored statistics starts from zeros.
pub fn stats_after_play(stored: Option<(u64, u64, u64)>, now: u64) -> (r: (u64, u64, u64))
    ensures
        r == match stored {
            Some(s) => (now, s.1, s.2),
            None => (now, 0u64, 0u64),
        },
{
    let old = match stored {
        Some(s) => s,
        None => (0, 0, 0),
    };
    (now, old.1, old.2)
}

/// The statistics of a track after `seconds` more were played.
pub fn stats_after_listening(stored: (u64, u64, u64), seconds: u64) -> (r: (u64, u64, u64))
    requires
        stored.1 + seconds <= u64::MAX,
    ensures
        r == (stored.0, (stored.1 + seconds) as u64, stored.2),
{
    (stored.0, stored.1 + seconds, stored.2)
}

/// The records to cache for a batch of tracks: the tag-derived part of
/// every track that has both an artist and a title, in order.
pub open spec fn cache_records(s: Seq<TrackView>) -> Seq<MetadataView> {
    s.filter(|t: TrackView| !t.missing_critical_tags()).map_values(|t: TrackView| t.metadata())
}

/// The records to cache for a batch of tracks.
pub fn metadata_to_cache(songs: &Vec<TrackDetails>) -> (r: Vec<TrackMetadata>)
    ensures
        r@.map_values(|m: TrackMetadata| m@) == cache_records(tracks_view(songs@)),
{
    let ghost s = tracks_view(songs@);
    let ghost keep = |t: TrackView| !t.missing_critical_tags();
    let mut r: Vec<TrackMetadata> = Vec::new();
    let mut i: usize = 0;
    while i < songs.len()
        invariant
            i <= songs@.len(),
            s == tracks_view(songs@),
            keep == (|t: TrackView| !t.missing_critical_tags()),
            r@.map_values(|m: TrackMetadata| m@) == s.take(i as int).filter(keep).map_values(|t: TrackView| t.metadata()),
        decreases songs.len() - i,
    {
        let ghost before = r@;
        proof {
            s.take(i as int).lemma_filter_push(s[i as int], keep);
        }
        assert(s.take(i + 1) =~= s.take(i as int).push(s[i as int]));
        if !songs[i].is_missing_critical_tags() {
            r.push(TrackMetadata::from_track(&songs[i]));
            assert(r@.map_values(|m: TrackMetadata| m@) =~= before.map_values(|m: TrackMetadata| m@).push(s[i as int].metadata()));
            assert(s.take(i + 1).filter(keep) =~= s.take(i as int).filter(keep).push(s[i as int]));
            assert(s.take(i + 1).filter(keep).map_values(|t: TrackView| t.metadata())
                =~= s.take(i as int).filter(keep).map_values(|t: TrackView| t.metadata()).push(s[i as int].metadata()));
        }
        i = i + 1;
    }
    assert(s.take(songs@.len() as int) =~= s);
    r
}

} // verus!
