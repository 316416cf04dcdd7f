use vstd::prelude::*;
use crate::text::{is_substring, lowercase_of, lowercase, contains_str};
use crate::laws::{law_empty_query_keeps_all, law_empty_query_keeps_all_albums};
use crate::track::{TrackDetails, TrackView, Album, AlbumView, tracks_view, albums_view, clone_track, clone_album};

verus! {

/// Whether a track answers the (already lowercased) query `q`: `q` occurs in
/// its lowercased artist, album or title.
pub open spec fn track_matches(t: TrackView, q: Seq<char>) -> bool {
    ||| is_substring(q, lowercase_of(t.artist))
    ||| is_substring(q, lowercase_of(t.album))
    ||| is_substring(q, lowercase_of(t.title))
}

/// `track_matches` as a predicate.
pub open spec fn track_filter(q: Seq<char>) -> spec_fn(TrackView) -> bool {
    |t: TrackView| track_matches(t, q)
}

/// Whether an album answers the (already lowercased) query `q`: `q` occurs
/// in its lowercased artist or album title.
pub open spec fn album_matches(a: AlbumView, q: Seq<char>) -> bool {
    is_substring(q, lowercase_of(a.artist)) || is_substring(q, lowercase_of(a.album))
}

/// `album_matches` as a predicate.
pub open spec fn album_filter(q: Seq<char>) -> spec_fn(AlbumView) -> bool {
    |a: AlbumView| album_matches(a, q)
}

/// Whether a track answers the lowercased query `q`.
pub fn track_answers(t: &TrackDetails, q: &String) -> (r: bool)
    ensures
        r == track_matches(t@, q@),
{
    contains_str(lowercase(t.artist.as_str()).as_str(), q.as_str())
        || contains_str(lowercase(t.album.as_str()).as_str(), q.as_str())
        || contains_str(lowercase(t.title.as_str()).as_str(), q.as_str())
}

/// The tracks whose artist, album or title contains `query`, without
/// regard to case; in their given order.
pub fn filter_tracks(tracks: &[TrackDetails], query: &str) -> (r: Vec<TrackDetails>)
    ensures
        tracks_view(r@) == tracks_view(tracks@).filter(track_filter(lowercase_of(query@))),
        query@.len() == 0 ==> tracks_view(r@) == tracks_view(tracks@),
{
    let q = lowercase(query);
    proof {
        if query@.len() == 0 {
            assert(q@ =~= Seq::<char>::empty());
            law_empty_query_keeps_all(tracks_view(tracks@));
        }
    }
    let ghost pred = track_filter(q@);
    let ghost all = tracks_view(tracks@);
    let mut r: Vec<TrackDetails> = Vec::new();
    let mut i: usize = 0;
    while i < tracks.len()
        invariant
            i <= tracks@.len(),
            all == tracks_view(tracks@),
            pred == track_filter(q@),
            tracks_view(r@) == all.take(i as int).filter(pred),
        decreases tracks.len() - i,
    {
        let ghost prev = r@;
        assert(all.take(i + 1) =~= all.take(i as int).push(all[i as int]));
        proof {
            all.take(i as int).lemma_filter_push(all[i as int], pred);
        }
        if track_answers(&tracks[i], &q) {
            r.push(clone_track(&tracks[i]));
            assert(tracks_view(r@) =~= tracks_view(prev).push(all[i as int]));
        }
        i = i + 1;
    }
    assert(all.take(tracks@.len() as int) =~= all);
    r
}

/// Whether an album answers the lowercased query `q`.
pub fn album_answers(a: &Album, q: &String) -> (r: bool)
    ensures
        r == album_matches(a@, q@),
{
    contains_str(lowercase(a.artist.as_str()).as_str(), q.as_str())
        || contains_str(lowercase(a.album.as_str()).as_str(), q.as_str())
}

/// The albums whose artist or title contains `query`, without regard to
/// case; in their given order.
pub fn filter_albums(albums: &[Album], query: &str) -> (r: Vec<Album>)
    ensures
        albums_view(r@) == albums_view(albums@).filter(album_filter(lowercase_of(query@))),
        query@.len() == 0 ==> albums_view(r@) == albums_view(albums@),
{
    let q = lowercase(query);
    proof {
        if query@.len() == 0 {
            assert(q@ =~= Seq::<char>::empty());
            law_empty_query_keeps_all_albums(albums_view(albums@));
        }
    }
    let ghost pred = album_filter(q@);
    let ghost all = albums_view(albums@);
    let mut r: Vec<Album> = Vec::new();
    let mut i: usize = 0;
    while i < albums.len()
        invariant
            i <= albums@.len(),
            all == albums_view(albums@),
            pred == album_filter(q@),
            albums_view(r@) == all.take(i as int).filter(pred),
        decreases albums.len() - i,
    {
        let ghost prev = r@;
        assert(all.take(i + 1) =~= all.take(i as int).push(all[i as int]));
        proof {
            all.take(i as int).lemma_filter_push(all[i as int], pred);
        }
        if album_answers(&albums[i], &q) {
            r.push(clone_album(&albums[i]));
            assert(albums_view(r@) =~= albums_view(prev).push(all[i as int]));
        }
        i = i + 1;
    }
    assert(all.take(albums@.len() as int) =~= all);
    r
}

} // verus!
