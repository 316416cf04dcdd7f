use vstd::prelude::*;
use crate::track::{TrackDetails, TrackView, Album, AlbumView, tracks_view, albums_view, merged_stats, total_played,
    merge_stats, clone_track, lemma_total_played_insert};
use crate::sort::{sorted_with, sorted_desc, same_key_classes, key_class, sort_albums, sort_tracks};
use crate::order::{album_order, track_order};
use crate::nav::{find_album};
use crate::track::{lemma_total_played_concat, lemma_total_played_nonneg, min_date_added};

verus! {

/// The position holding key `k`, if any (keys of a grouping are distinct,
/// so there is at most one).
pub open spec fn key_index<K, V>(g: Seq<(K, V)>, k: K) -> Option<int> {
    if exists|i: int| 0 <= i < g.len() && #[trigger] g[i].0 == k {
        Some(choose|i: int| 0 <= i < g.len() && #[trigger] g[i].0 == k)
    } else {
        None
    }
}

/// No key occurs twice.
pub open spec fn keys_distinct<K, V>(g: Seq<(K, V)>) -> bool {
    forall|i: int, j: int| 0 <= i < j < g.len() ==> #[trigger] g[i].0 != #[trigger] g[j].0
}

/// Groups keyed values by key: one group per distinct key, in the order in
/// which keys first appear, each group's values in their given order.
pub open spec fn group_by_key<K, V>(e: Seq<(K, V)>) -> Seq<(K, Seq<V>)>
    decreases e.len(),
{
    if e.len() == 0 {
        Seq::empty()
    } else {
        let g = group_by_key(e.drop_last());
        let (k, v) = e.last();
        match key_index(g, k) {
            Some(j) => g.update(j, (k, g[j].1.push(v))),
            None => g.push((k, seq![v])),
        }
    }
}

/// The values with key `k`, in order.
pub open spec fn values_of_key<K, V>(e: Seq<(K, V)>, k: K) -> Seq<V>
    decreases e.len(),
{
    if e.len() == 0 {
        Seq::empty()
    } else {
        let rest = values_of_key(e.drop_last(), k);
        if e.last().0 == k { rest.push(e.last().1) } else { rest }
    }
}

/// With distinct keys, the position found for a key is the one holding it.
pub proof fn lemma_key_index_at<K, V>(g: Seq<(K, V)>, k: K, i: int)
    requires
        keys_distinct(g),
        0 <= i < g.len(),
        g[i].0 == k,
    ensures
        key_index(g, k) == Some(i),
{
    let j = choose|j: int| 0 <= j < g.len() && #[trigger] g[j].0 == k;
    if j < i {
        assert(g[j].0 != g[i].0);
    } else if i < j {
        assert(g[i].0 != g[j].0);
    }
}

/// A grouping has distinct keys, every group is non-empty and holds exactly
/// the values of its key, and keys without a group have no values.
pub proof fn lemma_group_by_key<K, V>(e: Seq<(K, V)>)
    ensures
        keys_distinct(group_by_key(e)),
        forall|j: int| 0 <= j < group_by_key(e).len() ==> #[trigger] group_by_key(e)[j].1 == values_of_key(e, group_by_key(e)[j].0)
            && group_by_key(e)[j].1.len() > 0,
        forall|k: K| key_index(group_by_key(e), k) is None ==> #[trigger] values_of_key(e, k).len() == 0,
    decreases e.len(),
{
    if e.len() > 0 {
        let d = e.drop_last();
        lemma_group_by_key(d);
        let g = group_by_key(d);
        let (k, v) = e.last();
        let g2 = group_by_key(e);
        match key_index(g, k) {
            Some(j) => {
                assert(0 <= j < g.len() && g[j].0 == k);
                assert forall|m: int| 0 <= m < g2.len() implies #[trigger] g2[m].1 == values_of_key(e, g2[m].0)
                    && g2[m].1.len() > 0 by {
                    if m != j {
                        assert(g[m].0 != k) by {
                            if m < j { assert(g[m].0 != g[j].0); } else { assert(g[j].0 != g[m].0); }
                        }
                    }
                }
                assert forall|k2: K| key_index(g2, k2) is None implies #[trigger] values_of_key(e, k2).len() == 0 by {
                    if key_index(g, k2) is Some {
                        let i = choose|i: int| 0 <= i < g.len() && #[trigger] g[i].0 == k2;
                        assert(g2[i].0 == k2);
                        assert(false);
                    }
                    assert(key_index(g, k2) is None);
                    assert(values_of_key(d, k2).len() == 0);
                    if k2 == k {
                        assert(g2[j].0 == k2);
                        assert(false);
                    }
                }
            },
            None => {
                assert forall|i: int| 0 <= i < g.len() implies #[trigger] g[i].0 != k by {}
                assert forall|m: int| 0 <= m < g2.len() implies #[trigger] g2[m].1 == values_of_key(e, g2[m].0)
                    && g2[m].1.len() > 0 by {
                    if m == g.len() {
                        assert(values_of_key(d, k).len() == 0);
                        assert(values_of_key(e, k) =~= seq![v]);
                    }
                }
                assert forall|k2: K| key_index(g2, k2) is None implies #[trigger] values_of_key(e, k2).len() == 0 by {
                    if key_index(g, k2) is Some {
                        let i = choose|i: int| 0 <= i < g.len() && #[trigger] g[i].0 == k2;
                        assert(g2[i].0 == k2);
                        assert(false);
                    }
                    assert(key_index(g, k2) is None);
                    assert(values_of_key(d, k2).len() == 0);
                    if k2 == k {
                        assert(g2[g.len() as int].0 == k2);
                        assert(false);
                    }
                }
            },
        }
    }
}

/// The values of a key in two lists joined are those of each list, joined.
pub proof fn lemma_values_of_key_concat<K, V>(a: Seq<(K, V)>, b: Seq<(K, V)>, k: K)
    ensures
        values_of_key(a + b, k) == values_of_key(a, k) + values_of_key(b, k),
    decreases b.len(),
{
    if b.len() == 0 {
        assert(a + b =~= a);
        assert(values_of_key(a, k) + values_of_key(b, k) =~= values_of_key(a, k));
    } else {
        assert((a + b).drop_last() =~= a + b.drop_last());
        lemma_values_of_key_concat(a, b.drop_last(), k);
        if b.last().0 == k {
            assert((values_of_key(a, k) + values_of_key(b.drop_last(), k)).push(b.last().1)
                =~= values_of_key(a, k) + values_of_key(b.drop_last(), k).push(b.last().1));
        }
    }
}

/// What a list of (track, time) pairs looks like to a specification.
pub open spec fn entries_view(v: Seq<(TrackDetails, u64)>) -> Seq<(TrackView, u64)> {
    v.map_values(|e: (TrackDetails, u64)| (e.0@, e.1))
}

/// The tracks of a list of (track, time) pairs.
pub open spec fn entry_tracks(e: Seq<(TrackView, u64)>) -> Seq<TrackView> {
    e.map_values(|x: (TrackView, u64)| x.0)
}

/// A rank that puts earlier times first when sorted largest-first.
pub open spec fn time_rank() -> spec_fn((TrackView, u64)) -> u64 {
    |e: (TrackView, u64)| (u64::MAX - e.1) as u64
}

/// Sorts (track, time) pairs by time, earliest first, keeping the original
/// order among equal times.
pub fn sort_entries_by_time(v: &mut Vec<(TrackDetails, u64)>)
    ensures
        sorted_desc(entries_view(final(v)@), time_rank()),
        same_key_classes(entries_view(final(v)@), entries_view(old(v)@), time_rank()),
        total_played(entry_tracks(entries_view(final(v)@))) == total_played(entry_tracks(entries_view(old(v)@))),
{
    let ghost key = time_rank();
    let ghost s = entries_view(v@);
    let mut src: Vec<(TrackDetails, u64)> = Vec::new();
    std::mem::swap(&mut src, v);
    let mut r: Vec<(TrackDetails, u64)> = Vec::new();
    let mut i: usize = 0;
    assert(s.take(0) =~= entries_view(r@));
    while i < src.len()
        invariant
            key == time_rank(),
            s == entries_view(src@),
            i <= src.len(),
            sorted_desc(entries_view(r@), key),
            same_key_classes(entries_view(r@), s.take(i as int), key),
            total_played(entry_tracks(entries_view(r@))) == total_played(entry_tracks(s.take(i as int))),
        decreases src.len() - i,
    {
        let x = src[i].1;
        let mut p: usize = 0;
        while p < r.len()
            invariant
                key == time_rank(),
                i < src.len(),
                x == src@[i as int].1,
                s == entries_view(src@),
                p <= r.len(),
                forall|j: int| 0 <= j < p ==> #[trigger] entries_view(r@)[j].1 <= x,
            ensures
                p <= r.len(),
                forall|j: int| 0 <= j < p ==> #[trigger] entries_view(r@)[j].1 <= x,
                p < r.len() ==> entries_view(r@)[p as int].1 > x,
            decreases r.len() - p,
        {
            if r[p].1 > x {
                break;
            }
            p = p + 1;
        }
        let ghost before = entries_view(r@);
        proof {
            assert forall|k: int| 0 <= k < p implies #[trigger] key(before[k]) >= key(s[i as int]) by {
                assert(before[k].1 <= x);
            }
            crate::sort::lemma_insert_stable(before, s[i as int], p as int, key);
        }
        let track = clone_track(&src[i].0);
        r.insert(p, (track, x));
        assert(entries_view(r@) =~= before.insert(p as int, s[i as int]));
        assert(s.take(i + 1) =~= s.take(i as int).push(s[i as int]));
        proof {
            lemma_total_played_insert(entry_tracks(before), p as int, s[i as int].0);
            assert(entry_tracks(entries_view(r@)) =~= entry_tracks(before).insert(p as int, s[i as int].0));
            assert(entry_tracks(s.take(i + 1)) =~= entry_tracks(s.take(i as int)).push(s[i as int].0));
            assert(entry_tracks(s.take(i as int)).push(s[i as int].0).drop_last() =~= entry_tracks(s.take(i as int)));
        }
        assert forall|w: u64| #[trigger] entries_view(r@).filter(key_class(key, w)) == s.take(i + 1).filter(key_class(key, w)) by {
            s.take(i as int).lemma_filter_push(s[i as int], key_class(key, w));
        }
        i = i + 1;
    }
    assert(s.take(src.len() as int) =~= s);
    *v = r;
}

/// A playlist shown as an album: the label as artist, empty title and date,
/// its tracks ordered by the time they entered the playlist (ties keep their
/// order), and the merged statistics of those tracks.
pub open spec fn playlist_album_ok(a: AlbumView, label: Seq<char>, entries: Seq<(TrackView, u64)>) -> bool {
    &&& a.artist == label
    &&& a.album == Seq::<char>::empty()
    &&& a.date == Seq::<char>::empty()
    &&& !a.selected
    &&& exists|r: Seq<(TrackView, u64)>| #![trigger entry_tracks(r)]
        sorted_desc(r, time_rank()) && same_key_classes(r, entries, time_rank()) && a.songs == entry_tracks(r)
    &&& a.stats == merged_stats(a.songs)
}

/// What a list of playlists looks like to a specification.
pub open spec fn playlists_view(v: Seq<(String, Vec<(TrackDetails, u64)>)>) -> Seq<(Seq<char>, Seq<(TrackView, u64)>)> {
    v.map_values(|p: (String, Vec<(TrackDetails, u64)>)| (p.0@, entries_view(p.1@)))
}

/// No label names two playlists.
pub open spec fn distinct_labels(p: Seq<(Seq<char>, Seq<(TrackView, u64)>)>) -> bool {
    forall|i: int, j: int| 0 <= i < j < p.len() ==> p[i].0 != p[j].0
}

/// The album shows one of the playlists.
pub open spec fn shows_a_playlist(a: AlbumView, pv: Seq<(Seq<char>, Seq<(TrackView, u64)>)>) -> bool {
    exists|i: int| 0 <= i < pv.len() && #[trigger] playlist_album_ok(a, pv[i].0, pv[i].1)
}

/// One of the albums shows the playlist.
pub open spec fn playlist_is_shown(albums: Seq<AlbumView>, p: (Seq<char>, Seq<(TrackView, u64)>)) -> bool {
    exists|j: int| 0 <= j < albums.len() && #[trigger] playlist_album_ok(albums[j], p.0, p.1)
}

/// Shows each playlist as a pseudo-album (see `playlist_album_ok`), the
/// albums ordered by label.
pub fn playlists_to_albums(playlists: Vec<(String, Vec<(TrackDetails, u64)>)>) -> (r: Vec<Album>)
    requires
        distinct_labels(playlists_view(playlists@)),
        forall|i: int| 0 <= i < playlists@.len()
            ==> total_played(entry_tracks(#[trigger] playlists_view(playlists@)[i].1)) <= u64::MAX,
    ensures
        r@.len() == playlists@.len(),
        sorted_with(albums_view(r@), album_order()),
        forall|j: int| 0 <= j < r@.len() ==> shows_a_playlist(#[trigger] albums_view(r@)[j], playlists_view(playlists@)),
        forall|i: int| 0 <= i < playlists@.len() ==> playlist_is_shown(albums_view(r@), #[trigger] playlists_view(playlists@)[i]),
{
    let ghost pv = playlists_view(playlists@);
    let mut built: Vec<Album> = Vec::new();
    let mut rest = playlists;
    let ghost whole = rest@;
    let mut i: usize = 0;
    let n = rest.len();
    while i < n
        invariant
            n == whole.len(),
            pv == playlists_view(whole),
            i <= n,
            rest@.len() == n,
            forall|j: int| i <= j < n ==> rest@[j] == whole[j],
            forall|j: int| 0 <= j < n ==> total_played(entry_tracks(#[trigger] pv[j].1)) <= u64::MAX,
            built@.len() == i,
            forall|j: int| 0 <= j < i ==> playlist_album_ok(#[trigger] albums_view(built@)[j], pv[j].0, pv[j].1),
        decreases n - i,
    {
        let mut tracks: Vec<(TrackDetails, u64)> = Vec::new();
        std::mem::swap(&mut tracks, &mut rest[i].1);
        assert(entries_view(tracks@) == pv[i as int].1);
        sort_entries_by_time(&mut tracks);
        let ghost sorted = entries_view(tracks@);
        let mut songs: Vec<TrackDetails> = Vec::new();
        let mut k: usize = 0;
        while k < tracks.len()
            invariant
                k <= tracks.len(),
                sorted == entries_view(tracks@),
                songs@.len() == k,
                tracks_view(songs@) == entry_tracks(sorted).take(k as int),
            decreases tracks.len() - k,
        {
            let ghost prev = songs@;
            songs.push(clone_track(&tracks[k].0));
            assert forall|j: int| 0 <= j < k + 1 implies #[trigger] tracks_view(songs@)[j] == entry_tracks(sorted)[j] by {
                if j < k {
                    assert(tracks_view(prev)[j] == entry_tracks(sorted).take(k as int)[j]);
                }
            }
            assert(tracks_view(songs@) =~= entry_tracks(sorted).take(k + 1));
            k = k + 1;
        }
        assert(entry_tracks(sorted).take(tracks.len() as int) =~= entry_tracks(sorted));
        let stats = merge_stats(&songs);
        let label = rest[i].0.clone();
        let album = Album::new(label, String::new(), String::new(), songs, stats);
        let ghost bb = albums_view(built@);
        built.push(album);
        assert(albums_view(built@) =~= bb.push(album@));
        assert(playlist_album_ok(album@, pv[i as int].0, pv[i as int].1)) by {
            assert(album@.songs == entry_tracks(sorted));
        }
        i = i + 1;
    }
    let ghost b = albums_view(built@);
    sort_albums(&mut built);
    let ghost out = albums_view(built@);
    proof {
        broadcast use vstd::seq_lib::group_to_multiset_ensures;
        assert(out.len() == out.to_multiset().len());
        assert(b.len() == b.to_multiset().len());
        assert forall|j: int| 0 <= j < out.len() implies shows_a_playlist(#[trigger] out[j], pv) by {
            assert(out.contains(out[j]));
            assert(out.to_multiset().count(out[j]) > 0);
            assert(b.contains(out[j]));
            let i = choose|i: int| 0 <= i < b.len() && b[i] == out[j];
            assert(playlist_album_ok(b[i], pv[i].0, pv[i].1));
            assert(0 <= i < n && playlist_album_ok(out[j], pv[i].0, pv[i].1));
        }
        assert forall|i: int| 0 <= i < n implies playlist_is_shown(out, #[trigger] pv[i]) by {
            assert(playlist_album_ok(b[i], pv[i].0, pv[i].1));
            assert(b.contains(b[i]));
            assert(b.to_multiset().count(b[i]) > 0);
            assert(out.contains(b[i]));
            let j = choose|j: int| 0 <= j < out.len() && out[j] == b[i];
            assert(playlist_album_ok(out[j], pv[i].0, pv[i].1));
        }
    }
    built
}

/// Each track keyed by its (artist, album title).
pub open spec fn album_key_entries(s: Seq<TrackView>) -> Seq<((Seq<char>, Seq<char>), TrackView)> {
    s.map_values(|t: TrackView| ((t.artist, t.album), t))
}

/// The tracks grouped into albums by (artist, album title), in order of
/// first appearance.
pub open spec fn album_groups(s: Seq<TrackView>) -> Seq<((Seq<char>, Seq<char>), Seq<TrackView>)> {
    group_by_key(album_key_entries(s))
}

/// One (label, (track, time)) entry per playlist label of the track.
pub open spec fn tag_entries(t: TrackView) -> Seq<(Seq<char>, (TrackView, u64))> {
    t.tags.map_values(|tg: (Seq<char>, u64)| (tg.0, (t, tg.1)))
}

/// The playlist entries of all tracks, track by track, label by label.
pub open spec fn labeled_entries(s: Seq<TrackView>) -> Seq<(Seq<char>, (TrackView, u64))>
    decreases s.len(),
{
    if s.len() == 0 {
        Seq::empty()
    } else {
        labeled_entries(s.drop_last()) + tag_entries(s.last())
    }
}

/// The tracks grouped into playlists by label, in order of first appearance.
pub open spec fn playlist_groups(s: Seq<TrackView>) -> Seq<(Seq<char>, Seq<(TrackView, u64)>)> {
    group_by_key(labeled_entries(s))
}

/// The latest `last_played` of the tracks; 0 for none.
pub open spec fn max_last_played(s: Seq<TrackView>) -> u64
    decreases s.len(),
{
    if s.len() == 0 {
        0
    } else {
        let rest = max_last_played(s.drop_last());
        if s.last().stats.0 > rest { s.last().stats.0 } else { rest }
    }
}

/// The time played recorded for an album: the first track's time played is
/// counted once when the album is opened and once more with every track.
pub open spec fn album_played(m: Seq<TrackView>) -> int {
    m[0].stats.1 + total_played(m)
}

/// An album made from its group of tracks `m` (in arrival order) under `key`:
/// the key's artist and title, the first track's date, the tracks, and
/// (latest last-played, `album_played`, earliest date-added).
pub open spec fn album_from_tracks(a: AlbumView, key: (Seq<char>, Seq<char>), m: Seq<TrackView>) -> bool {
    &&& a.artist == key.0
    &&& a.album == key.1
    &&& !a.selected
    &&& m.len() > 0
    &&& a.date == m[0].date
    &&& a.stats == (max_last_played(m), album_played(m) as u64, min_date_added(m))
}

/// `album_from_tracks`, with the album's tracks sorted into track order.
pub open spec fn grouped_album_ok(a: AlbumView, key: (Seq<char>, Seq<char>), m: Seq<TrackView>) -> bool {
    &&& album_from_tracks(a, key, m)
    &&& sorted_with(a.songs, track_order())
    &&& a.songs.to_multiset() == m.to_multiset()
}

/// Recorded time played fits in a counter for every album and playlist.
pub open spec fn library_counters_fit(s: Seq<TrackView>) -> bool {
    &&& forall|k: (Seq<char>, Seq<char>)| #[trigger] values_of_key(album_key_entries(s), k).len() > 0
        ==> album_played(values_of_key(album_key_entries(s), k)) <= u64::MAX
    &&& forall|l: Seq<char>| total_played(entry_tracks(#[trigger] values_of_key(labeled_entries(s), l))) <= u64::MAX
}

proof fn lemma_prefix_played(full: Seq<TrackView>, pre: Seq<TrackView>, rest: Seq<TrackView>)
    requires
        full == pre + rest,
        pre.len() > 0,
    ensures
        album_played(pre) <= album_played(full),
        total_played(pre) <= total_played(full),
{
    lemma_total_played_concat(pre, rest);
    lemma_total_played_nonneg(rest);
    assert(full[0] == pre[0]);
}

/// The time played of the tracks of a playlist, where it fits in a counter.
fn entries_played(entries: &Vec<(TrackDetails, u64)>) -> (r: Option<u64>)
    ensures
        match r {
            Some(v) => v == total_played(entry_tracks(entries_view(entries@))),
            None => total_played(entry_tracks(entries_view(entries@))) > u64::MAX,
        },
{
    let ghost s = entry_tracks(entries_view(entries@));
    let mut acc: u64 = 0;
    let mut k: usize = 0;
    assert(s.take(0) =~= Seq::<TrackView>::empty());
    while k < entries.len()
        invariant
            k <= entries@.len(),
            s == entry_tracks(entries_view(entries@)),
            acc == total_played(s.take(k as int)),
        decreases entries.len() - k,
    {
        assert(s.take(k + 1).drop_last() =~= s.take(k as int));
        assert(s.take(k + 1).last() == s[k as int]);
        match acc.checked_add(entries[k].0.stats.1) {
            Some(v) => {
                acc = v;
            },
            None => {
                proof {
                    crate::track::lemma_total_played_monotone(s, k + 1);
                }
                return None;
            },
        }
        k = k + 1;
    }
    assert(s.take(entries@.len() as int) =~= s);
    Some(acc)
}

/// Assembles the library from the scanned tracks (in arrival order): the
/// albums grouped by (artist, title) in order of first appearance, each with
/// its tracks sorted (see `grouped_album_ok`), followed by the playlists shown
/// as albums (see `playlists_to_albums`); and all tracks, sorted. `None`
/// where the time played of an album or a playlist does not fit in a counter.
pub fn builder(tracks: Vec<TrackDetails>) -> (r: Option<(Vec<Album>, Vec<TrackDetails>)>)
    ensures
        r is None <==> !library_counters_fit(tracks_view(tracks@)),
        r matches Some(r) ==> ({
            let s = tracks_view(tracks@);
            let ag = album_groups(s);
            let pg = playlist_groups(s);
            let albums = albums_view(r.0@);
            &&& albums.len() == ag.len() + pg.len()
            &&& forall|j: int| 0 <= j < ag.len() ==> grouped_album_ok(#[trigger] albums[j], ag[j].0, ag[j].1)
            &&& sorted_with(albums.skip(ag.len() as int), album_order())
            &&& forall|j: int| ag.len() <= j < albums.len() ==> shows_a_playlist(#[trigger] albums[j], pg)
            &&& forall|i: int| 0 <= i < pg.len() ==> playlist_is_shown(albums.skip(ag.len() as int), #[trigger] pg[i])
            &&& sorted_with(tracks_view(r.1@), track_order())
            &&& tracks_view(r.1@).to_multiset() == s.to_multiset()
        }),
{
    let ghost s = tracks_view(tracks@);
    let mut all_songs: Vec<TrackDetails> = Vec::new();
    let mut albums: Vec<Album> = Vec::new();
    let mut playlists: Vec<(String, Vec<(TrackDetails, u64)>)> = Vec::new();
    let mut i: usize = 0;
    assert(s.take(0) =~= Seq::<TrackView>::empty());
    assert(album_key_entries(s.take(0)) =~= Seq::empty());
    assert(playlists_view(playlists@) =~= Seq::empty());
    assert(tracks_view(all_songs@) =~= s.take(0));
    while i < tracks.len()
        invariant
            s == tracks_view(tracks@),
            i <= tracks.len(),
            tracks_view(all_songs@) == s.take(i as int),
            albums@.len() == album_groups(s.take(i as int)).len(),
            forall|j: int| 0 <= j < albums@.len() ==> album_played(#[trigger] album_groups(s.take(i as int))[j].1) <= u64::MAX,
            forall|j: int| 0 <= j < albums@.len() ==> album_from_tracks(#[trigger] albums_view(albums@)[j],
                album_groups(s.take(i as int))[j].0, album_groups(s.take(i as int))[j].1)
                && albums_view(albums@)[j].songs == album_groups(s.take(i as int))[j].1,
            playlists_view(playlists@) == playlist_groups(s.take(i as int)),
        decreases tracks.len() - i,
    {
        let ghost pre = s.take(i as int);
        let ghost post = s.take(i + 1);
        let ghost t = s[i as int];
        let ghost key = (t.artist, t.album);
        assert(post =~= pre.push(t));
        assert(post.drop_last() =~= pre);
        let ghost e0 = album_key_entries(pre);
        let ghost e1 = album_key_entries(post);
        assert(e1 =~= e0.push((key, t)));
        assert(e1.drop_last() =~= e0);
        let ghost g0 = group_by_key(e0);
        proof {
            lemma_group_by_key(e0);
            lemma_group_by_key(e1);
            lemma_group_by_key(album_key_entries(s));
            assert(album_key_entries(s) =~= e1 + album_key_entries(s.skip(i + 1)));
            lemma_values_of_key_concat(e1, album_key_entries(s.skip(i + 1)), key);
        }

        // all tracks
        let ghost prev_all = tracks_view(all_songs@);
        all_songs.push(clone_track(&tracks[i]));
        assert(tracks_view(all_songs@) =~= prev_all.push(t));

        // albums
        let ghost av0 = albums_view(albums@);
        let found = find_album(&albums, &tracks[i].album, &tracks[i].artist);
        let a: usize = match found {
            Some(a) => {
                proof {
                    assert(album_from_tracks(av0[a as int], g0[a as int].0, g0[a as int].1));
                    lemma_key_index_at(g0, key, a as int);
                }
                a
            },
            None => {
                proof {
                    if key_index(g0, key) is Some {
                        let x = choose|x: int| 0 <= x < g0.len() && #[trigger] g0[x].0 == key;
                        assert(album_from_tracks(av0[x], g0[x].0, g0[x].1));
                        assert(av0[x].album == t.album && av0[x].artist == t.artist);
                        assert(false);
                    }
                }
                let empty: Vec<TrackDetails> = Vec::new();
                assert(tracks_view(empty@) =~= Seq::<TrackView>::empty());
                albums.push(Album::new(tracks[i].artist.clone(), tracks[i].album.clone(), tracks[i].date.clone(),
                    empty, tracks[i].stats));
                albums.len() - 1
            },
        };
        let ghost g1 = group_by_key(e1);
        let ghost m1 = g1[a as int].1;
        let ghost m0 = if key_index(g0, key) is Some { g0[a as int].1 } else { Seq::<TrackView>::empty() };
        proof {
            assert(g1[a as int].0 == key);
            assert(m1 == values_of_key(e1, key));
            assert(m1 =~= m0.push(t));
            assert(m1.drop_last() =~= m0);
            assert(m1.last() == t);
            lemma_prefix_played(values_of_key(album_key_entries(s), key), m1, values_of_key(album_key_entries(s.skip(i + 1)), key));
            assert(values_of_key(album_key_entries(s), key).len() > 0);
            lemma_total_played_nonneg(m0);
            if m0.len() > 0 {
                assert(m1[0] == m0[0]);
                assert(album_played(m1) == album_played(m0) + t.stats.1);
                assert(albums@[a as int].stats.1 == album_played(m0));
            } else {
                assert(total_played(m1) == t.stats.1);
                assert(albums@[a as int].stats.1 == t.stats.1);
            }
        }
        let ghost av1 = albums_view(albums@);
        let old_stats = albums[a].stats;
        let ts = tracks[i].stats;
        let played = match old_stats.1.checked_add(ts.1) {
            Some(v) => v,
            None => {
                proof {
                    let full = values_of_key(album_key_entries(s), key);
                    assert(album_played(full) > u64::MAX);
                    assert(!library_counters_fit(s));
                }
                return None;
            },
        };
        let new_stats = (
            if ts.0 > old_stats.0 { ts.0 } else { old_stats.0 },
            played,
            if ts.2 < old_stats.2 { ts.2 } else { old_stats.2 },
        );
        let song = clone_track(&tracks[i]);
        let ghost songs0 = tracks_view(albums[a as int].songs@);
        albums[a].songs.push(song);
        albums[a].stats = new_stats;
        assert(tracks_view(albums[a as int].songs@) =~= songs0.push(t));
        assert(albums_view(albums@) =~= av1.update(a as int, AlbumView { songs: songs0.push(t), stats: new_stats, ..av1[a as int] }));
        proof {
            assert(albums@.len() == g1.len());
            assert forall|x: int| 0 <= x < albums@.len() implies album_from_tracks(#[trigger] albums_view(albums@)[x], g1[x].0, g1[x].1)
                && albums_view(albums@)[x].songs == g1[x].1 by {
                if x != a {
                    assert(albums_view(albums@)[x] == av1[x]);
                    assert(x < av0.len());
                    assert(av1[x] == av0[x]);
                    assert(g1[x] == g0[x]);
                    assert(album_from_tracks(av0[x], g0[x].0, g0[x].1));
                } else {
                    assert(songs0 == m0);
                    if m0.len() > 0 {
                        assert(m1[0] == m0[0]);
                        assert(max_last_played(m1) == (if t.stats.0 > max_last_played(m0) { t.stats.0 } else { max_last_played(m0) }));
                        assert(min_date_added(m1) == (if t.stats.2 < min_date_added(m0) { t.stats.2 } else { min_date_added(m0) }));
                    } else {
                        assert(max_last_played(m0) == 0);
                        assert(min_date_added(m0) == u64::MAX);
                        assert(max_last_played(m1) == (if t.stats.0 > 0 { t.stats.0 } else { 0 }));
                        assert(min_date_added(m1) == (if t.stats.2 < u64::MAX { t.stats.2 } else { u64::MAX }));
                    }
                }
            }
            assert(album_groups(post) == g1);
            assert forall|x: int| 0 <= x < albums@.len() implies album_played(#[trigger] album_groups(post)[x].1) <= u64::MAX by {
                if x != a {
                    assert(g1[x] == g0[x]);
                }
            }
        }

        // playlists
        let ghost l0 = labeled_entries(pre);
        let ghost te = tag_entries(t);
        let mut k: usize = 0;
        assert(te.take(0) =~= Seq::empty());
        assert(l0 + te.take(0) =~= l0);
        while k < tracks[i].tags.len()
            invariant
                s == tracks_view(tracks@),
                i < tracks.len(),
                t == s[i as int],
                te == tag_entries(t),
                k <= tracks[i as int].tags@.len(),
                playlists_view(playlists@) == group_by_key(l0 + te.take(k as int)),
            decreases tracks[i as int].tags@.len() - k,
        {
            let ghost e = l0 + te.take(k as int);
            let ghost g = group_by_key(e);
            let ghost label = t.tags[k as int].0;
            let ghost entry = (t, t.tags[k as int].1);
            proof {
                lemma_group_by_key(e);
                assert(l0 + te.take(k + 1) =~= e.push((label, entry)));
                assert((l0 + te.take(k + 1)).drop_last() =~= e);
            }
            let mut j: usize = 0;
            while j < playlists.len()
                invariant
                    i < tracks.len(),
                    k < tracks[i as int].tags@.len(),
                    label == tracks[i as int].tags@[k as int].0@,
                    g == playlists_view(playlists@),
                    j <= playlists.len(),
                    forall|x: int| 0 <= x < j ==> #[trigger] g[x].0 != label,
                ensures
                    j <= playlists.len(),
                    forall|x: int| 0 <= x < j ==> #[trigger] g[x].0 != label,
                    j < playlists.len() ==> g[j as int].0 == label,
                decreases playlists.len() - j,
            {
                if playlists[j].0 == tracks[i].tags[k].0 {
                    break;
                }
                j = j + 1;
            }
            let ghost pv0 = playlists_view(playlists@);
            let entry_x = (clone_track(&tracks[i]), tracks[i].tags[k].1);
            if j < playlists.len() {
                proof {
                    lemma_key_index_at(g, label, j as int);
                }
                let ghost inner0 = entries_view(playlists[j as int].1@);
                playlists[j].1.push(entry_x);
                assert(entries_view(playlists[j as int].1@) =~= inner0.push(entry));
                assert(playlists_view(playlists@) =~= pv0.update(j as int, (label, pv0[j as int].1.push(entry))));
            } else {
                assert(key_index(g, label) is None);
                let mut inner: Vec<(TrackDetails, u64)> = Vec::new();
                inner.push(entry_x);
                assert(entries_view(inner@) =~= seq![entry]);
                playlists.push((tracks[i].tags[k].0.clone(), inner));
                assert(playlists_view(playlists@) =~= pv0.push((label, seq![entry])));
            }
            k = k + 1;
        }
        proof {
            assert(te.take(te.len() as int) =~= te);
            assert(labeled_entries(post) == l0 + te);
        }
        i = i + 1;
    }
    assert(s.take(tracks.len() as int) =~= s);
    let ghost ag = album_groups(s);

    // sort each album's tracks
    let mut j: usize = 0;
    while j < albums.len()
        invariant
            ag == album_groups(s),
            albums@.len() == ag.len(),
            j <= albums@.len(),
            forall|x: int| 0 <= x < albums@.len() ==> album_from_tracks(#[trigger] albums_view(albums@)[x], ag[x].0, ag[x].1),
            forall|x: int| 0 <= x < j ==> grouped_album_ok(#[trigger] albums_view(albums@)[x], ag[x].0, ag[x].1),
            forall|x: int| j <= x < albums@.len() ==> #[trigger] albums_view(albums@)[x].songs == ag[x].1,
        decreases albums.len() - j,
    {
        let ghost av = albums_view(albums@);
        let ghost before = albums@[j as int];
        let ghost old_albums = albums@;
        sort_tracks(&mut albums[j].songs);
        assert(albums@[j as int].artist == before.artist && albums@[j as int].album == before.album
            && albums@[j as int].date == before.date && albums@[j as int].stats == before.stats
            && albums@[j as int].selected == before.selected);
        assert forall|x: int| 0 <= x < albums@.len() && x != j implies albums@[x] == old_albums[x] by {}
        assert(albums_view(albums@) =~= av.update(j as int, AlbumView { songs: tracks_view(albums[j as int].songs@), ..av[j as int] }));
        assert forall|x: int| 0 <= x < albums@.len() implies album_from_tracks(#[trigger] albums_view(albums@)[x], ag[x].0, ag[x].1) by {
            assert(album_from_tracks(av[x], ag[x].0, ag[x].1));
        }
        assert forall|x: int| 0 <= x < j + 1 implies grouped_album_ok(#[trigger] albums_view(albums@)[x], ag[x].0, ag[x].1) by {
            assert(album_from_tracks(av[x], ag[x].0, ag[x].1));
            if x < j {
                assert(grouped_album_ok(av[x], ag[x].0, ag[x].1));
            } else {
                assert(av[x].songs == ag[x].1);
            }
        }
        j = j + 1;
    }

    // the albums' counters fit
    proof {
        lemma_group_by_key(album_key_entries(s));
        assert forall|k: (Seq<char>, Seq<char>)| #[trigger] values_of_key(album_key_entries(s), k).len() > 0
            implies album_played(values_of_key(album_key_entries(s), k)) <= u64::MAX by {
            if key_index(ag, k) is None {
                assert(false);
            }
            let x = key_index(ag, k)->Some_0;
            assert(0 <= x < ag.len() && ag[x].0 == k);
            assert(ag[x].1 == values_of_key(album_key_entries(s), k));
        }
    }

    // the playlists' counters fit
    let ghost pg = playlist_groups(s);
    proof {
        lemma_group_by_key(labeled_entries(s));
    }
    let mut x: usize = 0;
    while x < playlists.len()
        invariant
            s == tracks_view(tracks@),
            pg == playlist_groups(s),
            playlists_view(playlists@) == pg,
            x <= playlists@.len(),
            forall|y: int| 0 <= y < pg.len() ==> #[trigger] pg[y].1 == values_of_key(labeled_entries(s), pg[y].0),
            forall|y: int| 0 <= y < x ==> total_played(entry_tracks(#[trigger] playlists_view(playlists@)[y].1)) <= u64::MAX,
        decreases playlists.len() - x,
    {
        assert(entries_view(playlists@[x as int].1@) == pg[x as int].1);
        if entries_played(&playlists[x].1).is_none() {
            proof {
                assert(total_played(entry_tracks(values_of_key(labeled_entries(s), pg[x as int].0))) > u64::MAX);
                assert(!library_counters_fit(s));
            }
            return None;
        }
        x = x + 1;
    }
    proof {
        assert forall|l: Seq<char>| total_played(entry_tracks(#[trigger] values_of_key(labeled_entries(s), l))) <= u64::MAX by {
            if key_index(pg, l) is None {
                assert(values_of_key(labeled_entries(s), l).len() == 0);
                assert(entry_tracks(values_of_key(labeled_entries(s), l)) =~= Seq::<TrackView>::empty());
            } else {
                let y = key_index(pg, l)->Some_0;
                assert(0 <= y < pg.len() && pg[y].0 == l);
                assert(pg[y].1 == values_of_key(labeled_entries(s), l));
                assert(total_played(entry_tracks(playlists_view(playlists@)[y].1)) <= u64::MAX);
            }
        }
        assert(library_counters_fit(s));
    }
    let mut shown = playlists_to_albums(playlists);
    let ghost av_real = albums_view(albums@);
    let ghost av_pl = albums_view(shown@);
    albums.append(&mut shown);
    assert(albums_view(albums@) =~= av_real + av_pl);
    assert(albums_view(albums@).skip(ag.len() as int) =~= av_pl);
    sort_tracks(&mut all_songs);
    Some((albums, all_songs))
}

} // verus!
