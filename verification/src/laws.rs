use vstd::prelude::*;
use crate::track::{TrackView, AlbumView};
use crate::nav::{clamp_up, clamp_down, next_of, prev_of, count_char, lemma_count_char_absent, lemma_count_char_concat,
    TrackChange, first_path, is_first_path, first_album, update_targets, updated_lists, lemma_first_path_unique,
    lemma_updated_albums_keep_keys};
use crate::search::{track_filter, album_filter};
use crate::library::{values_of_key, album_key_entries, album_groups, group_by_key, key_index, lemma_group_by_key};
use crate::sort::sorted_with;
use crate::order::{is_order, track_order, album_order, lemma_track_order, lemma_album_order, compare_track, compare_album, compare_text, lemma_text_laws};
use crate::text::{is_substring, lowercase_of};

verus! {

/// Stepping to the next track of a queue and back returns to the same
/// index.
pub proof fn law_prev_undoes_next(i: usize, len: usize)
    requires
        next_of(i, len) is Some,
    ensures
        prev_of(next_of(i, len)->Some_0) == Some(i),
{
}

/// Stepping to the previous track of a queue and forward again returns to
/// the same index.
pub proof fn law_next_undoes_prev(j: usize, len: usize)
    requires
        prev_of(j) is Some,
        j < len,
    ensures
        next_of(prev_of(j)->Some_0, len) == Some(j),
{
}

/// Moving the cursor down or up keeps it on a list it was on.
pub proof fn law_cursor_stays_on_list(cursor: usize, len: int)
    requires
        cursor < len,
    ensures
        clamp_up(cursor, len) < len,
        clamp_down(cursor) < len,
{
}

/// Moving the cursor down and then up returns it to where it was, unless
/// it was on the last row.
pub proof fn law_down_then_up(cursor: usize, len: usize)
    requires
        cursor + 1 < len,
    ensures
        clamp_down(clamp_up(cursor, len as int)) == cursor,
{
}

/// A command line made of two words without spaces, joined by one space,
/// holds exactly one space and splits back into just those words.
pub proof fn law_command_line_round_trip(cmd: Seq<char>, arg: Seq<char>, c2: Seq<char>, a2: Seq<char>)
    requires
        !cmd.contains(' '),
        !arg.contains(' '),
        !c2.contains(' '),
        !a2.contains(' '),
        cmd + seq![' '] + arg == c2 + seq![' '] + a2,
    ensures
        c2 == cmd,
        a2 == arg,
        count_char(cmd + seq![' '] + arg, ' ') == 1,
{
    let line = cmd + seq![' '] + arg;
    if c2.len() < cmd.len() {
        assert(line[c2.len() as int] == ' ');
        assert(line[c2.len() as int] == cmd[c2.len() as int]);
    }
    if cmd.len() < c2.len() {
        assert(line[cmd.len() as int] == ' ');
        assert((c2 + seq![' '] + a2)[cmd.len() as int] == c2[cmd.len() as int]);
    }
    assert(c2 =~= cmd) by {
        assert forall|i: int| 0 <= i < cmd.len() implies c2[i] == cmd[i] by {
            assert(line[i] == cmd[i]);
            assert((c2 + seq![' '] + a2)[i] == c2[i]);
        }
    }
    assert(a2 =~= arg) by {
        let head = cmd + seq![' '];
        let head2 = c2 + seq![' '];
        assert(head.len() == cmd.len() + 1);
        assert(head2.len() == head.len());
        assert(line.len() == (c2 + seq![' '] + a2).len());
        assert(arg.len() == a2.len());
        assert forall|i: int| 0 <= i < arg.len() implies a2[i] == arg[i] by {
            assert((head + arg)[head.len() + i] == arg[i]);
            assert((head2 + a2)[head2.len() + i] == a2[i]);
        }
    }
    lemma_count_char_absent(cmd, ' ');
    lemma_count_char_absent(arg, ' ');
    lemma_count_char_concat(cmd, seq![' '], ' ');
    lemma_count_char_concat(cmd + seq![' '], arg, ' ');
    assert(count_char(seq![' '], ' ') == 1) by {
        assert(seq![' '].drop_last() =~= Seq::<char>::empty());
        assert(count_char(Seq::<char>::empty(), ' ') == 0);
    }
}

/// Keeping the elements that satisfy a predicate a second time keeps them all.
proof fn lemma_filter_twice<T>(s: Seq<T>, p: spec_fn(T) -> bool)
    ensures
        s.filter(p).filter(p) == s.filter(p),
    decreases s.len(),
{
    if s.len() > 0 {
        let d = s.drop_last();
        lemma_filter_twice(d, p);
        assert(d.push(s.last()) =~= s);
        d.lemma_filter_push(s.last(), p);
        d.filter(p).lemma_filter_push(s.last(), p);
    }
}

/// Searching the result of a search again with the same query changes
/// nothing.
pub proof fn law_search_twice(s: Seq<TrackView>, q: Seq<char>)
    ensures
        s.filter(track_filter(q)).filter(track_filter(q)) == s.filter(track_filter(q)),
{
    lemma_filter_twice(s, track_filter(q));
}

/// Every track matches the empty query, so an empty search shows all tracks.
pub proof fn law_empty_query_keeps_all(s: Seq<TrackView>)
    ensures
        s.filter(track_filter(Seq::empty())) == s,
    decreases s.len(),
{
    if s.len() > 0 {
        law_empty_query_keeps_all(s.drop_last());
        let low = lowercase_of(s.last().artist);
        assert(low.subrange(0, 0 + Seq::<char>::empty().len() as int) =~= Seq::<char>::empty());
        assert(is_substring(Seq::empty(), low));
        assert(track_filter(Seq::empty())(s.last()));
        assert(s.drop_last().push(s.last()) =~= s);
        s.drop_last().lemma_filter_push(s.last(), track_filter(Seq::empty()));
    }
}

/// A track is kept by a search only when the query occurs in its artist,
/// album or title (each lowercased): whatever else it holds (its date,
/// path, labels) plays no part.
pub proof fn law_search_keeps_only_field_matches(s: Seq<TrackView>, q: Seq<char>, i: int)
    requires
        0 <= i < s.filter(track_filter(q)).len(),
    ensures
        ({
            let t = s.filter(track_filter(q))[i];
            ||| is_substring(q, lowercase_of(t.artist))
            ||| is_substring(q, lowercase_of(t.album))
            ||| is_substring(q, lowercase_of(t.title))
        }),
{
    s.lemma_filter_pred(track_filter(q), i);
}

/// A track whose artist, album or title (lowercased) holds the query is
/// kept by the search.
pub proof fn law_search_keeps_field_matches(s: Seq<TrackView>, q: Seq<char>, i: int)
    requires
        0 <= i < s.len(),
        is_substring(q, lowercase_of(s[i].artist)) || is_substring(q, lowercase_of(s[i].album))
            || is_substring(q, lowercase_of(s[i].title)),
    ensures
        s.filter(track_filter(q)).contains(s[i]),
{
    s.lemma_filter_contains(track_filter(q), i);
}

/// Within one album, a track with a smaller number comes before one with a
/// larger number, whatever their titles and other fields.
pub proof fn law_track_number_orders_an_album(x: TrackView, y: TrackView)
    requires
        x.artist == y.artist,
        x.album == y.album,
        x.track_no < y.track_no,
    ensures
        compare_track(x, y) < 0,
{
    lemma_text_laws(x.artist, y.artist, y.artist);
    lemma_text_laws(x.album, y.album, y.album);
}

/// Tracks come by artist first, then album title, then track number, then
/// title: the first of these that differs decides which comes first.
pub proof fn law_track_order_leading_fields(x: TrackView, y: TrackView)
    ensures
        x.artist != y.artist ==> (compare_track(x, y) < 0 <==> compare_text(x.artist, y.artist) < 0),
        x.artist == y.artist && x.album != y.album
            ==> (compare_track(x, y) < 0 <==> compare_text(x.album, y.album) < 0),
        x.artist == y.artist && x.album == y.album && x.track_no != y.track_no
            ==> (compare_track(x, y) < 0 <==> x.track_no < y.track_no),
        x.artist == y.artist && x.album == y.album && x.track_no == y.track_no && x.title != y.title
            ==> (compare_track(x, y) < 0 <==> compare_text(x.title, y.title) < 0),
{
    lemma_text_laws(x.artist, y.artist, y.artist);
    lemma_text_laws(x.album, y.album, y.album);
    lemma_text_laws(x.title, y.title, y.title);
}

/// Albums come by artist first, then album title: the first of these that
/// differs decides which comes first.
pub proof fn law_album_order_leading_fields(x: AlbumView, y: AlbumView)
    ensures
        x.artist != y.artist ==> (compare_album(x, y) < 0 <==> compare_text(x.artist, y.artist) < 0),
        x.artist == y.artist && x.album != y.album
            ==> (compare_album(x, y) < 0 <==> compare_text(x.album, y.album) < 0),
{
    lemma_text_laws(x.artist, y.artist, y.artist);
    lemma_text_laws(x.album, y.album, y.album);
}

/// An album is kept by a search exactly when the query occurs in its artist
/// or album title (each lowercased).
pub proof fn law_album_search_matches_fields(s: Seq<AlbumView>, q: Seq<char>, i: int, j: int)
    requires
        0 <= i < s.filter(album_filter(q)).len(),
        0 <= j < s.len(),
    ensures
        is_substring(q, lowercase_of(s.filter(album_filter(q))[i].artist))
            || is_substring(q, lowercase_of(s.filter(album_filter(q))[i].album)),
        is_substring(q, lowercase_of(s[j].artist)) || is_substring(q, lowercase_of(s[j].album))
            ==> s.filter(album_filter(q)).contains(s[j]),
{
    s.lemma_filter_pred(album_filter(q), i);
    if is_substring(q, lowercase_of(s[j].artist)) || is_substring(q, lowercase_of(s[j].album)) {
        s.lemma_filter_contains(album_filter(q), j);
    }
}

/// In tracks sorted by the track order (as every album's tracks and the
/// list of all tracks are), the tracks of one album come in order of their
/// track numbers.
pub proof fn law_sorted_album_tracks_by_number(s: Seq<TrackView>, i: int, j: int)
    requires
        sorted_with(s, track_order()),
        0 <= i < j < s.len(),
        s[i].artist == s[j].artist,
        s[i].album == s[j].album,
    ensures
        s[i].track_no <= s[j].track_no,
{
    assert(track_order()(s[i], s[j]) <= 0);
    if s[i].track_no > s[j].track_no {
        law_track_number_orders_an_album(s[j], s[i]);
        lemma_track_order();
        assert(track_order()(s[j], s[i]) < 0);
    }
}

/// Every album matches the empty query, so an empty search shows all albums.
pub proof fn law_empty_query_keeps_all_albums(s: Seq<AlbumView>)
    ensures
        s.filter(album_filter(Seq::empty())) == s,
    decreases s.len(),
{
    if s.len() > 0 {
        law_empty_query_keeps_all_albums(s.drop_last());
        let low = lowercase_of(s.last().artist);
        assert(low.subrange(0, 0 + Seq::<char>::empty().len() as int) =~= Seq::<char>::empty());
        assert(is_substring(Seq::empty(), low));
        assert(album_filter(Seq::empty())(s.last()));
        assert(s.drop_last().push(s.last()) =~= s);
        s.drop_last().lemma_filter_push(s.last(), album_filter(Seq::empty()));
    }
}

/// Lists with the same paths at the same places find a path at the same place.
proof fn lemma_first_path_same(s: Seq<TrackView>, s2: Seq<TrackView>, p: Seq<char>)
    requires
        s2.len() == s.len(),
        forall|j: int| 0 <= j < s.len() ==> #[trigger] s2[j].song_path == s[j].song_path,
    ensures
        first_path(s2, p) == first_path(s, p),
{
    match first_path(s, p) {
        Some(x) => {
            assert(is_first_path(s, p, x));
            assert(is_first_path(s2, p, x)) by {
                assert forall|j: int| 0 <= j < x implies s2[j].song_path != p by {
                    assert(s[j].song_path != p);
                }
            }
            lemma_first_path_unique(s2, p, x);
        },
        None => {
            assert(!exists|i: int| is_first_path(s2, p, i)) by {
                if exists|i: int| is_first_path(s2, p, i) {
                    let i = choose|i: int| is_first_path(s2, p, i);
                    assert(is_first_path(s, p, i)) by {
                        assert forall|j: int| 0 <= j < i implies s[j].song_path != p by {
                            assert(s2[j].song_path != p);
                        }
                    }
                }
            }
        },
    }
}

/// A change to a track keeps its path, artist and album title.
proof fn lemma_change_keeps_keys(u: TrackChange, t: TrackView)
    ensures
        u.apply(t).song_path == t.song_path,
        u.apply(t).artist == t.artist,
        u.apply(t).album == t.album,
{
}

/// After a change to the track at `p`, a second change to it lands on the
/// same tracks as the first.
pub proof fn law_change_targets_stay(songs: Seq<TrackView>, albums: Seq<AlbumView>, p: Seq<char>, u: TrackChange)
    ensures
        update_targets(updated_lists(songs, albums, p, u).0, updated_lists(songs, albums, p, u).1, p)
            == update_targets(songs, albums, p),
{
    let (s1, a1) = updated_lists(songs, albums, p, u);
    if let Some((i, a, k)) = update_targets(songs, albums, p) {
        assert forall|j: int| 0 <= j < songs.len() implies #[trigger] s1[j].song_path == songs[j].song_path
            && s1[j].album == songs[j].album && s1[j].artist == songs[j].artist by {
            lemma_change_keeps_keys(u, songs[j]);
        }
        lemma_first_path_same(songs, s1, p);
        lemma_updated_albums_keep_keys(songs, albums, p, u);
        let al = songs[i].album;
        let ar = songs[i].artist;
        assert(first_album(a1, al, ar) == first_album(albums, al, ar));
        assert(0 <= a < albums.len()) by {
            assert(crate::nav::is_first_album(albums, al, ar, a));
        }
        assert forall|j: int| 0 <= j < albums[a].songs.len() implies #[trigger] a1[a].songs[j].song_path
            == albums[a].songs[j].song_path by {
            lemma_change_keeps_keys(u, albums[a].songs[j]);
        }
        lemma_first_path_same(albums[a].songs, a1[a].songs, p);
    }
}

/// Recording the same last-played time twice is the same as recording it
/// once.
pub proof fn law_last_played_twice(songs: Seq<TrackView>, albums: Seq<AlbumView>, p: Seq<char>, ts: u64)
    ensures
        ({
            let once = updated_lists(songs, albums, p, TrackChange::SetLastPlayed(ts));
            updated_lists(once.0, once.1, p, TrackChange::SetLastPlayed(ts)) == once
        }),
{
    let u = TrackChange::SetLastPlayed(ts);
    law_change_targets_stay(songs, albums, p, u);
    let once = updated_lists(songs, albums, p, u);
    let twice = updated_lists(once.0, once.1, p, u);
    if let Some((i, a, k)) = update_targets(songs, albums, p) {
        assert(twice.0 =~= once.0);
        assert(twice.1[a].songs =~= once.1[a].songs);
        assert(twice.1 =~= once.1);
    }
}

/// Recording `d1` and then `d2` more seconds played is the same as
/// recording `d1 + d2` at once.
pub proof fn law_durations_add(songs: Seq<TrackView>, albums: Seq<AlbumView>, p: Seq<char>, d1: u64, d2: u64)
    requires
        d1 + d2 <= u64::MAX,
        !crate::nav::update_overflows(songs, albums, p, TrackChange::AddDuration((d1 + d2) as u64)),
    ensures
        ({
            let first = updated_lists(songs, albums, p, TrackChange::AddDuration(d1));
            updated_lists(first.0, first.1, p, TrackChange::AddDuration(d2))
                == updated_lists(songs, albums, p, TrackChange::AddDuration((d1 + d2) as u64))
        }),
{
    let u1 = TrackChange::AddDuration(d1);
    law_change_targets_stay(songs, albums, p, u1);
    let first = updated_lists(songs, albums, p, u1);
    let both = updated_lists(first.0, first.1, p, TrackChange::AddDuration(d2));
    let sum = updated_lists(songs, albums, p, TrackChange::AddDuration((d1 + d2) as u64));
    if let Some((i, a, k)) = update_targets(songs, albums, p) {
        assert(both.0 =~= sum.0);
        assert(both.1[a].songs =~= sum.1[a].songs);
        assert(both.1 =~= sum.1);
    }
}

/// Removing a track's labels and then labelling it leaves it with that one
/// label, in the library list and in its album's copy; where the track or
/// its album copy cannot be found, both lists stay as they were.
pub proof fn law_wipe_then_label(songs: Seq<TrackView>, albums: Seq<AlbumView>, p: Seq<char>, label: Seq<char>)
    ensures
        ({
            let wiped = updated_lists(songs, albums, p, TrackChange::ClearLabels);
            let labelled = updated_lists(wiped.0, wiped.1, p, TrackChange::AddLabel(label, 0));
            match update_targets(songs, albums, p) {
                Some((i, a, k)) => labelled.0[i].tags == seq![(label, 0u64)]
                    && labelled.1[a].songs[k].tags == seq![(label, 0u64)],
                None => labelled == (songs, albums),
            }
        }),
{
    law_change_targets_stay(songs, albums, p, TrackChange::ClearLabels);
    assert(Seq::<(Seq<char>, u64)>::empty().push((label, 0u64)) =~= seq![(label, 0u64)]);
}

/// Two sequences sorted under the same total order that hold the same
/// elements are equal.
pub proof fn law_sorted_arrangement_unique<T>(a: Seq<T>, b: Seq<T>, c: spec_fn(T, T) -> int)
    requires
        is_order(c),
        sorted_with(a, c),
        sorted_with(b, c),
        a.to_multiset() == b.to_multiset(),
    ensures
        a == b,
    decreases a.len(),
{
    broadcast use vstd::seq_lib::group_to_multiset_ensures;
    assert(a.len() == b.len()) by {
        assert(a.len() == a.to_multiset().len());
        assert(b.len() == b.to_multiset().len());
    }
    if a.len() > 0 {
        assert(b.contains(a[0])) by {
            assert(a.to_multiset().count(a[0]) > 0);
        }
        assert(a.contains(b[0])) by {
            assert(b.to_multiset().count(b[0]) > 0);
        }
        let j = choose|j: int| 0 <= j < b.len() && b[j] == a[0];
        let i = choose|i: int| 0 <= i < a.len() && a[i] == b[0];
        assert(c(b[0], a[0]) <= 0) by {
            if j > 0 { assert(c(b[0], b[j]) <= 0); }
        }
        assert(c(a[0], b[0]) <= 0) by {
            if i > 0 { assert(c(a[0], a[i]) <= 0); }
        }
        assert(c(a[0], b[0]) == -c(b[0], a[0]));
        assert(a[0] == b[0]);
        let a1 = a.remove(0);
        let b1 = b.remove(0);
        assert(a1.to_multiset() == b1.to_multiset());
        assert(sorted_with(a1, c)) by {
            assert forall|x: int, y: int| 0 <= x < y < a1.len() implies #[trigger] c(a1[x], a1[y]) <= 0 by {
                assert(a1[x] == a[x + 1] && a1[y] == a[y + 1]);
            }
        }
        assert(sorted_with(b1, c)) by {
            assert forall|x: int, y: int| 0 <= x < y < b1.len() implies #[trigger] c(b1[x], b1[y]) <= 0 by {
                assert(b1[x] == b[x + 1] && b1[y] == b[y + 1]);
            }
        }
        law_sorted_arrangement_unique(a1, b1, c);
        assert(a =~= b) by {
            assert forall|k: int| 0 <= k < a.len() implies a[k] == b[k] by {
                if k > 0 {
                    assert(a[k] == a1[k - 1] && b[k] == b1[k - 1]);
                }
            }
        }
    } else {
        assert(a =~= b);
    }
}

/// Sorting tracks yields the one arrangement of them in track order, so the
/// same tracks in any order sort alike, and sorting sorted tracks keeps them.
pub proof fn law_track_sort_determined(a: Seq<TrackView>, b: Seq<TrackView>)
    requires
        sorted_with(a, track_order()),
        sorted_with(b, track_order()),
        a.to_multiset() == b.to_multiset(),
    ensures
        a == b,
{
    lemma_track_order();
    law_sorted_arrangement_unique(a, b, track_order());
}

/// Sorting albums yields the one arrangement of them in album order.
pub proof fn law_album_sort_determined(a: Seq<AlbumView>, b: Seq<AlbumView>)
    requires
        sorted_with(a, album_order()),
        sorted_with(b, album_order()),
        a.to_multiset() == b.to_multiset(),
    ensures
        a == b,
{
    lemma_album_order();
    law_sorted_arrangement_unique(a, b, album_order());
}

/// The value of every entry is among the values of its key.
proof fn lemma_entry_in_its_key<K, V>(e: Seq<(K, V)>, i: int)
    requires
        0 <= i < e.len(),
    ensures
        values_of_key(e, e[i].0).contains(e[i].1),
    decreases e.len(),
{
    let d = e.drop_last();
    if i < e.len() - 1 {
        lemma_entry_in_its_key(d, i);
        assert(d[i] == e[i]);
        let vs = values_of_key(d, e[i].0);
        let w = choose|w: int| 0 <= w < vs.len() && vs[w] == e[i].1;
        if e.last().0 == e[i].0 {
            assert(vs.push(e.last().1)[w] == e[i].1);
        }
    } else {
        let vs = values_of_key(d, e[i].0);
        assert(vs.push(e.last().1)[vs.len() as int] == e[i].1);
    }
}

/// Every track grouped under an (artist, title) key has that artist and title.
proof fn lemma_album_values_keyed(s: Seq<TrackView>, k: (Seq<char>, Seq<char>), t: TrackView)
    requires
        values_of_key(album_key_entries(s), k).contains(t),
    ensures
        (t.artist, t.album) == k,
    decreases s.len(),
{
    let e = album_key_entries(s);
    if s.len() > 0 {
        let d = s.drop_last();
        assert(album_key_entries(d) =~= e.drop_last());
        let vs = values_of_key(e.drop_last(), k);
        if e.last().0 == k {
            if vs.contains(t) {
                lemma_album_values_keyed(d, k, t);
            } else {
                let w = choose|w: int| 0 <= w < vs.push(e.last().1).len() && vs.push(e.last().1)[w] == t;
                assert(w == vs.len());
            }
        } else {
            lemma_album_values_keyed(d, k, t);
        }
    }
}

/// Every scanned track lands in the album group of its artist and album
/// title.
pub proof fn law_every_track_in_its_album(s: Seq<TrackView>, i: int)
    requires
        0 <= i < s.len(),
    ensures
        exists|j: int| 0 <= j < album_groups(s).len() && #[trigger] album_groups(s)[j].0 == (s[i].artist, s[i].album)
            && album_groups(s)[j].1.contains(s[i]),
{
    let e = album_key_entries(s);
    let k = (s[i].artist, s[i].album);
    assert(e[i] == (k, s[i]));
    lemma_entry_in_its_key(e, i);
    lemma_group_by_key(e);
    let g = group_by_key(e);
    if key_index(g, k) is None {
        assert(values_of_key(e, k).len() == 0);
    }
    let j = key_index(g, k)->Some_0;
    assert(0 <= j < g.len() && g[j].0 == k);
    assert(g[j].1 == values_of_key(e, k));
    assert(album_groups(s) == g);
    assert(album_groups(s)[j].0 == k && album_groups(s)[j].1.contains(s[i]));
}

/// An album group holds only tracks of its own artist and album title.
pub proof fn law_album_holds_its_own_tracks(s: Seq<TrackView>, j: int, t: TrackView)
    requires
        0 <= j < album_groups(s).len(),
        album_groups(s)[j].1.contains(t),
    ensures
        (t.artist, t.album) == album_groups(s)[j].0,
{
    let e = album_key_entries(s);
    lemma_group_by_key(e);
    lemma_album_values_keyed(s, album_groups(s)[j].0, t);
}

} // verus!
