use vstd::prelude::*;
use crate::order::{is_order, track_order, album_order, compare_track, compare_album, lemma_track_order, lemma_album_order};
use crate::compare::{compare_track_exec, compare_album_exec};
use crate::track::{TrackDetails, TrackView, Album, AlbumView, tracks_view, albums_view};

verus! {

broadcast use vstd::seq_lib::group_to_multiset_ensures;

/// Every element is at most every later one under the comparison `c`.
pub open spec fn sorted_with<T>(s: Seq<T>, c: spec_fn(T, T) -> int) -> bool {
    forall|i: int, j: int| 0 <= i < j < s.len() ==> #[trigger] c(s[i], s[j]) <= 0
}

/// Every element's key is at least every later one's.
pub open spec fn sorted_desc<T>(s: Seq<T>, key: spec_fn(T) -> u64) -> bool {
    forall|i: int, j: int| 0 <= i < j < s.len() ==> #[trigger] key(s[i]) >= #[trigger] key(s[j])
}

/// The elements whose key is `v`.
pub open spec fn key_class<T>(key: spec_fn(T) -> u64, v: u64) -> spec_fn(T) -> bool {
    |t: T| key(t) == v
}

/// `r` holds the elements of `s` with every group of equal keys in the same
/// relative order: the stability of a sort by key.
pub open spec fn same_key_classes<T>(r: Seq<T>, s: Seq<T>, key: spec_fn(T) -> u64) -> bool {
    forall|v: u64| #[trigger] r.filter(key_class(key, v)) == s.filter(key_class(key, v))
}

/// The `k`-th statistic (0: last played, 1: time played, 2: date added).
pub open spec fn stat_of(stats: (u64, u64, u64), k: int) -> u64 {
    if k == 0 {
        stats.0
    } else if k == 1 {
        stats.1
    } else {
        stats.2
    }
}

/// A track's `k`-th statistic.
pub open spec fn track_stat(k: int) -> spec_fn(TrackView) -> u64 {
    |t: TrackView| stat_of(t.stats, k)
}

/// An album's `k`-th statistic.
pub open spec fn album_stat(k: int) -> spec_fn(AlbumView) -> u64 {
    |a: AlbumView| stat_of(a.stats, k)
}

/// Inserting an element before the first larger one keeps a list sorted.
pub proof fn lemma_insert_sorted<T>(s: Seq<T>, x: T, p: int, c: spec_fn(T, T) -> int)
    requires
        is_order(c),
        sorted_with(s, c),
        0 <= p <= s.len(),
        forall|k: int| 0 <= k < p ==> #[trigger] c(x, s[k]) >= 0,
        p < s.len() ==> c(x, s[p]) < 0,
    ensures
        sorted_with(s.insert(p, x), c),
{
    let t = s.insert(p, x);
    s.insert_ensures(p, x);
    assert forall|i: int, j: int| 0 <= i < j < t.len() implies #[trigger] c(t[i], t[j]) <= 0 by {
        if j < p {
            assert(t[i] == s[i] && t[j] == s[j]);
        } else if j == p {
            assert(t[i] == s[i]);
            assert(c(x, s[i]) >= 0);
            assert(c(s[i], x) == -c(x, s[i]));
        } else if i < p {
            assert(t[i] == s[i] && t[j] == s[j - 1]);
        } else if i == p {
            assert(t[j] == s[j - 1]);
            if p < j - 1 {
                assert(c(s[p], s[j - 1]) <= 0);
            } else {
                assert(c(s[p], s[p]) == 0);
            }
            assert(c(x, s[p]) <= 0 && c(s[p], s[j - 1]) <= 0 ==> c(x, s[j - 1]) <= 0);
        } else {
            assert(t[i] == s[i - 1] && t[j] == s[j - 1]);
        }
    }
}

/// Inserting an element after every element with a key at least its own
/// keeps a list sorted by key, largest first, and keeps equal keys in order.
pub proof fn lemma_insert_stable<T>(s: Seq<T>, x: T, p: int, key: spec_fn(T) -> u64)
    requires
        sorted_desc(s, key),
        0 <= p <= s.len(),
        forall|k: int| 0 <= k < p ==> #[trigger] key(s[k]) >= key(x),
        p < s.len() ==> key(s[p]) < key(x),
    ensures
        sorted_desc(s.insert(p, x), key),
        forall|v: u64| #[trigger] s.insert(p, x).filter(key_class(key, v))
            == if key(x) == v { s.filter(key_class(key, v)).push(x) } else { s.filter(key_class(key, v)) },
{
    broadcast use vstd::seq_lib::group_filter_ensures;
    let t = s.insert(p, x);
    s.insert_ensures(p, x);
    assert forall|i: int, j: int| 0 <= i < j < t.len() implies #[trigger] key(t[i]) >= #[trigger] key(t[j]) by {
        if j < p {
            assert(t[i] == s[i] && t[j] == s[j]);
        } else if j == p {
            assert(t[i] == s[i]);
        } else if i < p {
            assert(t[i] == s[i] && t[j] == s[j - 1]);
        } else if i == p {
            assert(t[j] == s[j - 1]);
            if p < j - 1 {
                assert(key(s[p]) >= key(s[j - 1]));
            }
        } else {
            assert(t[i] == s[i - 1] && t[j] == s[j - 1]);
        }
    }
    let a = s.subrange(0, p);
    let b = s.subrange(p, s.len() as int);
    assert(s =~= a + b);
    assert(t =~= a.push(x) + b);
    assert forall|v: u64| #[trigger] s.insert(p, x).filter(key_class(key, v))
        == if key(x) == v { s.filter(key_class(key, v)).push(x) } else { s.filter(key_class(key, v)) } by {
        let pred = key_class(key, v);
        Seq::filter_distributes_over_add(a, b, pred);
        Seq::filter_distributes_over_add(a.push(x), b, pred);
        a.lemma_filter_push(x, pred);
        if key(x) == v {
            assert forall|k: int| 0 <= k < b.len() implies !pred(#[trigger] b[k]) by {
                assert(b[k] == s[p + k]);
                if k > 0 {
                    assert(key(s[p]) >= key(s[p + k]));
                }
            }
            assert(b.all(|y: T| !pred(y)));
            b.lemma_all_neg_filter_empty(pred);
            assert(b.filter(pred) =~= Seq::<T>::empty());
            assert(a.filter(pred).push(x) + b.filter(pred) =~= (a.filter(pred) + b.filter(pred)).push(x));
        }
    }
}

/// Sorts tracks into the order of `compare_track` (field by field).
pub fn sort_tracks(v: &mut Vec<TrackDetails>)
    ensures
        sorted_with(tracks_view(final(v)@), track_order()),
        tracks_view(final(v)@).to_multiset() == tracks_view(old(v)@).to_multiset(),
{
    proof {
        lemma_track_order();
    }
    let ghost c = track_order();
    let ghost s = tracks_view(v@);
    let mut src: Vec<TrackDetails> = Vec::new();
    std::mem::swap(&mut src, v);
    let mut r: Vec<TrackDetails> = Vec::new();
    let mut i: usize = 0;
    while i < src.len()
        invariant
            c == track_order(),
            is_order(c),
            s == tracks_view(src@),
            i <= src.len(),
            sorted_with(tracks_view(r@), c),
            tracks_view(r@).to_multiset() == s.take(i as int).to_multiset(),
        decreases src.len() - i,
    {
        let mut p: usize = 0;
        while p < r.len()
            invariant
                c == track_order(),
                i < src.len(),
                p <= r.len(),
                forall|k: int| 0 <= k < p ==> #[trigger] c(src@[i as int]@, tracks_view(r@)[k]) >= 0,
            ensures
                p <= r.len(),
                forall|k: int| 0 <= k < p ==> #[trigger] c(src@[i as int]@, tracks_view(r@)[k]) >= 0,
                p < r.len() ==> c(src@[i as int]@, tracks_view(r@)[p as int]) < 0,
            decreases r.len() - p,
        {
            if compare_track_exec(&src[i], &r[p]) < 0 {
                break;
            }
            p = p + 1;
        }
        let ghost before = tracks_view(r@);
        proof {
            lemma_insert_sorted(before, src@[i as int]@, p as int, c);
        }
        r.insert(p, src[i].clone());
        assert(tracks_view(r@) =~= before.insert(p as int, src@[i as int]@));
        assert(s.take(i + 1) =~= s.take(i as int).push(s[i as int]));
        i = i + 1;
    }
    assert(s.take(src.len() as int) =~= s);
    *v = r;
}

/// Sorts albums into the order of `compare_album`.
pub fn sort_albums(v: &mut Vec<Album>)
    ensures
        sorted_with(albums_view(final(v)@), album_order()),
        albums_view(final(v)@).to_multiset() == albums_view(old(v)@).to_multiset(),
{
    proof {
        lemma_album_order();
    }
    let ghost c = album_order();
    let ghost s = albums_view(v@);
    let mut src: Vec<Album> = Vec::new();
    std::mem::swap(&mut src, v);
    let mut r: Vec<Album> = Vec::new();
    let mut i: usize = 0;
    while i < src.len()
        invariant
            c == album_order(),
            is_order(c),
            s == albums_view(src@),
            i <= src.len(),
            sorted_with(albums_view(r@), c),
            albums_view(r@).to_multiset() == s.take(i as int).to_multiset(),
        decreases src.len() - i,
    {
        let mut p: usize = 0;
        while p < r.len()
            invariant
                c == album_order(),
                i < src.len(),
                p <= r.len(),
                forall|k: int| 0 <= k < p ==> #[trigger] c(src@[i as int]@, albums_view(r@)[k]) >= 0,
            ensures
                p <= r.len(),
                forall|k: int| 0 <= k < p ==> #[trigger] c(src@[i as int]@, albums_view(r@)[k]) >= 0,
                p < r.len() ==> c(src@[i as int]@, albums_view(r@)[p as int]) < 0,
            decreases r.len() - p,
        {
            if compare_album_exec(&src[i], &r[p]) < 0 {
                break;
            }
            p = p + 1;
        }
        let ghost before = albums_view(r@);
        proof {
            lemma_insert_sorted(before, src@[i as int]@, p as int, c);
        }
        r.insert(p, src[i].clone());
        assert(albums_view(r@) =~= before.insert(p as int, src@[i as int]@));
        assert(s.take(i + 1) =~= s.take(i as int).push(s[i as int]));
        i = i + 1;
    }
    assert(s.take(src.len() as int) =~= s);
    *v = r;
}

/// The `k`-th statistic.
fn pick_stat(stats: (u64, u64, u64), k: u8) -> (r: u64)
    ensures
        r == stat_of(stats, k as int),
{
    if k == 0 {
        stats.0
    } else if k == 1 {
        stats.1
    } else {
        stats.2
    }
}

/// Sorts tracks by their `k`-th statistic, largest first, keeping the
/// given order among equal values (a stable sort).
pub fn sort_tracks_by_stat_desc(v: &mut Vec<TrackDetails>, k: u8)
    ensures
        sorted_desc(tracks_view(final(v)@), track_stat(k as int)),
        same_key_classes(tracks_view(final(v)@), tracks_view(old(v)@), track_stat(k as int)),
{
    let ghost key = track_stat(k as int);
    let ghost s = tracks_view(v@);
    let mut src: Vec<TrackDetails> = Vec::new();
    std::mem::swap(&mut src, v);
    let mut r: Vec<TrackDetails> = Vec::new();
    let mut i: usize = 0;
    assert(s.take(0) =~= tracks_view(r@));
    while i < src.len()
        invariant
            key == track_stat(k as int),
            s == tracks_view(src@),
            i <= src.len(),
            sorted_desc(tracks_view(r@), key),
            same_key_classes(tracks_view(r@), s.take(i as int), key),
        decreases src.len() - i,
    {
        let x = pick_stat(src[i].stats, k);
        let mut p: usize = 0;
        while p < r.len()
            invariant
                key == track_stat(k as int),
                i < src.len(),
                x == key(s[i as int]),
                s == tracks_view(src@),
                p <= r.len(),
                forall|j: int| 0 <= j < p ==> #[trigger] key(tracks_view(r@)[j]) >= x,
            ensures
                p <= r.len(),
                forall|j: int| 0 <= j < p ==> #[trigger] key(tracks_view(r@)[j]) >= x,
                p < r.len() ==> key(tracks_view(r@)[p as int]) < x,
            decreases r.len() - p,
        {
            if pick_stat(r[p].stats, k) < x {
                break;
            }
            p = p + 1;
        }
        let ghost before = tracks_view(r@);
        proof {
            lemma_insert_stable(before, s[i as int], p as int, key);
        }
        r.insert(p, src[i].clone());
        assert(tracks_view(r@) =~= before.insert(p as int, s[i as int]));
        assert(s.take(i + 1) =~= s.take(i as int).push(s[i as int]));
        assert forall|w: u64| #[trigger] tracks_view(r@).filter(key_class(key, w)) == s.take(i + 1).filter(key_class(key, w)) by {
            s.take(i as int).lemma_filter_push(s[i as int], key_class(key, w));
        }
        i = i + 1;
    }
    assert(s.take(src.len() as int) =~= s);
    *v = r;
}

/// Sorts albums by their `k`-th statistic, largest first, keeping the
/// given order among equal values (a stable sort).
pub fn sort_albums_by_stat_desc(v: &mut Vec<Album>, k: u8)
    ensures
        sorted_desc(albums_view(final(v)@), album_stat(k as int)),
        same_key_classes(albums_view(final(v)@), albums_view(old(v)@), album_stat(k as int)),
{
    let ghost key = album_stat(k as int);
    let ghost s = albums_view(v@);
    let mut src: Vec<Album> = Vec::new();
    std::mem::swap(&mut src, v);
    let mut r: Vec<Album> = Vec::new();
    let mut i: usize = 0;
    assert(s.take(0) =~= albums_view(r@));
    while i < src.len()
        invariant
            key == album_stat(k as int),
            s == albums_view(src@),
            i <= src.len(),
            sorted_desc(albums_view(r@), key),
            same_key_classes(albums_view(r@), s.take(i as int), key),
        decreases src.len() - i,
    {
        let x = pick_stat(src[i].stats, k);
        let mut p: usize = 0;
        while p < r.len()
            invariant
                key == album_stat(k as int),
                i < src.len(),
                x == key(s[i as int]),
                s == albums_view(src@),
                p <= r.len(),
                forall|j: int| 0 <= j < p ==> #[trigger] key(albums_view(r@)[j]) >= x,
            ensures
                p <= r.len(),
                forall|j: int| 0 <= j < p ==> #[trigger] key(albums_view(r@)[j]) >= x,
                p < r.len() ==> key(albums_view(r@)[p as int]) < x,
            decreases r.len() - p,
        {
            if pick_stat(r[p].stats, k) < x {
                break;
            }
            p = p + 1;
        }
        let ghost before = albums_view(r@);
        proof {
            lemma_insert_stable(before, s[i as int], p as int, key);
        }
        r.insert(p, src[i].clone());
        assert(albums_view(r@) =~= before.insert(p as int, s[i as int]));
        assert(s.take(i + 1) =~= s.take(i as int).push(s[i as int]));
        assert forall|w: u64| #[trigger] albums_view(r@).filter(key_class(key, w)) == s.take(i + 1).filter(key_class(key, w)) by {
            s.take(i as int).lemma_filter_push(s[i as int], key_class(key, w));
        }
        i = i + 1;
    }
    assert(s.take(src.len() as int) =~= s);
    *v = r;
}

} // verus!
