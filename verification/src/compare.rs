use vstd::prelude::*;
use crate::order::{lex_compare, char_order, tag_order, track_order, compare_text, compare_int, compare_tag,
    compare_track, compare_album};
use crate::text::chars_of;
use crate::track::{TrackDetails, Album, tags_view, tracks_view};

verus! {

proof fn lemma_lex_step<T>(a: Seq<T>, b: Seq<T>, c: spec_fn(T, T) -> int, i: int)
    requires
        0 <= i < a.len(),
        i < b.len(),
        c(a[i], b[i]) == 0,
    ensures
        lex_compare(a.skip(i), b.skip(i), c) == lex_compare(a.skip(i + 1), b.skip(i + 1), c),
{
    assert(a.skip(i).drop_first() =~= a.skip(i + 1));
    assert(b.skip(i).drop_first() =~= b.skip(i + 1));
    assert(a.skip(i)[0] == a[i]);
    assert(b.skip(i)[0] == b[i]);
}

proof fn lemma_lex_at<T>(a: Seq<T>, b: Seq<T>, c: spec_fn(T, T) -> int, i: int)
    requires
        0 <= i <= a.len(),
        i <= b.len(),
    ensures
        i == a.len() && i == b.len() ==> lex_compare(a.skip(i), b.skip(i), c) == 0,
        i == a.len() && i < b.len() ==> lex_compare(a.skip(i), b.skip(i), c) == -1,
        i < a.len() && i == b.len() ==> lex_compare(a.skip(i), b.skip(i), c) == 1,
        i < a.len() && i < b.len() && c(a[i], b[i]) != 0 ==> lex_compare(a.skip(i), b.skip(i), c) == c(a[i], b[i]),
{
    if i < a.len() {
        assert(a.skip(i)[0] == a[i]);
    }
    if i < b.len() {
        assert(b.skip(i)[0] == b[i]);
    }
}

/// Compares two character sequences lexicographically by code point.
fn compare_chars(x: &Vec<char>, y: &Vec<char>) -> (r: i8)
    ensures
        r == lex_compare(x@, y@, char_order()),
{
    let ghost c = char_order();
    let mut i: usize = 0;
    assert(x@.skip(0) =~= x@ && y@.skip(0) =~= y@);
    loop
        invariant
            c == char_order(),
            i <= x.len(),
            i <= y.len(),
            lex_compare(x@, y@, c) == lex_compare(x@.skip(i as int), y@.skip(i as int), c),
        decreases x.len() - i,
    {
        proof {
            lemma_lex_at(x@, y@, c, i as int);
        }
        if i == x.len() {
            return if i == y.len() { 0 } else { -1 };
        }
        if i == y.len() {
            return 1;
        }
        let p = x[i] as u32;
        let q = y[i] as u32;
        assert(c(x@[i as int], y@[i as int]) == compare_int(p as int, q as int));
        if p < q {
            return -1;
        }
        if p > q {
            return 1;
        }
        proof {
            vstd::utf8::char_u32_cast(x@[i as int], p);
            vstd::utf8::char_u32_cast(y@[i as int], q);
            assert(x@[i as int] == y@[i as int]);
            lemma_lex_step(x@, y@, c, i as int);
        }
        i = i + 1;
    }
}

/// Compares two texts by code point, as `str`'s order does.
pub fn compare_text_exec(a: &str, b: &str) -> (r: i8)
    ensures
        r == compare_text(a@, b@),
{
    let x = chars_of(a);
    let y = chars_of(b);
    compare_chars(&x, &y)
}

/// Compares two counters.
fn compare_u64(a: u64, b: u64) -> (r: i8)
    ensures
        r == compare_int(a as int, b as int),
{
    if a < b { -1 } else if a == b { 0 } else { 1 }
}

/// Compares two label lists lexicographically.
fn compare_tags_exec(x: &Vec<(String, u64)>, y: &Vec<(String, u64)>) -> (r: i8)
    ensures
        r == lex_compare(tags_view(x@), tags_view(y@), tag_order()),
{
    let ghost c = tag_order();
    let ghost a = tags_view(x@);
    let ghost b = tags_view(y@);
    let mut i: usize = 0;
    assert(a.skip(0) =~= a && b.skip(0) =~= b);
    loop
        invariant
            c == tag_order(),
            a == tags_view(x@),
            b == tags_view(y@),
            i <= x.len(),
            i <= y.len(),
            lex_compare(a, b, c) == lex_compare(a.skip(i as int), b.skip(i as int), c),
        decreases x.len() - i,
    {
        proof {
            lemma_lex_at(a, b, c, i as int);
        }
        if i == x.len() {
            return if i == y.len() { 0 } else { -1 };
        }
        if i == y.len() {
            return 1;
        }
        let t = compare_text_exec(x[i].0.as_str(), y[i].0.as_str());
        let v = if t != 0 { t } else { compare_u64(x[i].1, y[i].1) };
        assert(v == compare_tag(a[i as int], b[i as int]));
        if v != 0 {
            return v;
        }
        proof {
            lemma_lex_step(a, b, c, i as int);
        }
        i = i + 1;
    }
}

/// Compares two tracks field by field in declaration order.
pub fn compare_track_exec(x: &TrackDetails, y: &TrackDetails) -> (r: i8)
    ensures
        r == compare_track(x@, y@),
{
    let c = compare_text_exec(x.artist.as_str(), y.artist.as_str());
    if c != 0 { return c; }
    let c = compare_text_exec(x.album.as_str(), y.album.as_str());
    if c != 0 { return c; }
    let c = if x.track_no < y.track_no { -1 } else if x.track_no == y.track_no { 0 } else { 1 };
    if c != 0 { return c; }
    let c = compare_text_exec(x.title.as_str(), y.title.as_str());
    if c != 0 { return c; }
    let c = compare_text_exec(x.date.as_str(), y.date.as_str());
    if c != 0 { return c; }
    let c = compare_text_exec(x.song_path.as_str(), y.song_path.as_str());
    if c != 0 { return c; }
    let c = compare_u64(x.duration, y.duration);
    if c != 0 { return c; }
    let c = compare_u64(x.stats.0, y.stats.0);
    if c != 0 { return c; }
    let c = compare_u64(x.stats.1, y.stats.1);
    if c != 0 { return c; }
    let c = compare_u64(x.stats.2, y.stats.2);
    if c != 0 { return c; }
    compare_tags_exec(&x.tags, &y.tags)
}

/// Compares two track lists lexicographically.
fn compare_tracks_exec(x: &Vec<TrackDetails>, y: &Vec<TrackDetails>) -> (r: i8)
    ensures
        r == lex_compare(tracks_view(x@), tracks_view(y@), track_order()),
{
    let ghost c = track_order();
    let ghost a = tracks_view(x@);
    let ghost b = tracks_view(y@);
    let mut i: usize = 0;
    assert(a.skip(0) =~= a && b.skip(0) =~= b);
    loop
        invariant
            c == track_order(),
            a == tracks_view(x@),
            b == tracks_view(y@),
            i <= x.len(),
            i <= y.len(),
            lex_compare(a, b, c) == lex_compare(a.skip(i as int), b.skip(i as int), c),
        decreases x.len() - i,
    {
        proof {
            lemma_lex_at(a, b, c, i as int);
        }
        if i == x.len() {
            return if i == y.len() { 0 } else { -1 };
        }
        if i == y.len() {
            return 1;
        }
        let v = compare_track_exec(&x[i], &y[i]);
        if v != 0 {
            return v;
        }
        proof {
            lemma_lex_step(a, b, c, i as int);
        }
        i = i + 1;
    }
}

/// Compares two albums: artist, title, selection, date, tracks, statistics.
pub fn compare_album_exec(x: &Album, y: &Album) -> (r: i8)
    ensures
        r == compare_album(x@, y@),
{
    let c = compare_text_exec(x.artist.as_str(), y.artist.as_str());
    if c != 0 { return c; }
    let c = compare_text_exec(x.album.as_str(), y.album.as_str());
    if c != 0 { return c; }
    let c = if !x.selected && y.selected { -1 } else if x.selected == y.selected { 0 } else { 1 };
    if c != 0 { return c; }
    let c = compare_text_exec(x.date.as_str(), y.date.as_str());
    if c != 0 { return c; }
    let c = compare_tracks_exec(&x.songs, &y.songs);
    if c != 0 { return c; }
    let c = compare_u64(x.stats.0, y.stats.0);
    if c != 0 { return c; }
    let c = compare_u64(x.stats.1, y.stats.1);
    if c != 0 { return c; }
    compare_u64(x.stats.2, y.stats.2)
}

} // verus!
