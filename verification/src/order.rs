use vstd::prelude::*;
use crate::track::{TrackView, AlbumView};

verus! {

/// Three-way comparison of two integers: -1, 0 or 1.
pub open spec fn compare_int(a: int, b: int) -> int {
    if a < b {
        -1
    } else if a == b {
        0
    } else {
        1
    }
}

/// The first decisive comparison of two.
pub open spec fn then(first: int, second: int) -> int {
    if first != 0 { first } else { second }
}

/// `c` is a total order given as a three-way comparison: it answers -1, 0 or 1,
/// swapping the arguments negates it, it is 0 exactly on equal values, and
/// "at most" is transitive.
pub open spec fn is_order<T>(c: spec_fn(T, T) -> int) -> bool {
    &&& forall|x: T, y: T| #![trigger c(x, y)] -1 <= c(x, y) <= 1 && c(x, y) == -c(y, x)
    &&& forall|x: T, y: T| #![trigger c(x, y)] c(x, y) == 0 <==> x == y
    &&& forall|x: T, y: T, z: T| #![trigger c(x, y), c(y, z)] c(x, y) <= 0 && c(y, z) <= 0 ==> c(x, z) <= 0
}

/// Lexicographic comparison of two sequences under an element comparison:
/// the first differing element decides, and a proper prefix comes first.
pub open spec fn lex_compare<T>(a: Seq<T>, b: Seq<T>, c: spec_fn(T, T) -> int) -> int
    decreases a.len(),
{
    if a.len() == 0 {
        if b.len() == 0 { 0 } else { -1 }
    } else if b.len() == 0 {
        1
    } else if c(a[0], b[0]) != 0 {
        c(a[0], b[0])
    } else {
        lex_compare(a.drop_first(), b.drop_first(), c)
    }
}

/// Lexicographic comparison as a comparison function.
pub open spec fn lex_order<T>(c: spec_fn(T, T) -> int) -> spec_fn(Seq<T>, Seq<T>) -> int {
    |a: Seq<T>, b: Seq<T>| lex_compare(a, b, c)
}

/// Characters compare by code point; this is the order of `str` too, as
/// UTF-8 keeps the code point order in its bytes.
pub open spec fn char_order() -> spec_fn(char, char) -> int {
    |a: char, b: char| compare_int((a as u32) as int, (b as u32) as int)
}

/// Text order: lexicographic by code point.
pub open spec fn compare_text(a: Seq<char>, b: Seq<char>) -> int {
    lex_compare(a, b, char_order())
}

/// Order of a playlist label with its time: label first, then time.
pub open spec fn compare_tag(a: (Seq<char>, u64), b: (Seq<char>, u64)) -> int {
    then(compare_text(a.0, b.0), compare_int(a.1 as int, b.1 as int))
}

/// Labels compare by text, then by time.
pub open spec fn tag_order() -> spec_fn((Seq<char>, u64), (Seq<char>, u64)) -> int {
    |a: (Seq<char>, u64), b: (Seq<char>, u64)| compare_tag(a, b)
}

/// Order of tracks: field by field in declaration order (artist, album,
/// track number, title, date, path, duration, the three statistics, labels).
pub open spec fn compare_track(x: TrackView, y: TrackView) -> int {
    then(compare_text(x.artist, y.artist),
    then(compare_text(x.album, y.album),
    then(compare_int(x.track_no as int, y.track_no as int),
    then(compare_text(x.title, y.title),
    then(compare_text(x.date, y.date),
    then(compare_text(x.song_path, y.song_path),
    then(compare_int(x.duration as int, y.duration as int),
    then(compare_int(x.stats.0 as int, y.stats.0 as int),
    then(compare_int(x.stats.1 as int, y.stats.1 as int),
    then(compare_int(x.stats.2 as int, y.stats.2 as int),
    lex_compare(x.tags, y.tags, tag_order())))))))))))
}

/// Tracks compare field by field: artist, album, track number, title, date,
/// path, duration, statistics, labels.
pub open spec fn track_order() -> spec_fn(TrackView, TrackView) -> int {
    |x: TrackView, y: TrackView| compare_track(x, y)
}

/// `false` before `true`.
pub open spec fn compare_bool(a: bool, b: bool) -> int {
    compare_int(if a { 1 } else { 0 }, if b { 1 } else { 0 })
}

/// Order of albums: artist, title, selection, date, tracks (lexicographic),
/// then the three statistics.
pub open spec fn compare_album(x: AlbumView, y: AlbumView) -> int {
    then(compare_text(x.artist, y.artist),
    then(compare_text(x.album, y.album),
    then(compare_bool(x.selected, y.selected),
    then(compare_text(x.date, y.date),
    then(lex_compare(x.songs, y.songs, track_order()),
    then(compare_int(x.stats.0 as int, y.stats.0 as int),
    then(compare_int(x.stats.1 as int, y.stats.1 as int),
    compare_int(x.stats.2 as int, y.stats.2 as int))))))))
}

/// Albums compare field by field: artist, title, selection, date, tracks,
/// statistics.
pub open spec fn album_order() -> spec_fn(AlbumView, AlbumView) -> int {
    |x: AlbumView, y: AlbumView| compare_album(x, y)
}

/// The facts about one component of a chained comparison at three points.
pub open spec fn component_laws(p: int, q: int, r: int, p_rev: int, eq_xy: bool, eq_yz: bool, eq_xz: bool) -> bool {
    &&& -1 <= p <= 1 && -1 <= q <= 1 && -1 <= r <= 1
    &&& (p == 0 <==> eq_xy)
    &&& (q == 0 <==> eq_yz)
    &&& (r == 0 <==> eq_xz)
    &&& (eq_xy && eq_yz ==> eq_xz)
    &&& (eq_xy ==> r == q)
    &&& (eq_yz ==> r == p)
    &&& (p <= 0 && q <= 0 ==> r <= 0)
    &&& (p < 0 && q < 0 ==> r < 0)
    &&& p == -p_rev
}

proof fn lemma_lex_antisym<T>(a: Seq<T>, b: Seq<T>, c: spec_fn(T, T) -> int)
    requires
        is_order(c),
    ensures
        -1 <= lex_compare(a, b, c) <= 1,
        lex_compare(a, b, c) == -lex_compare(b, a, c),
    decreases a.len(),
{
    if a.len() > 0 && b.len() > 0 {
        assert(c(a[0], b[0]) == -c(b[0], a[0]));
        lemma_lex_antisym(a.drop_first(), b.drop_first(), c);
    }
}

proof fn lemma_lex_eq<T>(a: Seq<T>, b: Seq<T>, c: spec_fn(T, T) -> int)
    requires
        is_order(c),
    ensures
        lex_compare(a, b, c) == 0 <==> a == b,
    decreases a.len(),
{
    if a.len() == 0 && b.len() == 0 {
        assert(a =~= b);
    }
    if a.len() > 0 && b.len() > 0 {
        assert(c(a[0], b[0]) == 0 <==> a[0] == b[0]);
        lemma_lex_eq(a.drop_first(), b.drop_first(), c);
        if a[0] == b[0] && a.drop_first() == b.drop_first() {
            assert(a =~= b) by {
                assert forall|i: int| 0 <= i < a.len() implies a[i] == b[i] by {
                    if i > 0 {
                        assert(a[i] == a.drop_first()[i - 1]);
                        assert(b[i] == b.drop_first()[i - 1]);
                    }
                }
            }
        }
        if a == b {
            assert(a.drop_first() =~= b.drop_first());
        }
    }
}

proof fn lemma_lex_trans<T>(a: Seq<T>, b: Seq<T>, d: Seq<T>, c: spec_fn(T, T) -> int)
    requires
        is_order(c),
        lex_compare(a, b, c) <= 0,
        lex_compare(b, d, c) <= 0,
    ensures
        lex_compare(a, d, c) <= 0,
    decreases a.len(),
{
    if a.len() > 0 && b.len() > 0 && d.len() > 0 {
        let p = c(a[0], b[0]);
        let q = c(b[0], d[0]);
        assert(c(a[0], b[0]) <= 0 && c(b[0], d[0]) <= 0 ==> c(a[0], d[0]) <= 0);
        assert(p == 0 <==> a[0] == b[0]);
        assert(q == 0 <==> b[0] == d[0]);
        assert(c(a[0], d[0]) == 0 <==> a[0] == d[0]);
        assert(c(a[0], d[0]) == -c(d[0], a[0]));
        assert(c(b[0], a[0]) == -c(a[0], b[0]));
        if p == 0 && q == 0 {
            lemma_lex_trans(a.drop_first(), b.drop_first(), d.drop_first(), c);
        } else if p < 0 && q < 0 {
            if a[0] == d[0] {
                assert(c(b[0], a[0]) <= 0);
            }
        }
    }
}

/// Lexicographic comparison under a total order is a total order.
pub proof fn lemma_lex_is_order<T>(c: spec_fn(T, T) -> int)
    requires
        is_order(c),
    ensures
        is_order(lex_order(c)),
{
    let l = lex_order(c);
    assert forall|x: Seq<T>, y: Seq<T>| #![trigger l(x, y)] -1 <= l(x, y) <= 1 && l(x, y) == -l(y, x) by {
        lemma_lex_antisym(x, y, c);
    }
    assert forall|x: Seq<T>, y: Seq<T>| #![trigger l(x, y)] l(x, y) == 0 <==> x == y by {
        lemma_lex_eq(x, y, c);
    }
    assert forall|x: Seq<T>, y: Seq<T>, z: Seq<T>| #![trigger l(x, y), l(y, z)] l(x, y) <= 0 && l(y, z) <= 0 implies l(x, z) <= 0 by {
        lemma_lex_trans(x, y, z, c);
    }
}

/// Characters are totally ordered.
pub proof fn lemma_char_order()
    ensures
        is_order(char_order()),
{
    let c = char_order();
    assert forall|x: char, y: char| #![trigger c(x, y)] c(x, y) == 0 <==> x == y by {
        if (x as u32) as int == (y as u32) as int {
            vstd::utf8::char_u32_cast(x, x as u32);
            vstd::utf8::char_u32_cast(y, y as u32);
        }
    }
}

/// Text comparison is antisymmetric, exact on equal texts and transitive.
pub proof fn lemma_text_laws(a: Seq<char>, b: Seq<char>, d: Seq<char>)
    ensures
        component_laws(compare_text(a, b), compare_text(b, d), compare_text(a, d), compare_text(b, a), a == b, b == d, a == d),
{
    lemma_char_order();
    lemma_lex_antisym(a, b, char_order());
    lemma_lex_antisym(b, d, char_order());
    lemma_lex_antisym(a, d, char_order());
    lemma_lex_antisym(b, a, char_order());
    lemma_lex_antisym(d, b, char_order());
    lemma_lex_eq(a, b, char_order());
    lemma_lex_eq(b, d, char_order());
    lemma_lex_eq(a, d, char_order());
    if compare_text(a, b) <= 0 && compare_text(b, d) <= 0 {
        lemma_lex_trans(a, b, d, char_order());
    }
}

/// Integer comparison is antisymmetric, exact on equal integers and transitive.
pub proof fn lemma_int_laws(a: int, b: int, d: int)
    ensures
        component_laws(compare_int(a, b), compare_int(b, d), compare_int(a, d), compare_int(b, a), a == b, b == d, a == d),
{
}

/// Labels are totally ordered.
pub proof fn lemma_tag_order()
    ensures
        is_order(tag_order()),
{
    let c = tag_order();
    assert forall|x: (Seq<char>, u64), y: (Seq<char>, u64)| #![trigger c(x, y)] -1 <= c(x, y) <= 1 && c(x, y) == -c(y, x) by {
        lemma_text_laws(x.0, y.0, y.0);
        lemma_text_laws(y.0, x.0, x.0);
    }
    assert forall|x: (Seq<char>, u64), y: (Seq<char>, u64)| #![trigger c(x, y)] c(x, y) == 0 <==> x == y by {
        lemma_text_laws(x.0, y.0, y.0);
    }
    assert forall|x: (Seq<char>, u64), y: (Seq<char>, u64), z: (Seq<char>, u64)| #![trigger c(x, y), c(y, z)] c(x, y) <= 0 && c(y, z) <= 0 implies c(x, z) <= 0 by {
        lemma_text_laws(x.0, y.0, z.0);
    }
}

/// Label-list comparison is antisymmetric, exact and transitive.
pub proof fn lemma_tags_laws(a: Seq<(Seq<char>, u64)>, b: Seq<(Seq<char>, u64)>, d: Seq<(Seq<char>, u64)>)
    ensures
        component_laws(lex_compare(a, b, tag_order()), lex_compare(b, d, tag_order()), lex_compare(a, d, tag_order()), lex_compare(b, a, tag_order()), a == b, b == d, a == d),
{
    lemma_tag_order();
    lemma_lex_is_order(tag_order());
    let l = lex_order(tag_order());
    assert(l(a, b) == lex_compare(a, b, tag_order()));
    assert(l(b, d) == lex_compare(b, d, tag_order()));
    assert(l(a, d) == lex_compare(a, d, tag_order()));
    assert(l(b, a) == -l(a, b));
    assert(l(d, b) == -l(b, d));
}

/// Tracks are totally ordered.
pub proof fn lemma_track_order()
    ensures
        is_order(track_order()),
{
    let c = track_order();
    assert forall|x: TrackView, y: TrackView, z: TrackView| #![trigger c(x, y), c(y, z)] c(x, y) <= 0 && c(y, z) <= 0 implies c(x, z) <= 0 by {
        lemma_text_laws(x.artist, y.artist, z.artist);
        lemma_text_laws(x.album, y.album, z.album);
        lemma_int_laws(x.track_no as int, y.track_no as int, z.track_no as int);
        lemma_text_laws(x.title, y.title, z.title);
        lemma_text_laws(x.date, y.date, z.date);
        lemma_text_laws(x.song_path, y.song_path, z.song_path);
        lemma_int_laws(x.duration as int, y.duration as int, z.duration as int);
        lemma_int_laws(x.stats.0 as int, y.stats.0 as int, z.stats.0 as int);
        lemma_int_laws(x.stats.1 as int, y.stats.1 as int, z.stats.1 as int);
        lemma_int_laws(x.stats.2 as int, y.stats.2 as int, z.stats.2 as int);
        lemma_tags_laws(x.tags, y.tags, z.tags);
    }
    assert forall|x: TrackView, y: TrackView| #![trigger c(x, y)] -1 <= c(x, y) <= 1 && c(x, y) == -c(y, x) && (c(x, y) == 0 <==> x == y) by {
        lemma_text_laws(x.artist, y.artist, x.artist);
        lemma_text_laws(x.album, y.album, x.album);
        lemma_int_laws(x.track_no as int, y.track_no as int, x.track_no as int);
        lemma_text_laws(x.title, y.title, x.title);
        lemma_text_laws(x.date, y.date, x.date);
        lemma_text_laws(x.song_path, y.song_path, x.song_path);
        lemma_int_laws(x.duration as int, y.duration as int, x.duration as int);
        lemma_int_laws(x.stats.0 as int, y.stats.0 as int, x.stats.0 as int);
        lemma_int_laws(x.stats.1 as int, y.stats.1 as int, x.stats.1 as int);
        lemma_int_laws(x.stats.2 as int, y.stats.2 as int, x.stats.2 as int);
        lemma_tags_laws(x.tags, y.tags, x.tags);
    }
}

/// Track-list comparison is antisymmetric, exact and transitive.
pub proof fn lemma_tracks_laws(a: Seq<TrackView>, b: Seq<TrackView>, d: Seq<TrackView>)
    ensures
        component_laws(lex_compare(a, b, track_order()), lex_compare(b, d, track_order()), lex_compare(a, d, track_order()), lex_compare(b, a, track_order()), a == b, b == d, a == d),
{
    lemma_track_order();
    lemma_lex_is_order(track_order());
    let l = lex_order(track_order());
    assert(l(a, b) == lex_compare(a, b, track_order()));
    assert(l(b, d) == lex_compare(b, d, track_order()));
    assert(l(a, d) == lex_compare(a, d, track_order()));
    assert(l(b, a) == -l(a, b));
    assert(l(d, b) == -l(b, d));
}

/// Albums are totally ordered.
pub proof fn lemma_album_order()
    ensures
        is_order(album_order()),
{
    let c = album_order();
    assert forall|x: AlbumView, y: AlbumView, z: AlbumView| #![trigger c(x, y), c(y, z)] c(x, y) <= 0 && c(y, z) <= 0 implies c(x, z) <= 0 by {
        lemma_text_laws(x.artist, y.artist, z.artist);
        lemma_text_laws(x.album, y.album, z.album);
        lemma_int_laws(if x.selected { 1 } else { 0 }, if y.selected { 1 } else { 0 }, if z.selected { 1 } else { 0 });
        lemma_text_laws(x.date, y.date, z.date);
        lemma_tracks_laws(x.songs, y.songs, z.songs);
        lemma_int_laws(x.stats.0 as int, y.stats.0 as int, z.stats.0 as int);
        lemma_int_laws(x.stats.1 as int, y.stats.1 as int, z.stats.1 as int);
        lemma_int_laws(x.stats.2 as int, y.stats.2 as int, z.stats.2 as int);
    }
    assert forall|x: AlbumView, y: AlbumView| #![trigger c(x, y)] -1 <= c(x, y) <= 1 && c(x, y) == -c(y, x) && (c(x, y) == 0 <==> x == y) by {
        lemma_text_laws(x.artist, y.artist, x.artist);
        lemma_text_laws(x.album, y.album, x.album);
        lemma_int_laws(if x.selected { 1 } else { 0 }, if y.selected { 1 } else { 0 }, if x.selected { 1 } else { 0 });
        lemma_text_laws(x.date, y.date, x.date);
        lemma_tracks_laws(x.songs, y.songs, x.songs);
        lemma_int_laws(x.stats.0 as int, y.stats.0 as int, x.stats.0 as int);
        lemma_int_laws(x.stats.1 as int, y.stats.1 as int, x.stats.1 as int);
        lemma_int_laws(x.stats.2 as int, y.stats.2 as int, x.stats.2 as int);
    }
}

} // verus!
