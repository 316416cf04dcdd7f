use vstd::prelude::*;
use crate::track::{TrackDetails, TrackView, Album, AlbumView, tracks_view, albums_view, tags_view};

verus! {

/// The cursor after moving down a list of `len` items: one further, but
/// never past the last index; an empty list keeps it at 0.
pub open spec fn clamp_up(cursor: usize, len: int) -> usize {
    if len == 0 { 0 } else if cursor + 1 < len { (cursor + 1) as usize } else { (len - 1) as usize }
}

/// The cursor after moving up a list: one back, never below 0.
pub open spec fn clamp_down(cursor: usize) -> usize {
    if cursor == 0 { 0 } else { (cursor - 1) as usize }
}

/// The index after `current` in a queue of `len` items; none at its end.
pub open spec fn next_of(current: usize, len: usize) -> Option<usize> {
    if current + 1 < len { Some((current + 1) as usize) } else { None }
}

/// The index before `current`; none at the start.
pub open spec fn prev_of(current: usize) -> Option<usize> {
    if current == 0 { None } else { Some((current - 1) as usize) }
}

/// The cursor after moving down a list of `len` items (see `clamp_up`).
pub fn clamp_cursor_increment(cursor: usize, len: usize) -> (r: usize)
    requires
        len > 0 ==> cursor + 1 <= usize::MAX,
    ensures
        r == clamp_up(cursor, len as int),
{
    if len == 0 {
        return 0;
    }
    if len - 1 < cursor + 1 { len - 1 } else { cursor + 1 }
}

/// The cursor after moving up a list (see `clamp_down`).
pub fn clamp_cursor_decrement(cursor: usize) -> (r: usize)
    ensures
        r == clamp_down(cursor),
{
    if cursor == 0 { 0 } else { cursor - 1 }
}

/// The next index of a queue of `len` items, or `None` at (or past) its end.
pub fn next_index(current: usize, len: usize) -> (r: Option<usize>)
    ensures
        r == next_of(current, len),
{
    if len == 0 || current >= len - 1 {
        return None;
    }
    Some(current + 1)
}

/// The previous index, or `None` at index 0.
pub fn prev_index(current: usize) -> (r: Option<usize>)
    ensures
        r == prev_of(current),
{
    if current == 0 {
        None
    } else {
        Some(current - 1)
    }
}

/// How often `c` occurs in `s`.
pub open spec fn count_char(s: Seq<char>, c: char) -> nat
    decreases s.len(),
{
    if s.len() == 0 {
        0
    } else {
        count_char(s.drop_last(), c) + if s.last() == c { 1nat } else { 0nat }
    }
}

/// A character that never occurs is not contained.
pub proof fn lemma_count_char_zero(s: Seq<char>, c: char)
    requires
        count_char(s, c) == 0,
    ensures
        !s.contains(c),
    decreases s.len(),
{
    if s.len() > 0 {
        lemma_count_char_zero(s.drop_last(), c);
        assert forall|i: int| 0 <= i < s.len() implies s[i] != c by {
            if i < s.len() - 1 {
                assert(s[i] == s.drop_last()[i]);
            }
        }
    }
}

/// A character not contained occurs zero times.
pub proof fn lemma_count_char_absent(s: Seq<char>, c: char)
    requires
        !s.contains(c),
    ensures
        count_char(s, c) == 0,
    decreases s.len(),
{
    if s.len() > 0 {
        assert(!s.drop_last().contains(c)) by {
            if s.drop_last().contains(c) {
                let i = choose|i: int| 0 <= i < s.drop_last().len() && #[trigger] s.drop_last()[i] == c;
                assert(s[i] == c);
            }
        }
        lemma_count_char_absent(s.drop_last(), c);
        assert(s[s.len() - 1] != c);
    }
}

/// Occurrences in two texts joined add up.
pub proof fn lemma_count_char_concat(a: Seq<char>, b: Seq<char>, c: char)
    ensures
        count_char(a + b, c) == count_char(a, c) + count_char(b, c),
    decreases b.len(),
{
    if b.len() == 0 {
        assert(a + b =~= a);
    } else {
        assert((a + b).drop_last() =~= a + b.drop_last());
        lemma_count_char_concat(a, b.drop_last(), c);
    }
}

/// Splits a command line "<cmd> <arg>" at its single space. `None` unless
/// the line holds exactly one space (so exactly two space-separated parts,
/// either of which may be empty).
pub fn parse_command_args(input: &str) -> (r: Option<(&str, &str)>)
    ensures
        r is Some <==> count_char(input@, ' ') == 1,
        r matches Some((cmd, arg)) ==> {
            &&& input@ == cmd@ + seq![' '] + arg@
            &&& !cmd@.contains(' ')
            &&& !arg@.contains(' ')
        },
{
    let n = input.unicode_len();
    let mut spaces: usize = 0;
    let mut first: usize = 0;
    let mut i: usize = 0;
    while i < n
        invariant
            n == input@.len(),
            i <= n,
            spaces == count_char(input@.take(i as int), ' '),
            spaces == 0 ==> !input@.take(i as int).contains(' '),
            spaces >= 1 ==> first < i && input@[first as int] == ' '
                && !input@.take(first as int).contains(' '),
            spaces <= i,
        decreases n - i,
    {
        let c = input.get_char(i);
        assert(input@.take(i + 1).drop_last() =~= input@.take(i as int));
        if c == ' ' {
            if spaces == 0 {
                first = i;
                assert(input@.take(first as int) =~= input@.take(i as int));
            }
            spaces = spaces + 1;
        } else {
            if spaces == 0 {
                assert(!input@.take(i + 1).contains(' ')) by {
                    if input@.take(i + 1).contains(' ') {
                        let k = choose|k: int| 0 <= k < i + 1 && #[trigger] input@.take(i + 1)[k] == ' ';
                        if k < i {
                            assert(input@.take(i as int)[k] == ' ');
                        }
                    }
                }
            }
        }
        i = i + 1;
    }
    assert(input@.take(n as int) =~= input@);
    if spaces != 1 {
        return None;
    }
    let cmd = input.substring_char(0, first);
    let arg = input.substring_char(first + 1, n);
    proof {
        assert(input@ =~= cmd@ + seq![' '] + arg@);
        assert(cmd@ =~= input@.take(first as int));
        lemma_count_char_absent(cmd@, ' ');
        lemma_count_char_concat(cmd@, seq![' '], ' ');
        lemma_count_char_concat(cmd@ + seq![' '], arg@, ' ');
        assert(count_char(seq![' '], ' ') == 1) by {
            assert(seq![' '].drop_last() =~= Seq::<char>::empty());
        }
        lemma_count_char_zero(arg@, ' ');
    }
    Some((cmd, arg))
}

/// A change made to one track in every list that holds it.
pub enum TrackUpdate {
    /// Add seconds to `duration_played`.
    AddDuration(u64),
    /// Set `last_played`.
    SetLastPlayed(u64),
    /// Remove every playlist label.
    ClearLabels,
    /// Append a playlist label with the time it was added.
    AddLabel(String, u64),
}

/// A change to one track, as a specification sees it.
pub enum TrackChange {
    AddDuration(u64),
    SetLastPlayed(u64),
    ClearLabels,
    AddLabel(Seq<char>, u64),
}

impl TrackChange {
    /// The track after the change.
    pub open spec fn apply(self, t: TrackView) -> TrackView {
        match self {
            TrackChange::AddDuration(d) => TrackView {
                stats: (t.stats.0, (t.stats.1 + d) as u64, t.stats.2),
                ..t
            },
            TrackChange::SetLastPlayed(ts) => TrackView { stats: (ts, t.stats.1, t.stats.2), ..t },
            TrackChange::ClearLabels => TrackView { tags: Seq::empty(), ..t },
            TrackChange::AddLabel(label, ts) => TrackView { tags: t.tags.push((label, ts)), ..t },
        }
    }

    /// Whether the change would overflow the track's counters.
    pub open spec fn overflows(self, t: TrackView) -> bool {
        match self {
            TrackChange::AddDuration(d) => t.stats.1 + d > u64::MAX,
            _ => false,
        }
    }
}

impl View for TrackUpdate {
    type V = TrackChange;

    open spec fn view(&self) -> TrackChange {
        match self {
            TrackUpdate::AddDuration(d) => TrackChange::AddDuration(*d),
            TrackUpdate::SetLastPlayed(ts) => TrackChange::SetLastPlayed(*ts),
            TrackUpdate::ClearLabels => TrackChange::ClearLabels,
            TrackUpdate::AddLabel(label, ts) => TrackChange::AddLabel(label@, *ts),
        }
    }
}

/// Applies a change to one track.
pub fn apply_track_update(t: &mut TrackDetails, u: &TrackUpdate)
    requires
        !u@.overflows(old(t)@),
    ensures
        final(t)@ == u@.apply(old(t)@),
{
    match u {
        TrackUpdate::AddDuration(d) => {
            t.stats = (t.stats.0, t.stats.1 + *d, t.stats.2);
        },
        TrackUpdate::SetLastPlayed(ts) => {
            t.stats = (*ts, t.stats.1, t.stats.2);
        },
        TrackUpdate::ClearLabels => {
            t.tags.clear();
            assert(tags_view(t.tags@) =~= Seq::empty());
        },
        TrackUpdate::AddLabel(label, ts) => {
            let ghost before = t.tags@;
            t.tags.push((label.clone(), *ts));
            assert(tags_view(t.tags@) =~= tags_view(before).push((label@, *ts)));
        },
    }
}

/// `i` is the first position of a track with path `p`.
pub open spec fn is_first_path(s: Seq<TrackView>, p: Seq<char>, i: int) -> bool {
    &&& 0 <= i < s.len()
    &&& s[i].song_path == p
    &&& forall|j: int| 0 <= j < i ==> s[j].song_path != p
}

/// The first position of a track with path `p`, if any.
pub open spec fn first_path(s: Seq<TrackView>, p: Seq<char>) -> Option<int> {
    if exists|i: int| is_first_path(s, p, i) {
        Some(choose|i: int| is_first_path(s, p, i))
    } else {
        None
    }
}

/// `i` is the first position of an album with this title and artist.
pub open spec fn is_first_album(s: Seq<AlbumView>, album: Seq<char>, artist: Seq<char>, i: int) -> bool {
    &&& 0 <= i < s.len()
    &&& s[i].album == album && s[i].artist == artist
    &&& forall|j: int| 0 <= j < i ==> !(s[j].album == album && s[j].artist == artist)
}

/// The first position of an album with this title and artist, if any.
pub open spec fn first_album(s: Seq<AlbumView>, album: Seq<char>, artist: Seq<char>) -> Option<int> {
    if exists|i: int| is_first_album(s, album, artist, i) {
        Some(choose|i: int| is_first_album(s, album, artist, i))
    } else {
        None
    }
}

/// Where a change to the track at path `p` lands: the first such track of
/// `songs` (at `i`) and, inside the first album `a` of that track's artist
/// and title, the first track at `p` (at `k`); `None` where one of these
/// lookups fails.
pub open spec fn update_targets(songs: Seq<TrackView>, albums: Seq<AlbumView>, p: Seq<char>) -> Option<(int, int, int)> {
    match first_path(songs, p) {
        None => None,
        Some(i) => match first_album(albums, songs[i].album, songs[i].artist) {
            None => None,
            Some(a) => match first_path(albums[a].songs, p) {
                None => None,
                Some(k) => Some((i, a, k)),
            },
        },
    }
}

/// The lists after the change: where both lookups of `update_targets`
/// succeed, its two targets are changed and everything else is kept; where
/// one fails, both lists are kept as they are.
pub open spec fn updated_lists(songs: Seq<TrackView>, albums: Seq<AlbumView>, p: Seq<char>, u: TrackChange) -> (Seq<TrackView>, Seq<AlbumView>) {
    match update_targets(songs, albums, p) {
        Some((i, a, k)) => (
            songs.update(i, u.apply(songs[i])),
            albums.update(a, AlbumView {
                songs: albums[a].songs.update(k, u.apply(albums[a].songs[k])),
                ..albums[a]
            }),
        ),
        None => (songs, albums),
    }
}

/// Whether the change would overflow a counter of one of its targets.
pub open spec fn update_overflows(songs: Seq<TrackView>, albums: Seq<AlbumView>, p: Seq<char>, u: TrackChange) -> bool {
    update_targets(songs, albums, p) matches Some((i, a, k)) && (u.overflows(songs[i]) || u.overflows(albums[a].songs[k]))
}

/// The first position of a path is the one that satisfies `is_first_path`.
pub proof fn lemma_first_path_unique(s: Seq<TrackView>, p: Seq<char>, i: int)
    requires
        is_first_path(s, p, i),
    ensures
        first_path(s, p) == Some(i),
{
    let j = choose|j: int| is_first_path(s, p, j);
    assert(is_first_path(s, p, j));
    if j < i {
        assert(s[j].song_path != p);
    } else if i < j {
        assert(s[i].song_path != p);
    }
}

/// The first position of an album is the one that satisfies `is_first_album`.
pub proof fn lemma_first_album_unique(s: Seq<AlbumView>, album: Seq<char>, artist: Seq<char>, i: int)
    requires
        is_first_album(s, album, artist, i),
    ensures
        first_album(s, album, artist) == Some(i),
{
    let j = choose|j: int| is_first_album(s, album, artist, j);
    assert(is_first_album(s, album, artist, j));
}

/// A change to a track keeps every album's title, artist and own
/// statistics, so albums are found where they were.
pub proof fn lemma_updated_albums_keep_keys(songs: Seq<TrackView>, albums: Seq<AlbumView>, p: Seq<char>, u: TrackChange)
    ensures
        updated_lists(songs, albums, p, u).1.len() == albums.len(),
        forall|j: int| 0 <= j < albums.len() ==> {
            let b = #[trigger] updated_lists(songs, albums, p, u).1[j];
            b.album == albums[j].album && b.artist == albums[j].artist && b.stats == albums[j].stats
        },
        forall|al: Seq<char>, ar: Seq<char>| #[trigger] first_album(updated_lists(songs, albums, p, u).1, al, ar)
            == first_album(albums, al, ar),
{
    let b = updated_lists(songs, albums, p, u).1;
    assert forall|al: Seq<char>, ar: Seq<char>| #[trigger] first_album(b, al, ar) == first_album(albums, al, ar) by {
        assert forall|i: int| #[trigger] is_first_album(b, al, ar, i) == is_first_album(albums, al, ar, i) by {
            if 0 <= i < albums.len() {
                assert forall|j: int| 0 <= j < i implies (b[j].album == al && b[j].artist == ar) == (albums[j].album == al && albums[j].artist == ar) by {}
            }
        }
        match first_album(albums, al, ar) {
            Some(x) => {
                assert(is_first_album(albums, al, ar, x));
                assert(is_first_album(b, al, ar, x));
                lemma_first_album_unique(b, al, ar, x);
            },
            None => {
                assert(!exists|i: int| is_first_album(b, al, ar, i)) by {
                    if exists|i: int| is_first_album(b, al, ar, i) {
                        let i = choose|i: int| is_first_album(b, al, ar, i);
                        assert(is_first_album(albums, al, ar, i));
                    }
                }
            },
        }
    }
}

/// The first position of a track with path `p`.
pub fn find_path(s: &Vec<TrackDetails>, p: &str) -> (r: Option<usize>)
    ensures
        match r {
            Some(i) => first_path(tracks_view(s@), p@) == Some(i as int),
            None => first_path(tracks_view(s@), p@) is None,
        },
{
    let ghost v = tracks_view(s@);
    let target = String::from_str(p);
    let mut i: usize = 0;
    while i < s.len()
        invariant
            i <= s.len(),
            v == tracks_view(s@),
            target@ == p@,
            forall|j: int| 0 <= j < i ==> v[j].song_path != p@,
        decreases s.len() - i,
    {
        if s[i].song_path == target {
            proof {
                lemma_first_path_unique(v, p@, i as int);
            }
            return Some(i);
        }
        i = i + 1;
    }
    assert(!exists|i: int| is_first_path(v, p@, i));
    None
}

/// The first position of an album with this title and artist.
pub fn find_album(s: &Vec<Album>, album: &String, artist: &String) -> (r: Option<usize>)
    ensures
        match r {
            Some(i) => first_album(albums_view(s@), album@, artist@) == Some(i as int)
                && is_first_album(albums_view(s@), album@, artist@, i as int),
            None => first_album(albums_view(s@), album@, artist@) is None
                && forall|j: int| 0 <= j < s@.len() ==> !(#[trigger] albums_view(s@)[j].album == album@ && albums_view(s@)[j].artist == artist@),
        },
{
    let ghost v = albums_view(s@);
    let mut i: usize = 0;
    while i < s.len()
        invariant
            i <= s.len(),
            v == albums_view(s@),
            forall|j: int| 0 <= j < i ==> !(v[j].album == album@ && v[j].artist == artist@),
        decreases s.len() - i,
    {
        if s[i].album == *album && s[i].artist == *artist {
            proof {
                lemma_first_album_unique(v, album@, artist@, i as int);
            }
            return Some(i);
        }
        i = i + 1;
    }
    assert(!exists|i: int| is_first_album(v, album@, artist@, i));
    None
}

/// Applies a change to the track at `song_path` in the list of all tracks
/// and to its copy inside its album (see `update_targets`); silently does
/// nothing, to either list, where a lookup fails.
pub fn with_matching_song_and_album_song(
    all_songs: &mut Vec<TrackDetails>,
    albums: &mut Vec<Album>,
    song_path: &str,
    update: &TrackUpdate,
)
    requires
        !update_overflows(tracks_view(old(all_songs)@), albums_view(old(albums)@), song_path@, update@),
    ensures
        (tracks_view(final(all_songs)@), albums_view(final(albums)@))
            == updated_lists(tracks_view(old(all_songs)@), albums_view(old(albums)@), song_path@, update@),
{
    let ghost songs0 = tracks_view(all_songs@);
    let ghost albums0 = albums_view(albums@);
    let Some(i) = find_path(all_songs, song_path) else {
        return;
    };
    let Some(a) = find_album(albums, &all_songs[i].album, &all_songs[i].artist) else {
        return;
    };
    let Some(k) = find_path(&albums[a].songs, song_path) else {
        return;
    };
    apply_track_update(&mut all_songs[i], update);
    assert(tracks_view(all_songs@) =~= songs0.update(i as int, update@.apply(songs0[i as int])));
    let ghost alb0 = albums[a as int];
    apply_track_update(&mut albums[a].songs[k], update);
    assert(tracks_view(albums[a as int].songs@) =~= tracks_view(alb0.songs@).update(k as int, update@.apply(tracks_view(alb0.songs@)[k as int])));
    assert(albums_view(albums@) =~= albums0.update(a as int, AlbumView {
        songs: albums0[a as int].songs.update(k as int, update@.apply(albums0[a as int].songs[k as int])),
        ..albums0[a as int]
    }));
}

/// Adds `time` seconds to the time played of the track at `song_path`.
pub fn apply_duration_played(all_songs: &mut Vec<TrackDetails>, albums: &mut Vec<Album>, song_path: &str, time: u64)
    requires
        !update_overflows(tracks_view(old(all_songs)@), albums_view(old(albums)@), song_path@, TrackChange::AddDuration(time)),
    ensures
        (tracks_view(final(all_songs)@), albums_view(final(albums)@))
            == updated_lists(tracks_view(old(all_songs)@), albums_view(old(albums)@), song_path@, TrackChange::AddDuration(time)),
{
    with_matching_song_and_album_song(all_songs, albums, song_path, &TrackUpdate::AddDuration(time));
}

/// Sets the last-played time of the track at `song_path`.
pub fn apply_last_played(all_songs: &mut Vec<TrackDetails>, albums: &mut Vec<Album>, song_path: &str, timestamp: u64)
    ensures
        (tracks_view(final(all_songs)@), albums_view(final(albums)@))
            == updated_lists(tracks_view(old(all_songs)@), albums_view(old(albums)@), song_path@, TrackChange::SetLastPlayed(timestamp)),
{
    with_matching_song_and_album_song(all_songs, albums, song_path, &TrackUpdate::SetLastPlayed(timestamp));
}

/// Removes every playlist label of the track at `song_path`.
pub fn apply_wipe_labels(all_songs: &mut Vec<TrackDetails>, albums: &mut Vec<Album>, song_path: &str)
    ensures
        (tracks_view(final(all_songs)@), albums_view(final(albums)@))
            == updated_lists(tracks_view(old(all_songs)@), albums_view(old(albums)@), song_path@, TrackChange::ClearLabels),
{
    with_matching_song_and_album_song(all_songs, albums, song_path, &TrackUpdate::ClearLabels);
}

/// Appends the playlist label `label` to the track at `song_path`. Labels
/// kept in the database carry no time; a label gets time 0 here as there.
pub fn apply_add_label(all_songs: &mut Vec<TrackDetails>, albums: &mut Vec<Album>, song_path: &str, label: &str)
    ensures
        (tracks_view(final(all_songs)@), albums_view(final(albums)@))
            == updated_lists(tracks_view(old(all_songs)@), albums_view(old(albums)@), song_path@, TrackChange::AddLabel(label@, 0)),
{
    let u = TrackUpdate::AddLabel(String::from_str(label), 0);
    with_matching_song_and_album_song(all_songs, albums, song_path, &u);
}

} // verus!
