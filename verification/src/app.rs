use vstd::prelude::*;
use crate::track::{TrackDetails, TrackView, Album, AlbumView, tracks_view, albums_view, clone_track, clone_tracks, clone_albums, lemma_tracks_view_push};
use crate::nav::{clamp_cursor_increment, clamp_cursor_decrement, clamp_up, clamp_down};
use crate::types::{VimMode, PlaybackMode, Page, DbUpdate, MusicStreamEvent, LocalTrackUpdateType};
use crate::nav::{TrackChange, updated_lists, update_overflows, first_path, first_album, count_char};
use crate::search::{track_filter, album_filter};
use crate::text::lowercase_of;
use crate::sort::{sorted_with, sorted_desc, same_key_classes, track_stat, album_stat};
use crate::order::{album_order, track_order};
use crate::sort::{sort_tracks, sort_albums};

verus! {

/// A key press, as far as the browser tells keys apart.
#[derive(PartialEq, Eq, Structural, Clone, Copy, Debug)]
pub enum Key {
    Char(char),
    Esc,
    Enter,
    Backspace,
    Delete,
    Other,
}

/// Work the browser asks its surroundings to do after a decision.
pub enum Effect {
    /// Hand a message to the player.
    Send(MusicStreamEvent),
    /// Fetch and cache the cover art of this album.
    Preload(Album),
    /// Record in the database that the track at this path has this label.
    AddLabel(String, String),
    /// Remove every label of the track at this path from the database.
    WipeLabels(String),
    /// Record a statistics change in the database.
    Record(DbUpdate),
    /// Fetch the cover art of the track now playing.
    RefreshArt,
}

/// What an effect looks like to a specification.
pub enum EffectView {
    Playlist(Seq<TrackView>, usize),
    Playback(PlaybackMode, usize),
    AutoAdvanced(TrackView, usize),
    Preload(AlbumView),
    AddLabel(Seq<char>, Seq<char>),
    WipeLabels(Seq<char>),
    LastPlayed(Seq<char>),
    DurationPlayed(Seq<char>, u64),
    RefreshArt,
}

impl View for Effect {
    type V = EffectView;

    open spec fn view(&self) -> EffectView {
        match self {
            Effect::Send(MusicStreamEvent::NewPlaylistEvent(q, i)) => EffectView::Playlist(tracks_view(q@), *i),
            Effect::Send(MusicStreamEvent::PlaybackEvent(m, i)) => EffectView::Playback(*m, *i),
            Effect::Send(MusicStreamEvent::TrackAutoAdvanced(t, i)) => EffectView::AutoAdvanced(t@, *i),
            Effect::Preload(a) => EffectView::Preload(a@),
            Effect::AddLabel(p, l) => EffectView::AddLabel(p@, l@),
            Effect::WipeLabels(p) => EffectView::WipeLabels(p@),
            Effect::Record(DbUpdate::LastPlayed(p)) => EffectView::LastPlayed(p@),
            Effect::Record(DbUpdate::DurationPlayed(p, d)) => EffectView::DurationPlayed(p@, *d),
            Effect::RefreshArt => EffectView::RefreshArt,
        }
    }
}

/// What a list of effects looks like to a specification.
pub open spec fn effects_view(e: Seq<Effect>) -> Seq<EffectView> {
    e.map_values(|x: Effect| x@)
}

/// The browser's state, as a specification sees it.
#[verifier::ext_equal]
pub struct AppView {
    pub exit: bool,
    pub cursor: usize,
    pub mode: VimMode,
    pub viewer: Page,
    pub all_songs: Seq<TrackView>,
    pub all_songs_unfiltered: Seq<TrackView>,
    pub page_songs: Seq<TrackView>,
    pub page_songs_unfiltered: Seq<TrackView>,
    pub playing_song: Option<TrackView>,
    pub playing_song_idx: Option<usize>,
    pub page_albums: Seq<AlbumView>,
    pub albums_unfiltered: Seq<AlbumView>,
    pub album_selected: Option<AlbumView>,
    pub albums_cursor: usize,
    pub song_queue: Option<Seq<TrackView>>,
    pub play_start: Option<u64>,
    pub elapsed_before_paused: u64,
    pub playback_mode: PlaybackMode,
    pub user_buff: Seq<char>,
    pub last_key: char,
    pub key_pressed_time: u64,
    pub has_db: bool,
    pub yank_buff: Seq<TrackView>,
    pub vline_begin: Option<usize>,
}

/// How long ago `then` was, at `now`, on a clock that never runs backwards
/// (an earlier `now` counts as no time).
pub open spec fn since(now: u64, then: u64) -> u64 {
    if now >= then { (now - then) as u64 } else { 0 }
}

/// Two presses of a key count as one command within this many milliseconds.
pub open spec fn double_press_window() -> u64 {
    300
}

/// An optional track as a specification sees it.
pub open spec fn opt_view(t: Option<TrackDetails>) -> Option<TrackView> {
    match t {
        Some(x) => Some(x@),
        None => None,
    }
}

/// The length of the list shown.
pub open spec fn shown_len(s: AppView) -> int {
    if s.viewer == Page::Albums { s.page_albums.len() as int } else { s.page_songs.len() as int }
}

/// Moving the cursor down one row.
pub open spec fn moved_down(s: AppView) -> AppView {
    let c = clamp_up(s.cursor, shown_len(s));
    if s.viewer == Page::Albums {
        AppView { cursor: c, albums_cursor: c, ..s }
    } else {
        AppView { cursor: c, ..s }
    }
}

/// Moving the cursor up one row.
pub open spec fn moved_up(s: AppView) -> AppView {
    let c = clamp_down(s.cursor);
    if s.viewer == Page::Albums {
        AppView { cursor: c, albums_cursor: c, ..s }
    } else {
        AppView { cursor: c, ..s }
    }
}

/// Jumping to a track of the queue: the track and its index become the
/// current ones and the player is told to play the queue from there.
pub open spec fn jumped_to(s: AppView, idx: usize) -> (AppView, Seq<EffectView>) {
    let q = s.song_queue->Some_0;
    (
        AppView {
            playing_song_idx: Some(idx),
            playing_song: if idx < q.len() { Some(q[idx as int]) } else { None },
            ..s
        },
        seq![EffectView::Playlist(q, idx)],
    )
}

/// The previous track of the queue (nothing without a queue or at its start).
pub open spec fn prev_song(s: AppView) -> (AppView, Seq<EffectView>) {
    if s.song_queue is None || s.playing_song_idx->Some_0 == 0 {
        (s, seq![])
    } else {
        jumped_to(s, (s.playing_song_idx->Some_0 - 1) as usize)
    }
}

/// The next track of the queue (nothing without a queue or at its end).
pub open spec fn next_song(s: AppView) -> (AppView, Seq<EffectView>) {
    if s.song_queue is None || s.playing_song_idx->Some_0 + 1 >= s.song_queue->Some_0.len() {
        (s, seq![])
    } else {
        jumped_to(s, (s.playing_song_idx->Some_0 + 1) as usize)
    }
}

/// The yank buffer pasted after the cursor (or as the whole list when the
/// list is empty).
pub open spec fn pasted(s: AppView) -> AppView {
    if s.page_songs.len() == 0 {
        AppView { page_songs: s.yank_buff, ..s }
    } else {
        let at = s.cursor + 1;
        AppView { page_songs: s.page_songs.take(at) + s.yank_buff + s.page_songs.skip(at), ..s }
    }
}

/// The second press of a double-press key: `key` was the last key and
/// came within the window.
pub open spec fn second_press(s: AppView, c: char, now: u64) -> bool {
    s.last_key == c && since(now, s.key_pressed_time) < double_press_window()
}

/// A first press of a double-press key is remembered with its time.
pub open spec fn first_press(s: AppView, c: char, now: u64) -> AppView {
    AppView { last_key: c, key_pressed_time: now, ..s }
}

/// `yy`: the row under the cursor (an album's tracks) goes to the yank buffer.
pub open spec fn yanked_row(s: AppView) -> AppView {
    AppView {
        yank_buff: if s.viewer == Page::Albums { s.page_albums[s.cursor as int].songs } else { seq![s.page_songs[s.cursor as int]] },
        last_key: ' ',
        ..s
    }
}

/// `dd`: the row under the cursor is cut into the yank buffer and the cursor
/// moves up. Nothing but the key's memory changes while the track list is
/// empty (also on the albums page).
pub open spec fn deleted_row(s: AppView) -> AppView {
    let cut = if s.viewer == Page::Albums {
        AppView {
            yank_buff: s.page_albums[s.cursor as int].songs,
            page_albums: s.page_albums.remove(s.cursor as int),
            ..s
        }
    } else {
        AppView {
            yank_buff: seq![s.page_songs[s.cursor as int]],
            page_songs: s.page_songs.remove(s.cursor as int),
            ..s
        }
    };
    AppView { last_key: ' ', ..moved_up(cut) }
}

/// Space or `p`: pause while playing (banking the time played so far),
/// resume while paused, and tell the player.
pub open spec fn toggled(s: AppView, now: u64) -> (AppView, Seq<EffectView>) {
    match s.playback_mode {
        PlaybackMode::NotPlaying => (s, seq![]),
        PlaybackMode::Playing => (
            AppView {
                playback_mode: PlaybackMode::Paused,
                elapsed_before_paused: (s.elapsed_before_paused + since(now, s.play_start->Some_0)) as u64,
                play_start: None,
                ..s
            },
            seq![EffectView::Playback(PlaybackMode::Paused, 0)],
        ),
        PlaybackMode::Paused => (
            AppView { playback_mode: PlaybackMode::Playing, play_start: Some(now), ..s },
            seq![EffectView::Playback(PlaybackMode::Playing, 0)],
        ),
    }
}

/// Enter in normal mode: open the album under the cursor, or play the track
/// list from the cursor. Nothing while the list shown is empty.
pub open spec fn entered(s: AppView) -> (AppView, Seq<EffectView>) {
    if shown_len(s) == 0 {
        (s, seq![])
    } else if s.viewer == Page::Albums {
        let a = s.page_albums[s.cursor as int];
        (
            AppView {
                album_selected: Some(a),
                viewer: Page::Songs,
                page_songs: a.songs,
                page_songs_unfiltered: a.songs,
                cursor: 0,
                ..s
            },
            seq![EffectView::Preload(a)],
        )
    } else {
        (s, seq![EffectView::Playlist(s.page_songs, s.cursor)])
    }
}

/// Esc in normal mode: back to all albums.
pub open spec fn escaped(s: AppView) -> AppView {
    AppView {
        page_albums: s.albums_unfiltered,
        cursor: s.albums_cursor,
        user_buff: Seq::empty(),
        viewer: Page::Albums,
        album_selected: None,
        ..s
    }
}

/// A key in normal mode: the motions, the queue keys, the mode switches,
/// the double-press commands, pause and resume, Esc and Enter.
pub open spec fn normal_next(s: AppView, key: Key, now: u64) -> (AppView, Seq<EffectView>) {
    match key {
        Key::Char(c) => {
            if c == 'q' {
                (AppView { exit: true, ..s }, seq![])
            } else if c == 'j' {
                (moved_down(s), seq![])
            } else if c == 'k' {
                (moved_up(s), seq![])
            } else if c == 'h' {
                prev_song(s)
            } else if c == 'l' {
                next_song(s)
            } else if c == '/' {
                (AppView { mode: VimMode::Search, ..s }, seq![])
            } else if c == ':' {
                (AppView { mode: VimMode::Command, ..s }, seq![])
            } else if c == 'V' {
                (AppView { mode: VimMode::VisualLine, vline_begin: Some(s.cursor), ..s }, seq![])
            } else if c == 'm' {
                (AppView { mode: if s.viewer != Page::Albums { VimMode::Marking } else { VimMode::Normal }, ..s }, seq![])
            } else if c == 'g' {
                if second_press(s, 'g', now) {
                    (AppView { cursor: 0, albums_cursor: 0, last_key: ' ', ..s }, seq![])
                } else {
                    (first_press(s, 'g', now), seq![])
                }
            } else if c == 'y' {
                if second_press(s, 'y', now) { (yanked_row(s), seq![]) } else { (first_press(s, 'y', now), seq![]) }
            } else if c == 'd' {
                if second_press(s, 'd', now) && s.page_songs.len() > 0 {
                    (deleted_row(s), seq![])
                } else {
                    (first_press(s, 'd', now), seq![])
                }
            } else if c == 'G' {
                if s.viewer == Page::Albums {
                    (AppView { cursor: (s.page_albums.len() - 1) as usize, albums_cursor: (s.page_albums.len() - 1) as usize, ..s }, seq![])
                } else {
                    (AppView { cursor: (s.page_songs.len() - 1) as usize, ..s }, seq![])
                }
            } else if c == ' ' || c == 'p' {
                toggled(s, now)
            } else {
                (s, seq![])
            }
        },
        Key::Esc => (escaped(s), seq![]),
        Key::Enter => entered(s),
        _ => (s, seq![]),
    }
}

/// The query a track search uses: the buffer on the album's track page;
/// without its leading character (the `*` that asked for a library-wide
/// search) on the search page.
pub open spec fn song_query(s: AppView) -> Seq<char> {
    if s.viewer == Page::Search { s.user_buff.drop_first() } else { s.user_buff }
}

/// The list shown holds its whole source: all albums on the albums page,
/// the album's tracks on its track page, the library's tracks on the
/// search page.
pub open spec fn shows_whole_source(s: AppView) -> bool {
    if s.viewer == Page::Albums {
        s.page_albums == s.albums_unfiltered
    } else if s.viewer == Page::Songs {
        s.page_songs == s.page_songs_unfiltered
    } else {
        s.page_songs == s.all_songs_unfiltered
    }
}

/// A key in search mode that refilters the list shown: a character, or
/// Backspace on a buffer that is not empty.
pub open spec fn refilters(s: AppView, key: Key) -> bool {
    s.mode == VimMode::Search && (key is Char || (key == Key::Backspace && s.user_buff.len() > 0))
}

/// The list shown, filtered anew by the buffer.
pub open spec fn refiltered(s: AppView) -> AppView {
    if s.viewer == Page::Albums {
        AppView { page_albums: s.albums_unfiltered.filter(album_filter(lowercase_of(s.user_buff))), cursor: 0, ..s }
    } else {
        let source = if s.viewer == Page::Songs { s.page_songs_unfiltered } else { s.all_songs_unfiltered };
        AppView { page_songs: source.filter(track_filter(lowercase_of(song_query(s)))), cursor: 0, ..s }
    }
}

/// A key in search mode: typing refilters the list shown (a leading `*`
/// searches the whole library), Enter keeps the result, Esc restores the list.
pub open spec fn search_next(s: AppView, key: Key) -> AppView {
    match key {
        Key::Char(c) => {
            let b = s.user_buff.push(c);
            refiltered(AppView { user_buff: b, viewer: if b[0] == '*' { Page::Search } else { s.viewer }, ..s })
        },
        Key::Backspace => if s.user_buff.len() == 0 { s } else { refiltered(AppView { user_buff: s.user_buff.drop_last(), ..s }) },
        Key::Enter => AppView { cursor: 0, user_buff: Seq::empty(), mode: VimMode::Normal, ..s },
        Key::Esc => {
            let t = AppView { cursor: 0, user_buff: Seq::empty(), mode: VimMode::Normal, ..s };
            if s.viewer == Page::Albums {
                AppView { page_albums: s.albums_unfiltered, ..t }
            } else if s.viewer == Page::Songs {
                AppView { page_songs: s.page_songs_unfiltered, ..t }
            } else {
                AppView { page_songs: s.all_songs_unfiltered, ..t }
            }
        },
        _ => s,
    }
}

/// The sort a command line asks for: `Some(k)` for `sort last_played`,
/// `sort duration_played`, `sort date_added` (k = 0, 1, 2), `Some(3)` for
/// `sort` with any other single argument, `None` for anything else.
pub open spec fn sort_request(buff: Seq<char>) -> Option<int> {
    if count_char(buff, ' ') == 1 && buff.len() >= 5 && buff.take(5) == "sort "@ {
        let arg = buff.skip(5);
        if arg == "last_played"@ {
            Some(0)
        } else if arg == "duration_played"@ {
            Some(1)
        } else if arg == "date_added"@ {
            Some(2)
        } else {
            Some(3)
        }
    } else {
        None
    }
}

/// The sort a command asks for: for `sort`, `Some(k)` with `k` = 0, 1, 2
/// for the arguments `last_played`, `duration_played`, `date_added` and 3
/// for any other; `None` for another command.
pub open spec fn sort_kind(cmd: Seq<char>, arg: Seq<char>) -> Option<int> {
    if cmd == "sort"@ {
        if arg == "last_played"@ {
            Some(0)
        } else if arg == "duration_played"@ {
            Some(1)
        } else if arg == "date_added"@ {
            Some(2)
        } else {
            Some(3)
        }
    } else {
        None
    }
}

/// `new` is `s` after the sort `kind` (see `sort_kind`): by a statistic, the
/// list shown is sorted largest first (stable); otherwise the albums are
/// sorted; with none, nothing changes.
pub open spec fn sorted_as(s: AppView, new: AppView, kind: Option<int>) -> bool {
    match kind {
        None => new == s,
        Some(k) => if k == 3 {
            &&& new == AppView { page_albums: new.page_albums, ..s }
            &&& sorted_with(new.page_albums, album_order())
            &&& new.page_albums.to_multiset() == s.page_albums.to_multiset()
        } else if s.viewer == Page::Albums {
            &&& new == AppView { page_albums: new.page_albums, ..s }
            &&& sorted_desc(new.page_albums, album_stat(k))
            &&& same_key_classes(new.page_albums, s.page_albums, album_stat(k))
        } else {
            &&& new == AppView { page_songs: new.page_songs, ..s }
            &&& sorted_desc(new.page_songs, track_stat(k))
            &&& same_key_classes(new.page_songs, s.page_songs, track_stat(k))
        },
    }
}

/// `new` is `s` after running its command line (see `sort_request`).
pub open spec fn command_ran(s: AppView, new: AppView) -> bool {
    sorted_as(s, new, sort_request(s.user_buff))
}

/// The album title and artist of the first library track at `path`.
pub open spec fn album_of_path(s: AppView, path: Seq<char>) -> (Seq<char>, Seq<char>) {
    let i = first_path(s.all_songs_unfiltered, path)->Some_0;
    (s.all_songs_unfiltered[i].album, s.all_songs_unfiltered[i].artist)
}

/// The library after recording `time` more seconds played for the track at
/// `path`: the track and its album copy (see `updated_lists`), the first
/// such track of the list shown (unless albums are shown), and the album's
/// own counter.
pub open spec fn local_duration(s: AppView, path: Seq<char>, time: u64) -> AppView {
    let (al, ar) = album_of_path(s, path);
    let (songs2, albums2) = updated_lists(s.all_songs_unfiltered, s.albums_unfiltered, path, TrackChange::AddDuration(time));
    let page2 = if s.viewer != Page::Albums {
        match first_path(s.page_songs, path) {
            Some(j) => s.page_songs.update(j, TrackChange::AddDuration(time).apply(s.page_songs[j])),
            None => s.page_songs,
        }
    } else {
        s.page_songs
    };
    let a = first_album(albums2, al, ar)->Some_0;
    let albums3 = albums2.update(a, AlbumView {
        stats: (albums2[a].stats.0, (albums2[a].stats.1 + time) as u64, albums2[a].stats.2),
        ..albums2[a]
    });
    AppView { all_songs_unfiltered: songs2, albums_unfiltered: albums3, page_songs: page2, ..s }
}

/// When recording time played fails: the track or its album cannot be
/// found, or a counter would overflow.
pub open spec fn local_duration_panics(s: AppView, path: Seq<char>, time: u64) -> bool {
    let (al, ar) = album_of_path(s, path);
    let (songs2, albums2) = updated_lists(s.all_songs_unfiltered, s.albums_unfiltered, path, TrackChange::AddDuration(time));
    ||| first_path(s.all_songs_unfiltered, path) is None
    ||| update_overflows(s.all_songs_unfiltered, s.albums_unfiltered, path, TrackChange::AddDuration(time))
    ||| (s.viewer != Page::Albums && (first_path(s.page_songs, path) matches Some(j)
            && s.page_songs[j].stats.1 + time > u64::MAX))
    ||| first_album(albums2, al, ar) is None
    ||| albums2[first_album(albums2, al, ar)->Some_0].stats.1 + time > u64::MAX
}

/// The library after the track at `path` started playing at `wall`: the
/// track and its album copy, the row under the cursor of the list shown
/// (unless albums are shown), and the album's own last-played time.
pub open spec fn local_last_played(s: AppView, path: Seq<char>, wall: u64) -> AppView {
    let (al, ar) = album_of_path(s, path);
    let (songs2, albums2) = updated_lists(s.all_songs_unfiltered, s.albums_unfiltered, path, TrackChange::SetLastPlayed(wall));
    let page2 = if s.viewer != Page::Albums {
        s.page_songs.update(s.cursor as int, TrackChange::SetLastPlayed(wall).apply(s.page_songs[s.cursor as int]))
    } else {
        s.page_songs
    };
    let a = first_album(albums2, al, ar)->Some_0;
    let albums3 = albums2.update(a, AlbumView { stats: (wall, albums2[a].stats.1, albums2[a].stats.2), ..albums2[a] });
    AppView { all_songs_unfiltered: songs2, albums_unfiltered: albums3, page_songs: page2, ..s }
}

/// When recording a start fails: the track or its album cannot be found,
/// or the cursor lies past the list shown.
pub open spec fn local_last_played_panics(s: AppView, path: Seq<char>, wall: u64) -> bool {
    let (al, ar) = album_of_path(s, path);
    let (songs2, albums2) = updated_lists(s.all_songs_unfiltered, s.albums_unfiltered, path, TrackChange::SetLastPlayed(wall));
    ||| first_path(s.all_songs_unfiltered, path) is None
    ||| (s.viewer != Page::Albums && s.cursor >= s.page_songs.len())
    ||| first_album(albums2, al, ar) is None
}

/// The library after a change to the labels of the track at `path`: the
/// row under the cursor of the list shown (unless albums are shown), the
/// track and its album copy.
pub open spec fn local_labels(s: AppView, path: Seq<char>, c: TrackChange) -> AppView {
    let (songs2, albums2) = updated_lists(s.all_songs_unfiltered, s.albums_unfiltered, path, c);
    let page2 = if s.viewer != Page::Albums {
        s.page_songs.update(s.cursor as int, c.apply(s.page_songs[s.cursor as int]))
    } else {
        s.page_songs
    };
    AppView { all_songs_unfiltered: songs2, albums_unfiltered: albums2, page_songs: page2, ..s }
}

/// When a label change fails: the track cannot be found, or the cursor
/// lies past the list shown.
pub open spec fn local_labels_panics(s: AppView, path: Seq<char>) -> bool {
    ||| first_path(s.all_songs_unfiltered, path) is None
    ||| (s.viewer != Page::Albums && s.cursor >= s.page_songs.len())
}

/// A change to the browser's copies of a track, as a specification sees it.
pub enum LocalUpdate {
    DurationPlayed(Seq<char>, u64),
    LastPlayed(Seq<char>),
    AddLabel(Seq<char>, Seq<char>),
    WipeLabels(Seq<char>),
}

impl View for LocalTrackUpdateType {
    type V = LocalUpdate;

    open spec fn view(&self) -> LocalUpdate {
        match self {
            LocalTrackUpdateType::DurationPlayed(p, t) => LocalUpdate::DurationPlayed(p.0@, *t),
            LocalTrackUpdateType::LastPlayed(p) => LocalUpdate::LastPlayed(p.0@),
            LocalTrackUpdateType::AddLabel(p, l) => LocalUpdate::AddLabel(p.0@, l.0@),
            LocalTrackUpdateType::WipeLabels(p) => LocalUpdate::WipeLabels(p.0@),
        }
    }
}

/// The library after the label `l` was given to the track at `path`: the
/// track and its album copy get `l`; the row under the cursor of the list
/// shown (unless albums are shown) gets the text typed.
pub open spec fn labelled(s: AppView, path: Seq<char>, l: Seq<char>) -> AppView {
    let (songs2, albums2) = updated_lists(s.all_songs_unfiltered, s.albums_unfiltered, path, TrackChange::AddLabel(l, 0));
    let page2 = if s.viewer != Page::Albums {
        s.page_songs.update(s.cursor as int, TrackChange::AddLabel(s.user_buff, 0).apply(s.page_songs[s.cursor as int]))
    } else {
        s.page_songs
    };
    AppView { all_songs_unfiltered: songs2, albums_unfiltered: albums2, page_songs: page2, ..s }
}

/// The browser's copies of a track after a change; `wall` is the time a
/// track started playing.
pub open spec fn local_update(s: AppView, u: LocalUpdate, wall: u64) -> AppView {
    match u {
        LocalUpdate::DurationPlayed(p, t) => local_duration(s, p, t),
        LocalUpdate::LastPlayed(p) => local_last_played(s, p, wall),
        LocalUpdate::AddLabel(p, l) => labelled(s, p, l),
        LocalUpdate::WipeLabels(p) => local_labels(s, p, TrackChange::ClearLabels),
    }
}

/// The changes the browser cannot make to its copies of a track.
pub open spec fn local_update_panics(s: AppView, u: LocalUpdate, wall: u64) -> bool {
    match u {
        LocalUpdate::DurationPlayed(p, t) => local_duration_panics(s, p, t),
        LocalUpdate::LastPlayed(p) => local_last_played_panics(s, p, wall),
        LocalUpdate::AddLabel(p, _) => local_labels_panics(s, p),
        LocalUpdate::WipeLabels(p) => local_labels_panics(s, p),
    }
}

/// Leaving an input mode: the buffer is emptied and normal mode resumes.
pub open spec fn done(s: AppView) -> AppView {
    AppView { user_buff: Seq::empty(), mode: VimMode::Normal, ..s }
}

/// A key in marking mode: typing a label; Enter gives it to the track under
/// the cursor, Delete removes that track's labels (both only with a
/// database and on a track page); Esc leaves.
pub open spec fn marking_next(s: AppView, key: Key) -> (AppView, Seq<EffectView>) {
    match key {
        Key::Char(c) => (AppView { user_buff: s.user_buff.push(c), ..s }, seq![]),
        Key::Backspace => if s.user_buff.len() == 0 { (s, seq![]) } else { (AppView { user_buff: s.user_buff.drop_last(), ..s }, seq![]) },
        Key::Enter => if !s.has_db || s.viewer == Page::Albums {
            (done(s), seq![])
        } else {
            let path = s.page_songs[s.cursor as int].song_path;
            (done(local_labels(s, path, TrackChange::AddLabel(s.user_buff, 0))), seq![EffectView::AddLabel(path, s.user_buff)])
        },
        Key::Delete => if !s.has_db || s.viewer == Page::Albums {
            (done(s), seq![])
        } else {
            let path = s.page_songs[s.cursor as int].song_path;
            (done(local_labels(s, path, TrackChange::ClearLabels)), seq![EffectView::WipeLabels(path)])
        },
        Key::Esc => (done(s), seq![]),
        _ => (s, seq![]),
    }
}

/// The keys marking mode cannot handle: Enter or Delete with the cursor
/// past the list or on a track missing from the library.
pub open spec fn marking_panics(s: AppView, key: Key) -> bool {
    (key == Key::Enter || key == Key::Delete) && s.has_db && s.viewer != Page::Albums && (
        s.cursor >= s.page_songs.len() || local_labels_panics(s, s.page_songs[s.cursor as int].song_path))
}

/// The rows between the visual-line anchor `b` and the cursor: from the
/// smaller of the two up to and including the cursor, or up to but
/// excluding the anchor when the anchor lies below the cursor.
pub open spec fn line_range(b: usize, cursor: usize) -> (int, int) {
    (if b < cursor { b as int } else { cursor as int }, if cursor + 1 > b { cursor + 1 } else { b as int })
}

/// A key other than Enter in visual-line mode: `j`/`k` move, `y` copies the
/// rows selected, `d` cuts them, Esc leaves.
pub open spec fn visual_next(s: AppView, key: Key) -> AppView {
    match key {
        Key::Char(c) => {
            if c == 'j' {
                moved_down(s)
            } else if c == 'k' {
                moved_up(s)
            } else if c == 'd' {
                match s.vline_begin {
                    Some(b) => {
                        let (lo, hi) = line_range(b, s.cursor);
                        AppView {
                            yank_buff: s.page_songs.subrange(lo, hi),
                            page_songs: s.page_songs.take(lo) + s.page_songs.skip(hi),
                            cursor: lo as usize,
                            mode: VimMode::Normal,
                            ..s
                        }
                    },
                    None => AppView { mode: VimMode::Normal, ..s },
                }
            } else if c == 'y' {
                match s.vline_begin {
                    Some(b) => {
                        let (lo, hi) = line_range(b, s.cursor);
                        AppView { yank_buff: s.page_songs.subrange(lo, hi), mode: VimMode::Normal, ..s }
                    },
                    None => AppView { mode: VimMode::Normal, ..s },
                }
            } else {
                s
            }
        },
        Key::Esc => done(s),
        _ => s,
    }
}

/// A key other than Enter in command mode: typing the command line.
pub open spec fn command_next(s: AppView, key: Key) -> AppView {
    match key {
        Key::Char(c) => AppView { user_buff: s.user_buff.push(c), cursor: 0, ..s },
        Key::Backspace => if s.user_buff.len() == 0 { s } else { AppView { user_buff: s.user_buff.drop_last(), cursor: 0, ..s } },
        Key::Esc => AppView { cursor: 0, ..done(s) },
        _ => s,
    }
}

/// `new` and `effects` are the outcome of `key` pressed at `now` in state `s`.
pub open spec fn key_step(s: AppView, key: Key, now: u64, new: AppView, effects: Seq<EffectView>) -> bool {
    match s.mode {
        VimMode::Normal => (new, effects) == normal_next(s, key, now),
        VimMode::Search => new == search_next(s, key) && effects == Seq::<EffectView>::empty(),
        VimMode::Marking => (new, effects) == marking_next(s, key),
        VimMode::Command => if key == Key::Enter {
            &&& new.user_buff == Seq::<char>::empty() && new.mode == VimMode::Normal
            &&& command_ran(s, AppView { user_buff: s.user_buff, mode: s.mode, ..new })
            &&& effects == Seq::<EffectView>::empty()
        } else {
            new == command_next(s, key) && effects == Seq::<EffectView>::empty()
        },
        VimMode::VisualLine => if key == Key::Enter {
            &&& new.user_buff == Seq::<char>::empty() && new.mode == VimMode::Normal && new.viewer == Page::Albums
            &&& command_ran(s, AppView { user_buff: s.user_buff, mode: s.mode, viewer: s.viewer, ..new })
            &&& effects == Seq::<EffectView>::empty()
        } else {
            new == visual_next(s, key) && effects == Seq::<EffectView>::empty()
        },
    }
}

/// A character that UTF-8 encodes in one byte.
pub open spec fn one_byte(c: char) -> bool {
    (c as u32) < 0x80
}

/// The search page drops the buffer's first byte, which cannot be done
/// unless the buffer starts with a one-byte character.
pub open spec fn refilter_panics(s: AppView) -> bool {
    s.viewer == Page::Search && (s.user_buff.len() == 0 || !one_byte(s.user_buff[0]))
}

/// The keys the browser cannot handle in a state: those whose handling would
/// index past a list, overflow a counter, need a value that is missing, or
/// ask for a command that does not exist on the page shown.
pub open spec fn key_panics(s: AppView, key: Key, now: u64) -> bool {
    match s.mode {
        VimMode::Normal => match key {
            Key::Char(c) => {
                ||| ((c == 'j') && shown_len(s) > 0 && s.cursor == usize::MAX)
                ||| ((c == 'h' || c == 'l') && s.song_queue is Some && s.playing_song_idx is None)
                ||| (c == 'y' && second_press(s, 'y', now) && s.cursor >= shown_len(s))
                ||| (c == 'd' && second_press(s, 'd', now) && s.page_songs.len() > 0 && s.cursor >= shown_len(s))
                ||| (c == 'G' && shown_len(s) == 0)
                ||| ((c == ' ' || c == 'p') && s.playback_mode == PlaybackMode::Playing && (s.play_start is None
                        || s.elapsed_before_paused + since(now, s.play_start->Some_0) > u64::MAX))
            },
            Key::Enter => s.viewer == Page::Albums && s.page_albums.len() > 0 && s.cursor >= s.page_albums.len(),
            _ => false,
        },
        VimMode::Search => match key {
            Key::Char(c) => {
                let b = s.user_buff.push(c);
                refilter_panics(AppView { user_buff: b, viewer: if b[0] == '*' { Page::Search } else { s.viewer }, ..s })
            },
            Key::Backspace => s.user_buff.len() > 0 && refilter_panics(AppView { user_buff: s.user_buff.drop_last(), ..s }),
            _ => false,
        },
        VimMode::Marking => marking_panics(s, key),
        VimMode::Command => false,
        VimMode::VisualLine => match key {
            Key::Char(c) => {
                ||| ((c == 'j') && shown_len(s) > 0 && s.cursor == usize::MAX)
                ||| ((c == 'd' || c == 'y') && (s.viewer == Page::Albums || (s.vline_begin matches Some(b)
                        && (s.cursor == usize::MAX || line_range(b, s.cursor).1 > s.page_songs.len()))))
            },
            _ => false,
        },
    }
}

/// The time played so far, in milliseconds: the time banked at the last
/// pause plus the time since playing (re)started.
pub open spec fn elapsed_ms(s: AppView, now: u64) -> int {
    s.elapsed_before_paused + since(now, match s.play_start { Some(t) => t, None => now })
}

/// The outcome of a message from the player.
pub open spec fn stream_next(s: AppView, ev: &MusicStreamEvent, now: u64, wall: u64) -> (AppView, Seq<EffectView>) {
    match ev {
        MusicStreamEvent::TrackAutoAdvanced(track, _) => {
            let idx = (s.playing_song_idx->Some_0 + 1) as usize;
            let prev = s.song_queue->Some_0[idx - 1];
            let s1 = AppView {
                play_start: Some(now),
                elapsed_before_paused: 0,
                playing_song: Some(track@),
                playing_song_idx: Some(idx),
                ..s
            };
            (local_duration(s1, prev.song_path, prev.duration),
                seq![EffectView::DurationPlayed(prev.song_path, prev.duration), EffectView::RefreshArt])
        },
        MusicStreamEvent::NewPlaylistEvent(queue, i) => {
            let (s1, e1) = match s.playing_song {
                Some(p) => {
                    let d = (elapsed_ms(s, now) / 1000) as u64;
                    (local_duration(s, p.song_path, d), seq![EffectView::DurationPlayed(p.song_path, d)])
                },
                None => (s, Seq::<EffectView>::empty()),
            };
            let q = tracks_view(queue@);
            let song = q[*i as int];
            let s2 = AppView {
                playing_song_idx: Some(*i),
                playing_song: Some(song),
                song_queue: Some(q),
                playback_mode: PlaybackMode::Playing,
                ..s1
            };
            let s3 = local_last_played(s2, song.song_path, wall);
            (AppView { play_start: Some(now), elapsed_before_paused: 0, ..s3 },
                e1 + seq![EffectView::LastPlayed(song.song_path), EffectView::RefreshArt])
        },
        MusicStreamEvent::PlaybackEvent(_, _) => (s, Seq::empty()),
    }
}

/// The messages from the player the browser cannot handle.
pub open spec fn stream_panics(s: AppView, ev: &MusicStreamEvent, now: u64, wall: u64) -> bool {
    match ev {
        MusicStreamEvent::TrackAutoAdvanced(track, _) => {
            ||| s.playing_song_idx is None
            ||| s.playing_song_idx->Some_0 == usize::MAX
            ||| s.song_queue is None
            ||| s.playing_song_idx->Some_0 >= s.song_queue->Some_0.len()
            ||| {
                let idx = (s.playing_song_idx->Some_0 + 1) as usize;
                let prev = s.song_queue->Some_0[idx - 1];
                let s1 = AppView {
                    play_start: Some(now),
                    elapsed_before_paused: 0,
                    playing_song: Some(track@),
                    playing_song_idx: Some(idx),
                    ..s
                };
                local_duration_panics(s1, prev.song_path, prev.duration)
            }
        },
        MusicStreamEvent::NewPlaylistEvent(queue, i) => {
            ||| (s.playing_song matches Some(p) && (elapsed_ms(s, now) > u64::MAX
                    || local_duration_panics(s, p.song_path, (elapsed_ms(s, now) / 1000) as u64)))
            ||| *i >= queue@.len()
            ||| {
                let s1 = match s.playing_song {
                    Some(p) => local_duration(s, p.song_path, (elapsed_ms(s, now) / 1000) as u64),
                    None => s,
                };
                let q = tracks_view(queue@);
                let song = q[*i as int];
                let s2 = AppView {
                    playing_song_idx: Some(*i),
                    playing_song: Some(song),
                    song_queue: Some(q),
                    playback_mode: PlaybackMode::Playing,
                    ..s1
                };
                local_last_played_panics(s2, song.song_path, wall)
            }
        },
        MusicStreamEvent::PlaybackEvent(_, _) => true,
    }
}

/// The browser: what it shows, where its cursor is, what it plays, and the
/// input being typed. Time is read from two clocks that the caller supplies:
/// a monotonic one in milliseconds (`now`) and wall-clock seconds (`wall`).
pub struct App {
    pub exit: bool,
    pub cursor: usize,
    pub mode: VimMode,
    pub viewer: Page,
    /// The library's tracks (kept as loaded).
    pub all_songs: Vec<TrackDetails>,
    /// The library's tracks, the source of library-wide searches.
    pub all_songs_unfiltered: Vec<TrackDetails>,
    /// The track list shown.
    pub page_songs: Vec<TrackDetails>,
    /// The tracks of the chosen album, the source of searches within it.
    pub page_songs_unfiltered: Vec<TrackDetails>,
    pub playing_song: Option<TrackDetails>,
    pub playing_song_idx: Option<usize>,
    /// The album list shown.
    pub page_albums: Vec<Album>,
    /// All albums, the source of album searches.
    pub albums_unfiltered: Vec<Album>,
    pub album_selected: Option<Album>,
    /// The cursor position on the albums page, restored when returning there.
    pub albums_cursor: usize,
    /// The queue the player plays from.
    pub song_queue: Option<Vec<TrackDetails>>,
    /// When playing last (re)started, on the monotonic clock.
    pub play_start: Option<u64>,
    /// The milliseconds played before the last pause.
    pub elapsed_before_paused: u64,
    pub playback_mode: PlaybackMode,
    /// The text typed in search, command and marking modes.
    pub user_buff: String,
    /// The last key of a possible double press, and when it came.
    pub last_key: char,
    pub key_pressed_time: u64,
    /// Whether a statistics database is open.
    pub has_db: bool,
    pub yank_buff: Vec<TrackDetails>,
    /// The anchor row of a visual-line selection.
    pub vline_begin: Option<usize>,
}

/// An optional album as a specification sees it.
pub open spec fn opt_album_view(a: Option<Album>) -> Option<AlbumView> {
    match a {
        Some(x) => Some(x@),
        None => None,
    }
}

/// An optional queue as a specification sees it.
pub open spec fn opt_tracks_view(q: Option<Vec<TrackDetails>>) -> Option<Seq<TrackView>> {
    match q {
        Some(v) => Some(tracks_view(v@)),
        None => None,
    }
}

impl View for App {
    type V = AppView;

    open spec fn view(&self) -> AppView {
        AppView {
            exit: self.exit,
            cursor: self.cursor,
            mode: self.mode,
            viewer: self.viewer,
            all_songs: tracks_view(self.all_songs@),
            all_songs_unfiltered: tracks_view(self.all_songs_unfiltered@),
            page_songs: tracks_view(self.page_songs@),
            page_songs_unfiltered: tracks_view(self.page_songs_unfiltered@),
            playing_song: opt_view(self.playing_song),
            playing_song_idx: self.playing_song_idx,
            page_albums: albums_view(self.page_albums@),
            albums_unfiltered: albums_view(self.albums_unfiltered@),
            album_selected: opt_album_view(self.album_selected),
            albums_cursor: self.albums_cursor,
            song_queue: opt_tracks_view(self.song_queue),
            play_start: self.play_start,
            elapsed_before_paused: self.elapsed_before_paused,
            playback_mode: self.playback_mode,
            user_buff: self.user_buff@,
            last_key: self.last_key,
            key_pressed_time: self.key_pressed_time,
            has_db: self.has_db,
            yank_buff: tracks_view(self.yank_buff@),
            vline_begin: self.vline_begin,
        }
    }
}

/// `ins` placed into `v` before position `at`.
pub fn spliced(v: &Vec<TrackDetails>, at: usize, ins: &Vec<TrackDetails>) -> (r: Vec<TrackDetails>)
    requires
        at <= v@.len(),
    ensures
        tracks_view(r@) == tracks_view(v@).take(at as int) + tracks_view(ins@) + tracks_view(v@).skip(at as int),
{
    let mut r: Vec<TrackDetails> = Vec::new();
    let mut i: usize = 0;
    while i < at
        invariant
            at <= v@.len(),
            i <= at,
            tracks_view(r@) == tracks_view(v@).take(i as int),
        decreases at - i,
    {
        let ghost prev = r@;
        let x = clone_track(&v[i]);
        r.push(x);
        proof { lemma_tracks_view_push(prev, x); }
        assert(tracks_view(r@) =~= tracks_view(v@).take(i + 1));
        i = i + 1;
    }
    let mut j: usize = 0;
    while j < ins.len()
        invariant
            j <= ins@.len(),
            tracks_view(r@) == tracks_view(v@).take(at as int) + tracks_view(ins@).take(j as int),
        decreases ins.len() - j,
    {
        let ghost prev = r@;
        let x = clone_track(&ins[j]);
        r.push(x);
        proof { lemma_tracks_view_push(prev, x); }
        assert(tracks_view(r@) =~= tracks_view(v@).take(at as int) + tracks_view(ins@).take(j + 1));
        j = j + 1;
    }
    assert(tracks_view(ins@).take(ins@.len() as int) =~= tracks_view(ins@));
    let mut k: usize = at;
    while k < v.len()
        invariant
            at <= k <= v@.len(),
            tracks_view(r@) == tracks_view(v@).take(at as int) + tracks_view(ins@) + tracks_view(v@).subrange(at as int, k as int),
        decreases v.len() - k,
    {
        let ghost prev = r@;
        let x = clone_track(&v[k]);
        r.push(x);
        proof { lemma_tracks_view_push(prev, x); }
        assert(tracks_view(r@) =~= tracks_view(v@).take(at as int) + tracks_view(ins@) + tracks_view(v@).subrange(at as int, k + 1));
        k = k + 1;
    }
    assert(tracks_view(v@).subrange(at as int, v@.len() as int) =~= tracks_view(v@).skip(at as int));
    r
}

/// The rows `lo..hi` of `v`.
pub fn rows(v: &Vec<TrackDetails>, lo: usize, hi: usize) -> (r: Vec<TrackDetails>)
    requires
        lo <= hi <= v@.len(),
    ensures
        tracks_view(r@) == tracks_view(v@).subrange(lo as int, hi as int),
{
    let mut r: Vec<TrackDetails> = Vec::new();
    let mut k: usize = lo;
    while k < hi
        invariant
            lo <= k <= hi <= v@.len(),
            tracks_view(r@) == tracks_view(v@).subrange(lo as int, k as int),
        decreases hi - k,
    {
        let ghost prev = r@;
        let x = clone_track(&v[k]);
        r.push(x);
        proof { lemma_tracks_view_push(prev, x); }
        assert(tracks_view(r@) =~= tracks_view(v@).subrange(lo as int, k + 1));
        k = k + 1;
    }
    r
}

/// The browser as it starts: all albums shown with the cursor at the top,
/// nothing playing, normal mode, empty buffers.
pub open spec fn fresh(songs: Seq<TrackView>, albums: Seq<AlbumView>, has_db: bool, now: u64) -> AppView {
    AppView {
        exit: false,
        cursor: 0,
        mode: VimMode::Normal,
        viewer: Page::Albums,
        all_songs: songs,
        all_songs_unfiltered: songs,
        page_songs: songs,
        page_songs_unfiltered: Seq::empty(),
        playing_song: None,
        playing_song_idx: None,
        page_albums: albums,
        albums_unfiltered: albums,
        album_selected: None,
        albums_cursor: 0,
        song_queue: None,
        play_start: None,
        elapsed_before_paused: 0,
        playback_mode: PlaybackMode::NotPlaying,
        user_buff: Seq::empty(),
        last_key: ' ',
        key_pressed_time: now,
        has_db,
        yank_buff: Seq::empty(),
        vline_begin: None,
    }
}

impl App {
    /// The browser over a library: its albums and tracks (as the library
    /// builder returns them) are sorted; `has_db` tells whether statistics
    /// are kept; `now` is the current time on the monotonic clock.
    pub fn new(albums: Vec<Album>, songs: Vec<TrackDetails>, has_db: bool, now: u64) -> (app: App)
        ensures
            app@ == fresh(app@.page_songs, app@.page_albums, has_db, now),
            sorted_with(app@.page_songs, track_order()),
            app@.page_songs.to_multiset() == tracks_view(songs@).to_multiset(),
            sorted_with(app@.page_albums, album_order()),
            app@.page_albums.to_multiset() == albums_view(albums@).to_multiset(),
    {
        let mut songs = songs;
        let mut albums = albums;
        sort_tracks(&mut songs);
        sort_albums(&mut albums);
        App {
            exit: false,
            cursor: 0,
            mode: VimMode::Normal,
            viewer: Page::Albums,
            all_songs: clone_tracks(&songs),
            all_songs_unfiltered: clone_tracks(&songs),
            page_songs: songs,
            page_songs_unfiltered: Vec::new(),
            playing_song: None,
            playing_song_idx: None,
            page_albums: clone_albums(&albums),
            albums_unfiltered: albums,
            album_selected: None,
            albums_cursor: 0,
            song_queue: None,
            play_start: None,
            elapsed_before_paused: 0,
            playback_mode: PlaybackMode::NotPlaying,
            user_buff: String::new(),
            last_key: ' ',
            key_pressed_time: now,
            has_db,
            yank_buff: Vec::new(),
            vline_begin: None,
        }
    }

    /// `j`: the cursor moves down one row (see `moved_down`).
    pub fn increment_counter(&mut self)
        requires
            !(shown_len(old(self)@) > 0 && old(self).cursor == usize::MAX),
        ensures
            final(self)@ == moved_down(old(self)@),
    {
        if self.viewer == Page::Albums {
            self.cursor = clamp_cursor_increment(self.cursor, self.page_albums.len());
            self.albums_cursor = self.cursor;
        } else {
            self.cursor = clamp_cursor_increment(self.cursor, self.page_songs.len());
        }
    }

    /// `k`: the cursor moves up one row (see `moved_up`).
    pub fn decrement_counter(&mut self)
        ensures
            final(self)@ == moved_up(old(self)@),
    {
        if self.viewer == Page::Albums {
            self.albums_cursor = clamp_cursor_decrement(self.cursor);
        }
        self.cursor = clamp_cursor_decrement(self.cursor);
    }

    /// Plays the queue from its track `idx` (see `jumped_to`).
    pub fn jump_to(&mut self, idx: usize) -> (effects: Vec<Effect>)
        requires
            old(self).song_queue is Some,
        ensures
            (final(self)@, effects_view(effects@)) == jumped_to(old(self)@, idx),
    {
        let ghost q0 = old(self)@.song_queue->Some_0;
        let queue = match &self.song_queue {
            Some(q) => clone_tracks(q),
            None => Vec::new(),
        };
        self.playing_song_idx = Some(idx);
        self.playing_song = if idx < queue.len() { Some(clone_track(&queue[idx])) } else { None };
        let mut effects: Vec<Effect> = Vec::new();
        effects.push(Effect::Send(MusicStreamEvent::NewPlaylistEvent(queue, idx)));
        assert(effects_view(effects@) =~= seq![EffectView::Playlist(q0, idx)]);
        effects
    }

    /// `h`: the previous track of the queue.
    pub fn prev_song(&mut self) -> (effects: Vec<Effect>)
        requires
            !(old(self).song_queue is Some && old(self).playing_song_idx is None),
        ensures
            (final(self)@, effects_view(effects@)) == prev_song(old(self)@),
    {
        if self.song_queue.is_none() {
            return Vec::new();
        }
        let cur = match self.playing_song_idx { Some(i) => i, None => 0 };
        match crate::nav::prev_index(cur) {
            None => Vec::new(),
            Some(i) => self.jump_to(i),
        }
    }

    /// `l`: the next track of the queue.
    pub fn next_song(&mut self) -> (effects: Vec<Effect>)
        requires
            !(old(self).song_queue is Some && old(self).playing_song_idx is None),
        ensures
            (final(self)@, effects_view(effects@)) == next_song(old(self)@),
    {
        let len = match &self.song_queue {
            None => { return Vec::new(); },
            Some(q) => q.len(),
        };
        let cur = match self.playing_song_idx { Some(i) => i, None => 0 };
        match crate::nav::next_index(cur, len) {
            None => Vec::new(),
            Some(i) => self.jump_to(i),
        }
    }

    /// The time played so far, in milliseconds, at `now`; `None` where it
    /// does not fit in a counter.
    pub fn get_time_elapsed(&self, now: u64) -> (r: Option<u64>)
        ensures
            match r {
                Some(v) => v == elapsed_ms(self@, now),
                None => elapsed_ms(self@, now) > u64::MAX,
            },
    {
        let start = match self.play_start { Some(t) => t, None => now };
        let since = if now >= start { now - start } else { 0 };
        self.elapsed_before_paused.checked_add(since)
    }
}

} // verus!
