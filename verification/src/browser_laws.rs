use vstd::prelude::*;
use crate::track::{TrackDetails, tracks_view};
use crate::types::{VimMode, PlaybackMode, Page, MusicStreamEvent};
use crate::app::{
    AppView, EffectView, Key, key_step, key_panics, shown_len, moved_down, moved_up, toggled, elapsed_ms, since, prev_song, next_song,
    normal_next, second_press, entered, stream_next, yanked_row, pasted,
};
use crate::player::{PlayerView, PlayerInput, PlayerActionView, player_next};

verus! {

/// Esc leaves every input mode: the browser is back in normal mode with an
/// empty buffer, and nothing is asked of its surroundings.
pub proof fn law_esc_returns_to_normal(s: AppView, now: u64, new: AppView, effects: Seq<EffectView>)
    requires
        key_step(s, Key::Esc, now, new, effects),
    ensures
        new.mode == VimMode::Normal,
        new.user_buff == Seq::<char>::empty(),
        effects == Seq::<EffectView>::empty(),
{
}

/// Esc in normal mode goes back to all albums: every album is shown again,
/// whatever a search had kept, on the albums page with no album selected.
pub proof fn law_esc_shows_every_album(s: AppView, now: u64, new: AppView, effects: Seq<EffectView>)
    requires
        s.mode == VimMode::Normal,
        key_step(s, Key::Esc, now, new, effects),
    ensures
        new.page_albums == s.albums_unfiltered,
        new.viewer == Page::Albums,
        new.album_selected is None,
        new.cursor == s.albums_cursor,
{
}

/// `k` in normal mode moves the cursor one row up on every page, and stays
/// on the first row.
pub proof fn law_k_moves_up_one_row(s: AppView, now: u64, new: AppView, effects: Seq<EffectView>)
    requires
        s.mode == VimMode::Normal,
        key_step(s, Key::Char('k'), now, new, effects),
    ensures
        s.cursor > 0 ==> new.cursor == s.cursor - 1,
        s.cursor == 0 ==> new.cursor == 0,
        new.viewer == s.viewer,
        effects == Seq::<EffectView>::empty(),
{
}

/// `j` in normal mode moves the cursor one row down on every page while a
/// row lies below it.
pub proof fn law_j_moves_down_one_row(s: AppView, now: u64, new: AppView, effects: Seq<EffectView>)
    requires
        s.mode == VimMode::Normal,
        s.cursor + 1 < shown_len(s),
        !key_panics(s, Key::Char('j'), now),
        key_step(s, Key::Char('j'), now, new, effects),
    ensures
        new.cursor == s.cursor + 1,
        new.viewer == s.viewer,
        effects == Seq::<EffectView>::empty(),
{
}

/// On a track page, `yy` copies the track under the cursor and leaves the
/// list as it is.
pub proof fn law_yy_copies_the_row(s: AppView, now: u64, copied: AppView, effects: Seq<EffectView>)
    requires
        s.mode == VimMode::Normal,
        s.viewer != Page::Albums,
        s.cursor < s.page_songs.len(),
        second_press(s, 'y', now),
        key_step(s, Key::Char('y'), now, copied, effects),
    ensures
        copied.yank_buff == seq![s.page_songs[s.cursor as int]],
        copied.page_songs == s.page_songs,
{
}

/// On a track page, `dd` cuts the track under the cursor: it is copied, and
/// the list loses exactly that row.
pub proof fn law_dd_cuts_the_row(s: AppView, now: u64, cut: AppView, effects: Seq<EffectView>)
    requires
        s.mode == VimMode::Normal,
        s.viewer != Page::Albums,
        s.cursor < s.page_songs.len(),
        second_press(s, 'd', now),
        key_step(s, Key::Char('d'), now, cut, effects),
    ensures
        cut.yank_buff == seq![s.page_songs[s.cursor as int]],
        cut.page_songs == s.page_songs.take(s.cursor as int) + s.page_songs.skip(s.cursor + 1),
{
    assert(s.page_songs.remove(s.cursor as int) =~= s.page_songs.take(s.cursor as int) + s.page_songs.skip(s.cursor + 1));
}

/// In visual-line mode, `y` copies exactly the rows between the anchor and
/// the cursor (both included) and leaves the list as it is; `d` cuts those
/// same rows: the copy is the same, and the list keeps the rows around them.
pub proof fn law_visual_copy_and_cut_take_the_selection(s: AppView, b: usize, now: u64,
    copied: AppView, e1: Seq<EffectView>, cut: AppView, e2: Seq<EffectView>)
    requires
        s.mode == VimMode::VisualLine,
        s.vline_begin == Some(b),
        key_step(s, Key::Char('y'), now, copied, e1),
        key_step(s, Key::Char('d'), now, cut, e2),
    ensures
        ({
            let lo: int = if b < s.cursor { b as int } else { s.cursor as int };
            let hi: int = if b > s.cursor { b as int } else { s.cursor + 1 };
            &&& copied.yank_buff == s.page_songs.subrange(lo, hi)
            &&& copied.page_songs == s.page_songs
            &&& cut.yank_buff == copied.yank_buff
            &&& cut.page_songs == s.page_songs.take(lo) + s.page_songs.skip(hi)
            &&& copied.mode == VimMode::Normal && cut.mode == VimMode::Normal
        }),
{
}

/// Esc during a search shows the whole list that was being searched again:
/// all albums, all tracks of the album, or all tracks of the library.
pub proof fn law_esc_ends_search(s: AppView, now: u64, new: AppView, effects: Seq<EffectView>)
    requires
        s.mode == VimMode::Search,
        key_step(s, Key::Esc, now, new, effects),
    ensures
        new.viewer == s.viewer,
        new.cursor == 0,
        s.viewer == Page::Albums ==> new.page_albums == s.albums_unfiltered,
        s.viewer == Page::Songs ==> new.page_songs == s.page_songs_unfiltered,
        s.viewer == Page::Search ==> new.page_songs == s.all_songs_unfiltered,
{
}

/// Enter during a search keeps the tracks or albums the search selected as
/// the list shown and returns to normal mode.
pub proof fn law_enter_keeps_search_result(s: AppView, now: u64, new: AppView, effects: Seq<EffectView>)
    requires
        s.mode == VimMode::Search,
        key_step(s, Key::Enter, now, new, effects),
    ensures
        new.page_songs == s.page_songs,
        new.page_albums == s.page_albums,
        new.viewer == s.viewer,
        new.mode == VimMode::Normal,
        new.cursor == 0,
{
}

/// `j` and `k` keep the cursor on the list shown.
pub proof fn law_cursor_stays_on_shown_list(s: AppView)
    requires
        s.cursor < shown_len(s),
    ensures
        moved_down(s).cursor < shown_len(moved_down(s)),
        moved_up(s).cursor < shown_len(moved_up(s)),
{
}

/// `gg` moves the cursor to the top of the list and `G` to its bottom.
pub proof fn law_top_and_bottom(s: AppView, now: u64)
    requires
        s.mode == VimMode::Normal,
        0 < shown_len(s) <= usize::MAX,
    ensures
        second_press(s, 'g', now) ==> normal_next(s, Key::Char('g'), now).0.cursor == 0,
        normal_next(s, Key::Char('G'), now).0.cursor == shown_len(s) - 1,
{
}

/// Time spent paused does not count as time played: pausing at `t1` and
/// resuming at `t2` leaves, at any later `t3`, the time played before the
/// pause plus the time since the resume.
pub proof fn law_paused_time_not_counted(s: AppView, t1: u64, t2: u64, t3: u64)
    requires
        s.playback_mode == PlaybackMode::Playing,
        s.play_start matches Some(t0) && t0 <= t1,
        t1 <= t2 <= t3,
        s.elapsed_before_paused + since(t1, s.play_start->Some_0) <= u64::MAX,
    ensures
        ({
            let paused = toggled(s, t1).0;
            let resumed = toggled(paused, t2).0;
            &&& paused.playback_mode == PlaybackMode::Paused
            &&& resumed.playback_mode == PlaybackMode::Playing
            &&& elapsed_ms(resumed, t3) == elapsed_ms(s, t1) + (t3 - t2)
        }),
{
}

/// `h` then `l` comes back to the track that was playing.
pub proof fn law_prev_then_next(s: AppView)
    requires
        s.song_queue is Some,
        s.playing_song_idx matches Some(i) && 0 < i < s.song_queue->Some_0.len(),
    ensures
        ({
            let i = s.playing_song_idx->Some_0;
            let back = prev_song(s).0;
            let forth = next_song(back).0;
            &&& forth.playing_song_idx == Some(i)
            &&& forth.playing_song == Some(s.song_queue->Some_0[i as int])
            &&& forth.song_queue == s.song_queue
        }),
{
}

/// Pasting after copying the row under the cursor places a copy of that
/// row just below it.
pub proof fn law_yank_then_paste(s: AppView)
    requires
        s.viewer != Page::Albums,
        s.cursor < s.page_songs.len(),
    ensures
        pasted(yanked_row(s)).page_songs == s.page_songs.take(s.cursor + 1) + seq![s.page_songs[s.cursor as int]]
            + s.page_songs.skip(s.cursor + 1),
{
}

/// Enter on the albums page opens the album under the cursor, whatever the
/// track list held: its tracks become the list shown, from the top, and its
/// cover is asked for.
pub proof fn law_enter_opens_album_under_cursor(s: AppView)
    requires
        s.viewer == Page::Albums,
        s.cursor < s.page_albums.len(),
    ensures
        ({
            let a = s.page_albums[s.cursor as int];
            let (s2, effects) = entered(s);
            &&& s2.viewer == Page::Songs
            &&& s2.album_selected == Some(a)
            &&& s2.page_songs == a.songs
            &&& s2.page_songs_unfiltered == a.songs
            &&& s2.cursor == 0
            &&& effects == seq![EffectView::Preload(a)]
        }),
{
}

/// Enter on a track list plays the track under the cursor: the browser
/// hands the list and the cursor to the player, which starts that track.
pub proof fn law_enter_plays_track_under_cursor(s: AppView, queue: Vec<TrackDetails>, p: PlayerView, waited: u64)
    requires
        s.viewer != Page::Albums,
        s.cursor < s.page_songs.len(),
        tracks_view(queue@) == s.page_songs,
    ensures
        entered(s).1 == seq![EffectView::Playlist(s.page_songs, s.cursor)],
        ({
            let (p2, actions) = player_next(p, &PlayerInput::Message(MusicStreamEvent::NewPlaylistEvent(queue, s.cursor), waited));
            &&& p2.track_no == s.cursor
            &&& p2.playlist == s.page_songs
            &&& actions[1] == PlayerActionView::StartTrack(s.page_songs[s.cursor as int].song_path)
        }),
{
}

/// When the player takes up a new queue, the browser, told of it, shows as
/// playing the queue and the track the player plays.
pub proof fn law_new_queue_in_step(p: PlayerView, queue: Vec<TrackDetails>, i: usize, waited: u64, s: AppView, now: u64, wall: u64)
    requires
        i < queue@.len(),
    ensures
        ({
            let (p2, actions) = player_next(p, &PlayerInput::Message(MusicStreamEvent::NewPlaylistEvent(queue, i), waited));
            let (s2, _) = stream_next(s, &MusicStreamEvent::NewPlaylistEvent(queue, i), now, wall);
            &&& actions[0] == PlayerActionView::NotifyPlaylist(p2.playlist, p2.track_no)
            &&& s2.song_queue == Some(p2.playlist)
            &&& s2.playing_song_idx == Some(p2.track_no)
            &&& s2.playing_song == Some(p2.playlist[p2.track_no as int])
            &&& s2.playback_mode == PlaybackMode::Playing
        }),
{
}

/// When a track runs out and the player moves on, the browser, told of it,
/// shows as playing the track the player now plays.
pub proof fn law_advance_in_step(p: PlayerView, s: AppView, track: TrackDetails, now: u64, wall: u64)
    requires
        p.wf(),
        p.track_no + 1 < p.playlist.len() <= usize::MAX,
        s.song_queue == Some(p.playlist),
        s.playing_song_idx == Some(p.track_no),
        track@ == p.playlist[p.track_no + 1],
    ensures
        ({
            let (p2, actions) = player_next(p, &PlayerInput::TimedOut);
            let (s2, _) = stream_next(s, &MusicStreamEvent::TrackAutoAdvanced(track, p2.track_no), now, wall);
            &&& actions[0] == PlayerActionView::NotifyAdvanced(track@, p2.track_no)
            &&& s2.song_queue == Some(p2.playlist)
            &&& s2.playing_song_idx == Some(p2.track_no)
            &&& s2.playing_song == Some(p2.playlist[p2.track_no as int])
        }),
{
}

} // verus!
