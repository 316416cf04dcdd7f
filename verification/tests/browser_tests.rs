use music::app::{App, Effect, Key};
use music::player::{first_message_refused, input_refused, Player, PlayerAction, PlayerInput};
use music::track::{Album, TrackDetails};
use music::types::{DbUpdate, MusicStreamEvent, Page, PlaybackMode, VimMode};

fn track(artist: &str, album: &str, title: &str, path: &str) -> TrackDetails {
    TrackDetails {
        artist: artist.to_string(),
        album: album.to_string(),
        title: title.to_string(),
        track_no: 1,
        date: "2020".to_string(),
        song_path: path.to_string(),
        duration: 180,
        stats: (0, 0, 0),
        tags: Vec::new(),
    }
}

fn album_of(artist: &str, name: &str, songs: Vec<TrackDetails>) -> Album {
    Album::new(artist.to_string(), name.to_string(), "2020".to_string(), songs, (0, 0, 0))
}

fn browser() -> App {
    let a1 = track("Radiohead", "OK Computer", "Airbag", "/r/1.mp3");
    let a2 = track("Radiohead", "OK Computer", "Karma Police", "/r/2.mp3");
    let b1 = track("Pink Floyd", "The Wall", "Comfortably Numb", "/p/1.mp3");
    let albums = vec![
        album_of("Radiohead", "OK Computer", vec![a1.clone(), a2.clone()]),
        album_of("Pink Floyd", "The Wall", vec![b1.clone()]),
    ];
    App::new(albums, vec![a1, a2, b1], true, 1_000)
}

fn press(app: &mut App, key: Key, now: u64) -> Vec<Effect> {
    assert!(!app.key_would_panic(key, now));
    app.handle_key_event(key, now)
}

fn type_text(app: &mut App, text: &str, now: u64) {
    for c in text.chars() {
        press(app, Key::Char(c), now);
    }
}

#[test]
fn new_browser_starts_on_sorted_albums() {
    let app = browser();
    assert_eq!(app.page_albums[0].artist, "Pink Floyd");
    assert_eq!(app.page_albums[1].artist, "Radiohead");
    assert_eq!(app.all_songs_unfiltered[0].artist, "Pink Floyd");
    assert_eq!(app.viewer, Page::Albums);
    assert_eq!(app.mode, VimMode::Normal);
    assert_eq!(app.playback_mode, PlaybackMode::NotPlaying);
    assert_eq!(app.cursor, 0);
}

#[test]
fn j_and_k_move_and_stop_at_the_ends() {
    let mut app = browser();
    press(&mut app, Key::Char('j'), 0);
    assert_eq!(app.cursor, 1);
    assert_eq!(app.albums_cursor, 1);
    press(&mut app, Key::Char('j'), 0);
    assert_eq!(app.cursor, 1);
    press(&mut app, Key::Char('k'), 0);
    press(&mut app, Key::Char('k'), 0);
    assert_eq!(app.cursor, 0);
}

#[test]
fn gg_needs_two_quick_presses_and_g_goes_to_bottom() {
    let mut app = browser();
    press(&mut app, Key::Char('G'), 0);
    assert_eq!(app.cursor, 1);
    press(&mut app, Key::Char('g'), 1_000);
    assert_eq!(app.cursor, 1);
    press(&mut app, Key::Char('g'), 1_500);
    assert_eq!(app.cursor, 1, "presses 500 ms apart are two single presses");
    press(&mut app, Key::Char('g'), 1_700);
    assert_eq!(app.cursor, 0);
}

#[test]
fn enter_opens_an_album_and_then_plays_a_track() {
    let mut app = browser();
    press(&mut app, Key::Char('j'), 0);
    let effects = press(&mut app, Key::Enter, 0);
    assert_eq!(app.viewer, Page::Songs);
    assert_eq!(app.page_songs.len(), 2);
    assert_eq!(app.page_songs_unfiltered.len(), 2);
    assert_eq!(app.cursor, 0);
    assert!(matches!(&effects[..], [Effect::Preload(a)] if a.album == "OK Computer"));
    press(&mut app, Key::Char('j'), 0);
    let effects = press(&mut app, Key::Enter, 0);
    match &effects[..] {
        [Effect::Send(MusicStreamEvent::NewPlaylistEvent(q, i))] => {
            assert_eq!(q.len(), 2);
            assert_eq!(*i, 1);
            assert_eq!(q[1].title, "Karma Police");
        }
        _ => panic!("expected a new queue"),
    }
}

#[test]
fn enter_opens_an_album_while_the_track_list_is_empty() {
    let mut app = browser();
    app.page_songs = Vec::new();
    let effects = press(&mut app, Key::Enter, 0);
    assert_eq!(app.viewer, Page::Songs);
    assert_eq!(app.page_songs.len(), 1);
    assert_eq!(app.page_songs[0].title, "Comfortably Numb");
    assert!(matches!(&effects[..], [Effect::Preload(a)] if a.album == "The Wall"));
}

#[test]
fn enter_on_an_empty_track_list_does_nothing() {
    let mut app = browser();
    press(&mut app, Key::Enter, 0);
    app.page_songs = Vec::new();
    let effects = press(&mut app, Key::Enter, 0);
    assert!(effects.is_empty());
    assert_eq!(app.viewer, Page::Songs);
    app.viewer = Page::Albums;
    app.page_albums = Vec::new();
    app.page_songs = app.all_songs.clone();
    let effects = press(&mut app, Key::Enter, 0);
    assert!(effects.is_empty());
    assert_eq!(app.viewer, Page::Albums);
}

#[test]
fn an_emptied_search_shows_the_whole_list_again() {
    let mut app = browser();
    press(&mut app, Key::Char('/'), 0);
    type_text(&mut app, "wa", 0);
    assert_eq!(app.page_albums.len(), 1);
    press(&mut app, Key::Backspace, 0);
    press(&mut app, Key::Backspace, 0);
    assert_eq!(app.mode, VimMode::Search);
    assert_eq!(app.page_albums.len(), 2);
    press(&mut app, Key::Esc, 0);
    press(&mut app, Key::Char('/'), 0);
    press(&mut app, Key::Char('*'), 0);
    assert_eq!(app.viewer, Page::Search);
    assert_eq!(app.page_songs.len(), 3);
}

#[test]
fn esc_returns_to_all_albums() {
    let mut app = browser();
    press(&mut app, Key::Char('j'), 0);
    press(&mut app, Key::Enter, 0);
    press(&mut app, Key::Esc, 0);
    assert_eq!(app.viewer, Page::Albums);
    assert_eq!(app.cursor, 1);
    assert!(app.album_selected.is_none());
    assert_eq!(app.page_albums.len(), 2);
}

#[test]
fn searching_albums_and_leaving_the_search() {
    let mut app = browser();
    press(&mut app, Key::Char('/'), 0);
    assert_eq!(app.mode, VimMode::Search);
    type_text(&mut app, "WALL", 0);
    assert_eq!(app.page_albums.len(), 1);
    assert_eq!(app.page_albums[0].artist, "Pink Floyd");
    press(&mut app, Key::Backspace, 0);
    assert_eq!(app.user_buff, "WAL");
    press(&mut app, Key::Esc, 0);
    assert_eq!(app.mode, VimMode::Normal);
    assert_eq!(app.user_buff, "");
    assert_eq!(app.page_albums.len(), 2);
}

#[test]
fn a_star_searches_the_whole_library() {
    let mut app = browser();
    press(&mut app, Key::Char('/'), 0);
    type_text(&mut app, "*karma", 0);
    assert_eq!(app.viewer, Page::Search);
    assert_eq!(app.page_songs.len(), 1);
    assert_eq!(app.page_songs[0].title, "Karma Police");
    press(&mut app, Key::Enter, 0);
    assert_eq!(app.mode, VimMode::Normal);
    assert_eq!(app.page_songs.len(), 1);
}

#[test]
fn a_search_starting_with_a_wide_character_is_refused_on_the_search_page() {
    let mut app = browser();
    press(&mut app, Key::Char('/'), 0);
    type_text(&mut app, "*k", 0);
    press(&mut app, Key::Enter, 0);
    assert_eq!(app.viewer, Page::Search);
    press(&mut app, Key::Char('/'), 0);
    assert!(app.key_would_panic(Key::Char('é'), 0));
    assert!(!app.key_would_panic(Key::Char('a'), 0));
    assert!(app.key_would_panic(Key::Backspace, 0) == false);
}

#[test]
fn sort_command_orders_the_list_shown() {
    let mut app = browser();
    app.page_albums[0].stats = (0, 5, 0);
    app.page_albums[1].stats = (0, 9, 0);
    press(&mut app, Key::Char(':'), 0);
    type_text(&mut app, "sort duration_played", 0);
    press(&mut app, Key::Enter, 0);
    assert_eq!(app.mode, VimMode::Normal);
    assert_eq!(app.user_buff, "");
    assert_eq!(app.page_albums[0].artist, "Radiohead");
    press(&mut app, Key::Char(':'), 0);
    type_text(&mut app, "sort x", 0);
    press(&mut app, Key::Enter, 0);
    assert_eq!(app.page_albums[0].artist, "Pink Floyd");
    press(&mut app, Key::Char(':'), 0);
    type_text(&mut app, "bogus", 0);
    press(&mut app, Key::Enter, 0);
    assert_eq!(app.page_albums[0].artist, "Pink Floyd");
}

#[test]
fn yank_delete_and_paste_rows() {
    let mut app = browser();
    press(&mut app, Key::Char('j'), 0);
    press(&mut app, Key::Enter, 0);
    press(&mut app, Key::Char('d'), 100);
    press(&mut app, Key::Char('d'), 200);
    assert_eq!(app.page_songs.len(), 1);
    assert_eq!(app.yank_buff.len(), 1);
    assert_eq!(app.yank_buff[0].title, "Airbag");
    app.paste();
    assert_eq!(app.page_songs.len(), 2);
    assert_eq!(app.page_songs[1].title, "Airbag");
    press(&mut app, Key::Char('y'), 300);
    press(&mut app, Key::Char('y'), 400);
    assert_eq!(app.yank_buff[0].title, "Karma Police");
}

#[test]
fn visual_line_cuts_a_range() {
    let mut app = browser();
    press(&mut app, Key::Char('j'), 0);
    press(&mut app, Key::Enter, 0);
    press(&mut app, Key::Char('V'), 0);
    press(&mut app, Key::Char('j'), 0);
    press(&mut app, Key::Char('d'), 0);
    assert_eq!(app.mode, VimMode::Normal);
    assert_eq!(app.yank_buff.len(), 2);
    assert!(app.page_songs.is_empty());
    assert_eq!(app.cursor, 0);
}

#[test]
fn visual_line_on_albums_is_refused() {
    let mut app = browser();
    press(&mut app, Key::Char('V'), 0);
    assert!(app.key_would_panic(Key::Char('y'), 0));
}

#[test]
fn marking_adds_and_wipes_labels() {
    let mut app = browser();
    press(&mut app, Key::Char('j'), 0);
    press(&mut app, Key::Enter, 0);
    press(&mut app, Key::Char('m'), 0);
    assert_eq!(app.mode, VimMode::Marking);
    type_text(&mut app, "gym", 0);
    let effects = press(&mut app, Key::Enter, 0);
    assert!(matches!(&effects[..], [Effect::AddLabel(p, l)] if p == "/r/1.mp3" && l == "gym"));
    assert_eq!(app.page_songs[0].tags, vec![("gym".to_string(), 0)]);
    let i = app.all_songs_unfiltered.iter().position(|t| t.song_path == "/r/1.mp3").unwrap();
    assert_eq!(app.all_songs_unfiltered[i].tags, vec![("gym".to_string(), 0)]);
    assert_eq!(app.mode, VimMode::Normal);
    press(&mut app, Key::Char('m'), 0);
    let effects = press(&mut app, Key::Delete, 0);
    assert!(matches!(&effects[..], [Effect::WipeLabels(p)] if p == "/r/1.mp3"));
    assert!(app.page_songs[0].tags.is_empty());
    assert!(app.all_songs_unfiltered[i].tags.is_empty());
}

#[test]
fn m_on_the_albums_page_stays_in_normal_mode() {
    let mut app = browser();
    press(&mut app, Key::Char('m'), 0);
    assert_eq!(app.mode, VimMode::Normal);
}

#[test]
fn q_exits() {
    let mut app = browser();
    press(&mut app, Key::Char('q'), 0);
    assert!(app.exit);
}

fn playing_browser() -> App {
    let mut app = browser();
    press(&mut app, Key::Char('j'), 0);
    press(&mut app, Key::Enter, 0);
    let queue = app.page_songs.clone();
    let effects = app.handle_stream_event(MusicStreamEvent::NewPlaylistEvent(queue, 0), 10_000, 555).unwrap();
    assert!(matches!(&effects[..], [Effect::Record(DbUpdate::LastPlayed(p)), Effect::RefreshArt] if p == "/r/1.mp3"));
    app
}

#[test]
fn a_new_queue_starts_playing_and_records_the_start() {
    let app = playing_browser();
    assert_eq!(app.playback_mode, PlaybackMode::Playing);
    assert_eq!(app.playing_song_idx, Some(0));
    assert_eq!(app.playing_song.as_ref().unwrap().title, "Airbag");
    assert_eq!(app.play_start, Some(10_000));
    assert_eq!(app.page_songs[0].stats.0, 555);
    let r = app.albums_unfiltered.iter().find(|a| a.artist == "Radiohead").unwrap();
    assert_eq!(r.stats.0, 555);
    assert_eq!(r.songs[0].stats.0, 555);
}

#[test]
fn pause_and_resume_count_only_time_played() {
    let mut app = playing_browser();
    let effects = press(&mut app, Key::Char(' '), 14_000);
    assert!(matches!(&effects[..], [Effect::Send(MusicStreamEvent::PlaybackEvent(PlaybackMode::Paused, 0))]));
    assert_eq!(app.playback_mode, PlaybackMode::Paused);
    assert_eq!(app.get_time_elapsed(20_000), Some(4_000));
    let effects = press(&mut app, Key::Char('p'), 30_000);
    assert!(matches!(&effects[..], [Effect::Send(MusicStreamEvent::PlaybackEvent(PlaybackMode::Playing, 0))]));
    assert_eq!(app.get_time_elapsed(31_000), Some(5_000));
}

#[test]
fn choosing_another_queue_records_the_time_played() {
    let mut app = playing_browser();
    let queue = app.page_songs.clone();
    let effects = app.handle_stream_event(MusicStreamEvent::NewPlaylistEvent(queue, 1), 75_500, 600).unwrap();
    match &effects[..] {
        [Effect::Record(DbUpdate::DurationPlayed(p, d)), Effect::Record(DbUpdate::LastPlayed(q)), Effect::RefreshArt] => {
            assert_eq!(p, "/r/1.mp3");
            assert_eq!(*d, 65);
            assert_eq!(q, "/r/2.mp3");
        }
        _ => panic!("unexpected effects"),
    }
    let r = app.albums_unfiltered.iter().find(|a| a.artist == "Radiohead").unwrap();
    assert_eq!(r.stats.1, 65);
    assert_eq!(app.playing_song_idx, Some(1));
}

#[test]
fn h_and_l_step_through_the_queue() {
    let mut app = playing_browser();
    assert!(press(&mut app, Key::Char('h'), 0).is_empty());
    let effects = press(&mut app, Key::Char('l'), 0);
    assert!(matches!(&effects[..], [Effect::Send(MusicStreamEvent::NewPlaylistEvent(_, 1))]));
    assert_eq!(app.playing_song_idx, Some(1));
    assert!(press(&mut app, Key::Char('l'), 0).is_empty());
    press(&mut app, Key::Char('h'), 0);
    assert_eq!(app.playing_song_idx, Some(0));
    assert_eq!(app.playing_song.as_ref().unwrap().title, "Airbag");
}

#[test]
fn an_advanced_track_counts_the_whole_previous_track() {
    let mut app = playing_browser();
    let next = app.page_songs[1].clone();
    let effects = app.handle_stream_event(MusicStreamEvent::TrackAutoAdvanced(next, 1), 200_000, 0).unwrap();
    assert!(matches!(&effects[..], [Effect::Record(DbUpdate::DurationPlayed(p, 180)), Effect::RefreshArt] if p == "/r/1.mp3"));
    assert_eq!(app.playing_song_idx, Some(1));
    assert_eq!(app.page_songs[0].stats.1, 180);
    assert_eq!(app.play_start, Some(200_000));
}

#[test]
fn a_playback_message_is_not_for_the_browser() {
    let mut app = browser();
    assert!(app.handle_stream_event(MusicStreamEvent::PlaybackEvent(PlaybackMode::Paused, 0), 0, 0).is_none());
}

#[test]
fn an_advance_without_a_queue_is_refused() {
    let mut app = browser();
    let t = track("x", "y", "z", "/z.mp3");
    assert!(app.handle_stream_event(MusicStreamEvent::TrackAutoAdvanced(t, 1), 0, 0).is_none());
}

fn queue() -> Vec<TrackDetails> {
    let mut a = track("A", "X", "one", "/1.mp3");
    a.duration = 3;
    let mut b = track("A", "X", "two", "/2.mp3");
    b.duration = 4;
    vec![a, b]
}

#[test]
fn the_player_starts_only_on_a_queue() {
    assert!(Player::begin(None).is_none());
    assert!(Player::begin(Some(MusicStreamEvent::PlaybackEvent(PlaybackMode::Playing, 0))).is_none());
    let (p, actions) = Player::begin(Some(MusicStreamEvent::NewPlaylistEvent(queue(), 1))).unwrap();
    assert_eq!(p.track_no, 1);
    assert_eq!(p.remaining_ms, 4_000);
    assert!(!p.is_paused);
    assert!(matches!(&actions[..], [PlayerAction::Notify(MusicStreamEvent::NewPlaylistEvent(_, 1)), PlayerAction::StartTrack(path)] if path == "/2.mp3"));
    assert!(first_message_refused(&Some(MusicStreamEvent::NewPlaylistEvent(queue(), 2))));
}

#[test]
fn the_player_pauses_resumes_and_moves_on() {
    let (mut p, _) = Player::begin(Some(MusicStreamEvent::NewPlaylistEvent(queue(), 0))).unwrap();
    assert_eq!(p.wait_limit(), Some(3_000));
    let a = p.step(PlayerInput::Message(MusicStreamEvent::PlaybackEvent(PlaybackMode::Paused, 0), 1_200));
    assert!(matches!(&a[..], [PlayerAction::Pause]));
    assert_eq!(p.remaining_ms, 1_800);
    assert_eq!(p.wait_limit(), None);
    let a = p.step(PlayerInput::Message(MusicStreamEvent::PlaybackEvent(PlaybackMode::Playing, 0), 60_000));
    assert!(matches!(&a[..], [PlayerAction::Resume]));
    assert_eq!(p.wait_limit(), Some(1_800));
    let a = p.step(PlayerInput::TimedOut);
    assert!(matches!(&a[..], [PlayerAction::Notify(MusicStreamEvent::TrackAutoAdvanced(t, 1)), PlayerAction::StartTrack(path)] if t.title == "two" && path == "/2.mp3"));
    assert_eq!(p.track_no, 1);
    assert_eq!(p.remaining_ms, 4_000);
    let a = p.step(PlayerInput::TimedOut);
    assert!(matches!(&a[..], [PlayerAction::Stopped]));
    assert_eq!(p.track_no, 1);
    assert!(p.step(PlayerInput::Closed).is_empty());
}

#[test]
fn pausing_longer_than_the_track_leaves_no_time() {
    let (mut p, _) = Player::begin(Some(MusicStreamEvent::NewPlaylistEvent(queue(), 0))).unwrap();
    p.step(PlayerInput::Message(MusicStreamEvent::PlaybackEvent(PlaybackMode::Paused, 0), 9_000));
    assert_eq!(p.remaining_ms, 0);
}

#[test]
fn the_player_refuses_its_own_messages() {
    let t = track("A", "X", "one", "/1.mp3");
    assert!(input_refused(&PlayerInput::Message(MusicStreamEvent::TrackAutoAdvanced(t, 0), 0)));
    assert!(input_refused(&PlayerInput::Message(MusicStreamEvent::NewPlaylistEvent(queue(), 5), 0)));
    assert!(!input_refused(&PlayerInput::TimedOut));
}

#[test]
fn run_command_sorts_only_for_sort() {
    let mut app = browser();
    app.page_albums[0].stats = (3, 0, 0);
    app.page_albums[1].stats = (8, 0, 0);
    app.run_command("order", "last_played");
    assert_eq!(app.page_albums[0].artist, "Pink Floyd");
    app.run_command("sort", "last_played");
    assert_eq!(app.page_albums[0].artist, "Radiohead");
    app.user_buff = "sort nothing".to_string();
    app.parse_command();
    assert_eq!(app.page_albums[0].artist, "Pink Floyd");
    assert_eq!(app.user_buff, "sort nothing");
}

#[test]
fn sorting_tracks_by_date_added_on_a_track_page() {
    let mut app = browser();
    press(&mut app, Key::Char('j'), 0);
    press(&mut app, Key::Enter, 0);
    app.page_songs[0].stats = (0, 0, 1);
    app.page_songs[1].stats = (0, 0, 9);
    press(&mut app, Key::Char(':'), 0);
    type_text(&mut app, "sort date_added", 0);
    press(&mut app, Key::Enter, 0);
    assert_eq!(app.page_songs[0].title, "Karma Police");
    assert_eq!(app.viewer, Page::Songs);
}

#[test]
fn enter_in_visual_line_runs_the_command_and_shows_albums() {
    let mut app = browser();
    press(&mut app, Key::Char('j'), 0);
    press(&mut app, Key::Enter, 0);
    press(&mut app, Key::Char('V'), 0);
    press(&mut app, Key::Enter, 0);
    assert_eq!(app.mode, VimMode::Normal);
    assert_eq!(app.viewer, Page::Albums);
}
