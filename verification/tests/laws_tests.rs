use music::app::{App, Effect, Key};
use music::art::{decode_cover, CoverCache};
use music::display::{list_title, row_highlighted};
use music::library::builder;
use music::nav::{
    apply_add_label, apply_duration_played, apply_last_played, apply_wipe_labels, clamp_cursor_decrement,
    clamp_cursor_increment, next_index, parse_command_args, prev_index,
};
use music::player::{Player, PlayerAction, PlayerInput};
use music::search::filter_tracks;
use music::sort::sort_tracks;
use music::track::{Album, TrackDetails};
use music::types::{Label, LocalTrackUpdateType, MusicStreamEvent, SongPath, VimMode};
use ratatui_image::picker::Picker;
use std::sync::{Arc, RwLock};

fn track(artist: &str, album: &str, title: &str, path: &str) -> TrackDetails {
    TrackDetails {
        artist: artist.to_string(),
        album: album.to_string(),
        title: title.to_string(),
        track_no: 1,
        date: "2020".to_string(),
        song_path: path.to_string(),
        duration: 180,
        stats: (0, 0, 0),
        tags: Vec::new(),
    }
}

fn lists() -> (Vec<TrackDetails>, Vec<Album>) {
    let songs = vec![track("A", "X", "one", "/1.mp3"), track("A", "X", "two", "/2.mp3")];
    let albums = vec![Album::new("A".to_string(), "X".to_string(), "2020".to_string(), songs.clone(), (0, 0, 0))];
    (songs, albums)
}

#[test]
fn next_then_prev_returns() {
    assert_eq!(next_index(1, 3), Some(2));
    assert_eq!(prev_index(2), Some(1));
    assert_eq!(prev_index(1), Some(0));
    assert_eq!(next_index(0, 3), Some(1));
}

#[test]
fn cursor_stays_on_list_and_down_up_returns() {
    assert!(clamp_cursor_increment(4, 5) < 5);
    assert!(clamp_cursor_decrement(4) < 5);
    assert_eq!(clamp_cursor_decrement(clamp_cursor_increment(2, 5)), 2);
}

#[test]
fn command_line_splits_into_its_words() {
    assert_eq!(parse_command_args("sort date_added"), Some(("sort", "date_added")));
}

#[test]
fn searching_a_result_again_keeps_it() {
    let lib = vec![track("Radiohead", "Kid A", "Idioteque", "/a"), track("Björk", "Post", "Army of Me", "/b")];
    let once = filter_tracks(&lib, "o");
    let twice = filter_tracks(&once, "o");
    assert_eq!(once, twice);
    assert_eq!(filter_tracks(&lib, "").len(), 2);
}

#[test]
fn recording_a_start_twice_is_recording_it_once() {
    let (mut songs, mut albums) = lists();
    apply_last_played(&mut songs, &mut albums, "/2.mp3", 77);
    let (once_songs, once_albums) = (songs.clone(), albums.clone());
    apply_last_played(&mut songs, &mut albums, "/2.mp3", 77);
    assert_eq!(songs, once_songs);
    assert_eq!(albums, once_albums);
}

#[test]
fn durations_add_up() {
    let (mut songs, mut albums) = lists();
    apply_duration_played(&mut songs, &mut albums, "/1.mp3", 30);
    apply_duration_played(&mut songs, &mut albums, "/1.mp3", 12);
    let (mut songs2, mut albums2) = lists();
    apply_duration_played(&mut songs2, &mut albums2, "/1.mp3", 42);
    assert_eq!(songs, songs2);
    assert_eq!(albums, albums2);
    assert_eq!(songs[0].stats.1, 42);
}

#[test]
fn wiping_then_labelling_leaves_one_label() {
    let (mut songs, mut albums) = lists();
    songs[1].tags = vec![("old".to_string(), 3), ("older".to_string(), 1)];
    albums[0].songs[1].tags = vec![("old".to_string(), 3)];
    apply_wipe_labels(&mut songs, &mut albums, "/2.mp3");
    apply_add_label(&mut songs, &mut albums, "/2.mp3", "new");
    assert_eq!(songs[1].tags, vec![("new".to_string(), 0)]);
    assert_eq!(albums[0].songs[1].tags, vec![("new".to_string(), 0)]);
}

#[test]
fn sorting_is_determined_by_the_tracks() {
    let a = track("B", "Y", "t", "/b");
    let b = track("A", "Z", "u", "/a");
    let c = track("A", "Y", "v", "/c");
    let mut first = vec![a.clone(), b.clone(), c.clone()];
    let mut second = vec![c, a, b];
    sort_tracks(&mut first);
    sort_tracks(&mut second);
    assert_eq!(first, second);
}

#[test]
fn every_track_lands_in_its_album() {
    let tracks = vec![
        track("A", "X", "one", "/1"),
        track("B", "X", "two", "/2"),
        track("A", "X", "three", "/3"),
    ];
    let (albums, _) = builder(tracks.clone()).unwrap();
    for t in &tracks {
        let holders: Vec<&Album> = albums.iter().filter(|a| a.songs.iter().any(|s| s.song_path == t.song_path)).collect();
        assert_eq!(holders.len(), 1);
        assert_eq!(holders[0].artist, t.artist);
        assert_eq!(holders[0].album, t.album);
    }
}

fn browser() -> App {
    let (songs, albums) = lists();
    App::new(albums, songs, true, 0)
}

#[test]
fn esc_leaves_command_mode() {
    let mut app = browser();
    app.handle_key_event(Key::Char(':'), 0);
    app.handle_key_event(Key::Char('x'), 0);
    let effects = app.handle_key_event(Key::Esc, 0);
    assert!(effects.is_empty());
    assert_eq!(app.mode, VimMode::Normal);
    assert_eq!(app.user_buff, "");
}

#[test]
fn enter_plays_the_track_under_the_cursor_and_both_sides_agree() {
    let mut app = browser();
    app.handle_key_event(Key::Enter, 0);
    app.handle_key_event(Key::Char('j'), 0);
    let effects = app.handle_key_event(Key::Enter, 0);
    let ev = match effects.into_iter().next() {
        Some(Effect::Send(ev)) => ev,
        _ => panic!("expected a message to the player"),
    };
    let (mut player, actions) = Player::begin(Some(ev)).unwrap();
    assert_eq!(player.track_no, 1);
    let mut it = actions.into_iter();
    let notice = match it.next() {
        Some(PlayerAction::Notify(e)) => e,
        _ => panic!("expected a notice to the browser"),
    };
    assert!(matches!(it.next(), Some(PlayerAction::StartTrack(p)) if p == "/2.mp3"));
    app.handle_stream_event(notice, 1_000, 10).unwrap();
    assert_eq!(app.playing_song_idx, Some(player.track_no));
    assert_eq!(app.playing_song.as_ref().unwrap().song_path, "/2.mp3");

    // back to the first track, which then runs out: the player moves on and the browser follows
    let (q, _) = lists();
    let actions = player.step(PlayerInput::Message(MusicStreamEvent::NewPlaylistEvent(q, 0), 5));
    for a in actions {
        if let PlayerAction::Notify(e) = a {
            app.handle_stream_event(e, 2_000, 11).unwrap();
        }
    }
    let actions = player.step(PlayerInput::TimedOut);
    for a in actions {
        if let PlayerAction::Notify(e) = a {
            app.handle_stream_event(e, 3_000, 12).unwrap();
        }
    }
    assert_eq!(player.track_no, 1);
    assert_eq!(app.playing_song_idx, Some(1));
    assert_eq!(app.playing_song.as_ref().unwrap().song_path, player.playlist[1].song_path);
}

#[test]
fn a_label_goes_to_the_row_as_typed_and_to_the_library_as_given() {
    let mut app = browser();
    app.handle_key_event(Key::Enter, 0);
    app.user_buff = "typed".to_string();
    app.update_song_label_local(LocalTrackUpdateType::AddLabel(SongPath("/1.mp3".to_string()), Label("given".to_string())), 0);
    assert_eq!(app.page_songs[0].tags, vec![("typed".to_string(), 0)]);
    assert_eq!(app.all_songs_unfiltered[0].tags, vec![("given".to_string(), 0)]);
    assert_eq!(app.albums_unfiltered[0].songs[0].tags, vec![("given".to_string(), 0)]);
}

#[test]
fn list_titles_and_highlighted_rows() {
    assert_eq!(list_title(VimMode::Search, &"ab".to_string()), "Searching: ab");
    assert_eq!(list_title(VimMode::Command, &"x".to_string()), "cmd: x");
    assert_eq!(list_title(VimMode::Marking, &"".to_string()), "Marking: ");
    assert_eq!(list_title(VimMode::Normal, &"zz".to_string()), "Playlist");
    assert_eq!(list_title(VimMode::VisualLine, &"zz".to_string()), "V-LINE");
    assert!(row_highlighted(2, VimMode::VisualLine, Some(4), 1));
    assert!(row_highlighted(4, VimMode::VisualLine, Some(4), 6));
    assert!(!row_highlighted(7, VimMode::VisualLine, Some(4), 6));
    assert!(!row_highlighted(2, VimMode::Normal, None, 2));
}

#[test]
fn the_cover_cache_keeps_ten_albums_at_most() {
    let picker = Picker::halfblocks();
    let mut cache = CoverCache::new();
    let (songs, albums) = lists();
    let album = albums[0].clone();
    assert!(cache.wants(&album));
    let empty = Album::new("E".to_string(), "".to_string(), "".to_string(), Vec::new(), (0, 0, 0));
    assert!(!cache.wants(&empty));
    let picture = picker.new_resize_protocol(image::DynamicImage::new_rgb8(2, 2));
    cache.remember(album.clone(), (vec![1, 2, 3], Arc::new(RwLock::new(picture))));
    assert!(!cache.wants(&album));
    let (bytes, _) = cache.cover_of(&Some(album.clone())).unwrap();
    assert_eq!(bytes, vec![1, 2, 3]);
    assert!(cache.cover_of(&None).is_none());
    for i in 0..10 {
        let other = Album::new(format!("artist {i}"), "t".to_string(), "".to_string(), songs.clone(), (0, 0, 0));
        let picture = picker.new_resize_protocol(image::DynamicImage::new_rgb8(1, 1));
        cache.remember(other, (vec![i as u8], Arc::new(RwLock::new(picture))));
    }
    // the first album was used least recently and made room
    assert!(cache.wants(&album));
}

#[test]
fn the_cover_cache_drops_the_least_recently_used_album() {
    let picker = Picker::halfblocks();
    let mut cache = CoverCache::new();
    let (songs, _) = lists();
    let albums: Vec<Album> = (0..11)
        .map(|i| Album::new(format!("artist {i}"), "t".to_string(), "".to_string(), songs.clone(), (0, 0, 0)))
        .collect();
    for (i, a) in albums.iter().take(10).enumerate() {
        let picture = picker.new_resize_protocol(image::DynamicImage::new_rgb8(1, 1));
        cache.remember(a.clone(), (vec![i as u8], Arc::new(RwLock::new(picture))));
    }
    // looking the oldest album up makes it the most recently used
    let (bytes, _) = cache.cover_of(&Some(albums[0].clone())).unwrap();
    assert_eq!(bytes, vec![0]);
    let picture = picker.new_resize_protocol(image::DynamicImage::new_rgb8(1, 1));
    cache.remember(albums[10].clone(), (vec![10], Arc::new(RwLock::new(picture))));
    assert!(!cache.wants(&albums[0]));
    assert!(cache.wants(&albums[1]));
    assert!(!cache.wants(&albums[2]));
    assert!(!cache.wants(&albums[10]));
    // remembering a held album again replaces its cover
    let picture = picker.new_resize_protocol(image::DynamicImage::new_rgb8(1, 1));
    cache.remember(albums[2].clone(), (vec![42], Arc::new(RwLock::new(picture))));
    let (bytes, _) = cache.cover_of(&Some(albums[2].clone())).unwrap();
    assert_eq!(bytes, vec![42]);
}

fn png_bytes() -> Vec<u8> {
    let mut out = std::io::Cursor::new(Vec::new());
    image::DynamicImage::new_rgb8(2, 2).write_to(&mut out, image::ImageFormat::Png).unwrap();
    out.into_inner()
}

#[test]
fn covers_are_decoded_only_from_picture_bytes() {
    let picker = Picker::halfblocks();
    let png = png_bytes();
    let (bytes, _) = decode_cover(png.clone(), &picker).unwrap();
    assert_eq!(bytes, png);
    assert!(decode_cover(vec![1, 2, 3, 4], &picker).is_none());
    assert!(decode_cover(Vec::new(), &picker).is_none());
}

#[test]
fn fetched_covers_are_kept_for_their_album() {
    let picker = Picker::halfblocks();
    let mut cache = CoverCache::new();
    let (_, albums) = lists();
    let album = albums[0].clone();
    // bytes that are no picture: nothing shown, nothing kept
    assert!(cache.fetched(Some(album.clone()), b"not a picture".to_vec(), &picker).is_none());
    assert!(cache.wants(&album));
    // a picture for no album: shown, not kept
    let png = png_bytes();
    let (bytes, _) = cache.fetched(None, png.clone(), &picker).unwrap();
    assert_eq!(bytes, png);
    assert!(cache.wants(&album));
    // a picture for an album: shown and kept
    let (bytes, _) = cache.fetched(Some(album.clone()), png.clone(), &picker).unwrap();
    assert_eq!(bytes, png);
    assert!(!cache.wants(&album));
    let (kept, _) = cache.cover_of(&Some(album)).unwrap();
    assert_eq!(kept, png);
}

#[test]
fn copying_a_row_and_pasting_puts_the_copy_below_it() {
    let mut app = browser();
    app.handle_key_event(Key::Enter, 0);
    app.handle_key_event(Key::Char('y'), 10);
    app.handle_key_event(Key::Char('y'), 20);
    app.paste();
    let titles: Vec<&str> = app.page_songs.iter().map(|t| t.title.as_str()).collect();
    assert_eq!(titles, vec!["one", "one", "two"]);
}

#[test]
fn albums_sort_alike_from_any_arrangement() {
    let (songs, _) = lists();
    let a = Album::new("B".to_string(), "X".to_string(), "".to_string(), songs.clone(), (0, 0, 0));
    let b = Album::new("A".to_string(), "Y".to_string(), "".to_string(), songs.clone(), (0, 0, 0));
    let c = Album::new("A".to_string(), "X".to_string(), "".to_string(), Vec::new(), (0, 0, 0));
    let mut first = vec![a.clone(), b.clone(), c.clone()];
    let mut second = vec![c, b, a];
    music::sort::sort_albums(&mut first);
    music::sort::sort_albums(&mut second);
    assert_eq!(first, second);
    assert_eq!(first[0].album, "X");
    assert_eq!(first[0].artist, "A");
}
