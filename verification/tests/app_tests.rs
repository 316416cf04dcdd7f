use music::nav::{
    apply_add_label, apply_duration_played, apply_last_played, apply_wipe_labels, clamp_cursor_decrement,
    clamp_cursor_increment, next_index, parse_command_args, prev_index,
};
use music::track::{Album, TrackDetails};

fn track(artist: &str, album: &str, title: &str, song_path: &str) -> TrackDetails {
    TrackDetails {
        artist: artist.to_string(),
        album: album.to_string(),
        title: title.to_string(),
        track_no: 1,
        date: "2020".to_string(),
        song_path: song_path.to_string(),
        duration: 180,
        stats: (0, 0, 0),
        tags: Vec::new(),
    }
}

fn album(artist: &str, name: &str, songs: Vec<TrackDetails>) -> Album {
    Album::new(artist.to_string(), name.to_string(), "2020".to_string(), songs, (0, 0, 0))
}

#[test]
fn app_clamp_increment_moves_cursor_forward() {
    assert_eq!(clamp_cursor_increment(0, 5), 1);
    assert_eq!(clamp_cursor_increment(3, 5), 4);
}

#[test]
fn app_clamp_increment_stops_at_last_index() {
    assert_eq!(clamp_cursor_increment(4, 5), 4);
}

#[test]
fn app_clamp_increment_empty_list_stays_zero() {
    assert_eq!(clamp_cursor_increment(0, 0), 0);
}

#[test]
fn app_clamp_decrement_moves_cursor_back() {
    assert_eq!(clamp_cursor_decrement(3), 2);
}

#[test]
fn app_clamp_decrement_stops_at_zero() {
    assert_eq!(clamp_cursor_decrement(0), 0);
}

#[test]
fn app_next_index_advances_within_bounds() {
    assert_eq!(next_index(0, 3), Some(1));
    assert_eq!(next_index(1, 3), Some(2));
}

#[test]
fn app_next_index_none_at_last_song() {
    assert_eq!(next_index(2, 3), None);
}

#[test]
fn app_next_index_none_on_empty_queue() {
    assert_eq!(next_index(0, 0), None);
}

#[test]
fn app_prev_index_moves_back_within_bounds() {
    assert_eq!(prev_index(2), Some(1));
    assert_eq!(prev_index(1), Some(0));
}

#[test]
fn app_prev_index_none_at_first_song() {
    assert_eq!(prev_index(0), None);
}

#[test]
fn app_parse_command_args_valid_input() {
    assert_eq!(parse_command_args("sort last_played"), Some(("sort", "last_played")));
}

#[test]
fn app_parse_command_args_rejects_wrong_arg_count() {
    assert_eq!(parse_command_args("sort"), None);
    assert_eq!(parse_command_args("sort last_played extra"), None);
    assert_eq!(parse_command_args(""), None);
}

#[test]
fn app_apply_duration_played_updates_song_and_album_copy() {
    let mut all_songs = vec![track("Radiohead", "OK Computer", "Karma Police", "/a.mp3")];
    let mut albums = vec![album(
        "Radiohead",
        "OK Computer",
        vec![track("Radiohead", "OK Computer", "Karma Police", "/a.mp3")],
    )];

    apply_duration_played(&mut all_songs, &mut albums, "/a.mp3", 42);

    assert_eq!(all_songs[0].stats.1, 42);
    assert_eq!(albums[0].songs[0].stats.1, 42);
}

#[test]
fn app_apply_duration_played_missing_song_is_noop() {
    let mut all_songs = vec![track("Radiohead", "OK Computer", "Karma Police", "/a.mp3")];
    let mut albums = vec![album(
        "Radiohead",
        "OK Computer",
        vec![track("Radiohead", "OK Computer", "Karma Police", "/a.mp3")],
    )];

    apply_duration_played(&mut all_songs, &mut albums, "/does-not-exist.mp3", 42);

    assert_eq!(all_songs[0].stats.1, 0);
    assert_eq!(albums[0].songs[0].stats.1, 0);
}

#[test]
fn app_apply_last_played_updates_timestamp_in_both_places() {
    let mut all_songs = vec![track("Radiohead", "OK Computer", "Karma Police", "/a.mp3")];
    let mut albums = vec![album(
        "Radiohead",
        "OK Computer",
        vec![track("Radiohead", "OK Computer", "Karma Police", "/a.mp3")],
    )];

    apply_last_played(&mut all_songs, &mut albums, "/a.mp3", 12345);

    assert_eq!(all_songs[0].stats.0, 12345);
    assert_eq!(albums[0].songs[0].stats.0, 12345);
}

#[test]
fn app_apply_wipe_labels_clears_tags_in_both_places() {
    let mut song = track("Radiohead", "OK Computer", "Karma Police", "/a.mp3");
    song.tags = vec![("favorite".to_string(), 0), ("rock".to_string(), 0)];
    let mut album_song = song.clone();

    let mut all_songs = vec![song];
    let mut albums = vec![album("Radiohead", "OK Computer", vec![album_song.clone()])];
    albums[0].songs[0].tags = vec![("favorite".to_string(), 0), ("rock".to_string(), 0)];
    album_song.tags.clear();

    apply_wipe_labels(&mut all_songs, &mut albums, "/a.mp3");

    assert!(all_songs[0].tags.is_empty());
    assert!(albums[0].songs[0].tags.is_empty());
}

#[test]
fn app_apply_add_label_pushes_tag_in_both_places() {
    let mut all_songs = vec![track("Radiohead", "OK Computer", "Karma Police", "/a.mp3")];
    let mut albums = vec![album(
        "Radiohead",
        "OK Computer",
        vec![track("Radiohead", "OK Computer", "Karma Police", "/a.mp3")],
    )];

    apply_add_label(&mut all_songs, &mut albums, "/a.mp3", "favorite");

    assert_eq!(all_songs[0].tags, vec![("favorite".to_string(), 0)]);
    assert_eq!(albums[0].songs[0].tags, vec![("favorite".to_string(), 0)]);
}

