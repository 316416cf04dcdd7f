use music::display::{album_label, track_card, track_line};
use music::library::{builder, playlists_to_albums};
use music::metadata::{collects_file, is_audio_extension, track_from_cache, track_from_tags, TagFields, TimestampFields};
use music::records::{metadata_to_cache, stats_after_listening, stats_after_play, stats_or_new};
use music::search::{filter_albums, filter_tracks};
use music::sort::{sort_albums, sort_tracks, sort_tracks_by_stat_desc};
use music::track::{merge_stats, Album, TrackDetails, TrackMetadata};

fn track(artist: &str, album: &str, title: &str) -> TrackDetails {
    TrackDetails {
        artist: artist.to_string(),
        album: album.to_string(),
        title: title.to_string(),
        track_no: 1,
        date: "2020".to_string(),
        song_path: "/fake/path.mp3".to_string(),
        duration: 180,
        stats: (0, 0, 0),
        tags: Vec::new(),
    }
}

fn library() -> Vec<TrackDetails> {
    vec![
        track("Radiohead", "OK Computer", "Karma Police"),
        track("Radiohead", "Kid A", "Everything in Its Right Place"),
        track("Pink Floyd", "The Wall", "Comfortably Numb"),
        track("Pink Floyd", "Wish You Were Here", "Shine On You Crazy Diamond"),
        track("David Bowie", "Ziggy Stardust", "Starman"),
    ]
}

#[test]
fn empty_query_returns_all() {
    let lib = library();
    let result = filter_tracks(&lib, "");
    assert_eq!(result.len(), lib.len());
}

#[test]
fn no_match_returns_empty() {
    let result = filter_tracks(&library(), "zzznomatch");
    assert!(result.is_empty());
}

#[test]
fn filter_by_artist() {
    let result = filter_tracks(&library(), "Radiohead");
    assert_eq!(result.len(), 2);
    assert!(result.iter().all(|t| t.artist == "Radiohead"));
}

#[test]
fn filter_by_album() {
    let result = filter_tracks(&library(), "Kid A");
    assert_eq!(result.len(), 1);
    assert_eq!(result[0].title, "Everything in Its Right Place");
}

#[test]
fn filter_by_title() {
    let result = filter_tracks(&library(), "Starman");
    assert_eq!(result.len(), 1);
    assert_eq!(result[0].artist, "David Bowie");
}

#[test]
fn filter_is_case_insensitive() {
    let upper = filter_tracks(&library(), "RADIOHEAD");
    let lower = filter_tracks(&library(), "radiohead");
    let mixed = filter_tracks(&library(), "rAdIoHeAd");
    assert_eq!(upper.len(), lower.len());
    assert_eq!(lower.len(), mixed.len());
}

#[test]
fn partial_query_matches() {
    let result = filter_tracks(&library(), "wall");
    assert_eq!(result.len(), 1);
    assert_eq!(result[0].album, "The Wall");
}

#[test]
fn filter_matches_multiple_artists() {
    let result = filter_tracks(&library(), "pink");
    assert_eq!(result.len(), 2);
}

#[test]
fn filter_does_not_match_playlist_labels() {
    let mut lib = library();
    lib[4].tags = vec![("gym".to_string(), 3)];
    assert!(filter_tracks(&lib, "GYM").is_empty());
    assert!(filter_tracks(&lib, "gym").is_empty());
}

#[test]
fn filter_keeps_library_order() {
    let result = filter_tracks(&library(), "o");
    let titles: Vec<&str> = result.iter().map(|t| t.title.as_str()).collect();
    assert_eq!(
        titles,
        vec!["Karma Police", "Everything in Its Right Place", "Comfortably Numb", "Shine On You Crazy Diamond", "Starman"]
    );
}

#[test]
fn tracks_sort_correctly() {
    let mut tracks = vec![
        track("Radiohead", "OK Computer", "Karma Police"),
        track("Radiohead", "Kid A", "Everything in Its Right Place"),
        track("David Bowie", "Ziggy Stardust", "Starman"),
    ];
    sort_tracks(&mut tracks);
    assert_eq!(tracks[0].artist, "David Bowie");
    assert_eq!(tracks[1].album, "Kid A");
    assert_eq!(tracks[2].album, "OK Computer");
}

#[test]
fn sorting_sorted_tracks_keeps_them() {
    let mut once = library();
    sort_tracks(&mut once);
    let mut twice = once.clone();
    sort_tracks(&mut twice);
    assert_eq!(once, twice);
}

#[test]
fn sort_by_stat_is_descending_and_stable() {
    let mut a = track("A", "x", "one");
    a.stats = (5, 10, 0);
    let mut b = track("B", "x", "two");
    b.stats = (9, 10, 0);
    let mut c = track("C", "x", "three");
    c.stats = (1, 30, 0);
    let mut v = vec![a, b, c];
    sort_tracks_by_stat_desc(&mut v, 1);
    let titles: Vec<&str> = v.iter().map(|t| t.title.as_str()).collect();
    assert_eq!(titles, vec!["three", "one", "two"]);
    sort_tracks_by_stat_desc(&mut v, 0);
    let titles: Vec<&str> = v.iter().map(|t| t.title.as_str()).collect();
    assert_eq!(titles, vec!["two", "one", "three"]);
}

#[test]
fn track_display_format_owned() {
    let t = track("Radiohead", "OK Computer", "Karma Police");
    let rendered = track_card(&t);
    assert!(rendered.contains("Radiohead"));
    assert!(rendered.contains("Karma Police"));
    assert!(rendered.contains("Track 1"));
}

#[test]
fn display_lines_have_exact_layout() {
    let mut t = track("Radiohead", "OK Computer", "Karma Police");
    t.track_no = 12;
    assert_eq!(track_card(&t), "Radiohead\nKarma Police\nOK Computer\n[Track 12]");
    t.tags = vec![("gym".to_string(), 4)];
    assert_eq!(track_line(&t), "Radiohead - Karma Police (2020) [Track 12] [(\"gym\", 4)]");
    let a = Album::new("Radiohead".to_string(), "OK Computer".to_string(), "1997".to_string(), vec![], (0, 0, 0));
    assert_eq!(album_label(&a), "Radiohead - OK Computer [1997]");
}

fn albums() -> Vec<Album> {
    vec![
        Album {
            artist: "Radiohead".to_string(),
            album: "OK Computer".to_string(),
            selected: false,
            date: "1997".to_string(),
            songs: vec![track("Radiohead", "OK Computer", "Karma Police")],
            stats: (0, 0, 0),
        },
        Album {
            artist: "Pink Floyd".to_string(),
            album: "The Wall".to_string(),
            selected: false,
            date: "1979".to_string(),
            songs: vec![track("Pink Floyd", "The Wall", "Comfortably Numb")],
            stats: (0, 0, 0),
        },
        Album {
            artist: "David Bowie".to_string(),
            album: "Ziggy Stardust".to_string(),
            selected: false,
            date: "1972".to_string(),
            songs: vec![track("David Bowie", "Ziggy Stardust", "Starman")],
            stats: (0, 0, 0),
        },
    ]
}

#[test]
fn filter_albums_empty_query_returns_all() {
    let all = albums();
    let result = filter_albums(&all, "");
    assert_eq!(result.len(), all.len());
}

#[test]
fn filter_albums_no_match_returns_empty() {
    let result = filter_albums(&albums(), "zzznomatch");
    assert!(result.is_empty());
}

#[test]
fn filter_albums_by_artist() {
    let result = filter_albums(&albums(), "Radiohead");
    assert_eq!(result.len(), 1);
    assert_eq!(result[0].album, "OK Computer");
}

#[test]
fn filter_albums_by_album_name() {
    let result = filter_albums(&albums(), "Wall");
    assert_eq!(result.len(), 1);
    assert_eq!(result[0].artist, "Pink Floyd");
}

#[test]
fn filter_albums_is_case_insensitive() {
    let upper = filter_albums(&albums(), "ZIGGY");
    let lower = filter_albums(&albums(), "ziggy");
    assert_eq!(upper.len(), 1);
    assert_eq!(upper.len(), lower.len());
}

#[test]
fn albums_sort_by_artist_first() {
    let mut all = albums();
    sort_albums(&mut all);
    let artists: Vec<&str> = all.iter().map(|a| a.artist.as_str()).collect();
    assert_eq!(artists, vec!["David Bowie", "Pink Floyd", "Radiohead"]);
}

#[test]
fn get_audio_metadata_invalid_path_returns_default() {
    let path = "/this/path/does/not/exist.mp3";
    let track = track_from_tags(path.to_string(), None, 0, None, None, 99);
    assert_eq!(track.title, TrackDetails::default().title);
    assert_eq!(track.artist, TrackDetails::default().artist);
    assert_eq!(track.album, TrackDetails::default().album);
    assert_eq!(track.song_path, path.to_string());
}

#[test]
fn tags_fill_a_track_with_placeholders_for_gaps() {
    let tags = TagFields {
        title: Some("Airbag".to_string()),
        artist: None,
        album: Some("OK Computer".to_string()),
        date: Some(TimestampFields { year: 1997, month: Some(5), day: None, hour: Some(3), minute: None, second: None }),
        track: None,
    };
    let t = track_from_tags("/a.flac".to_string(), Some(tags), 284, None, Some(vec!["gym".to_string()]), 77);
    assert_eq!(t.title, "Airbag");
    assert_eq!(t.artist, "Unknown Artist");
    assert_eq!(t.album, "OK Computer");
    assert_eq!(t.date, "1997-05");
    assert_eq!(t.track_no, 0);
    assert_eq!(t.duration, 284);
    assert_eq!(t.stats, (0, 0, 77));
    assert_eq!(t.tags, vec![("gym".to_string(), 0)]);
    assert_eq!(t.song_path, "/a.flac");
}

#[test]
fn missing_date_gives_the_first_second_of_1900() {
    let tags = TagFields { title: None, artist: None, album: None, date: None, track: Some(3) };
    let t = track_from_tags("/b.mp3".to_string(), Some(tags), 1, Some((1, 2, 3)), None, 0);
    assert_eq!(t.date, "1900-01-01T00:00:00");
    assert_eq!(t.track_no, 3);
    assert_eq!(t.stats, (1, 2, 3));
    assert!(t.tags.is_empty());
}

#[test]
fn full_date_is_written_in_iso_form() {
    let tags = TagFields {
        title: None,
        artist: None,
        album: None,
        date: Some(TimestampFields { year: 987, month: Some(12), day: Some(9), hour: Some(23), minute: Some(5), second: Some(0) }),
        track: None,
    };
    let t = track_from_tags("/c.mp3".to_string(), Some(tags), 1, None, None, 0);
    assert_eq!(t.date, "0987-12-09T23:05:00");
}

#[test]
fn cached_metadata_becomes_a_track() {
    let meta = TrackMetadata {
        artist: "Grouper".to_string(),
        album: "Ruins".to_string(),
        track_no: 2,
        title: "Clearing".to_string(),
        date: "2014".to_string(),
        song_path: "/g.mp3".to_string(),
        duration: 200,
    };
    let t = track_from_cache(meta, None, Some(vec!["a".to_string(), "b".to_string()]), 50);
    assert_eq!(t.artist, "Grouper");
    assert_eq!(t.track_no, 2);
    assert_eq!(t.stats, (0, 0, 50));
    assert_eq!(t.tags, vec![("a".to_string(), 0), ("b".to_string(), 0)]);
}

#[test]
fn audio_extensions_are_recognised_without_case() {
    assert!(is_audio_extension("mp3"));
    assert!(is_audio_extension("FLAC"));
    assert!(is_audio_extension("Alac"));
    assert!(!is_audio_extension("txt"));
    assert!(!is_audio_extension("mp"));
    assert!(collects_file(Some("ogg")));
    assert!(collects_file(Some("M4A")));
    assert!(!collects_file(None));
    assert!(!collects_file(Some("jpg")));
}

#[test]
fn builder_groups_tracks_into_albums() {
    let mut t1 = track("Radiohead", "OK Computer", "Karma Police");
    t1.stats = (10, 100, 5);
    let mut t2 = track("Radiohead", "OK Computer", "Paranoid Android");
    t2.stats = (20, 200, 3);
    let t3 = track("Pink Floyd", "The Wall", "Comfortably Numb");

    let (albums, songs) = builder(vec![t1, t2, t3]).unwrap();

    assert_eq!(songs.len(), 3);
    assert_eq!(albums.len(), 2);

    let ok_computer = albums.iter().find(|a| a.album == "OK Computer").expect("OK Computer album should exist");
    assert_eq!(ok_computer.songs.len(), 2);
    assert_eq!(ok_computer.stats.0, 20);
    assert_eq!(ok_computer.stats.1, 400);
    assert_eq!(ok_computer.stats.2, 3);

    let the_wall = albums.iter().find(|a| a.album == "The Wall").expect("The Wall album should exist");
    assert_eq!(the_wall.songs.len(), 1);
}

#[test]
fn builder_adds_playlists_after_albums() {
    let mut t1 = track("A", "X", "one");
    t1.tags = vec![("run".to_string(), 5)];
    let mut t2 = track("B", "Y", "two");
    t2.tags = vec![("run".to_string(), 2), ("calm".to_string(), 1)];
    let (albums, songs) = builder(vec![t1, t2]).unwrap();
    assert_eq!(songs.len(), 2);
    assert_eq!(albums.len(), 4);
    assert_eq!(albums[2].artist, "calm");
    assert_eq!(albums[3].artist, "run");
    let run_titles: Vec<&str> = albums[3].songs.iter().map(|t| t.title.as_str()).collect();
    assert_eq!(run_titles, vec!["two", "one"]);
}

fn track2(artist: &str, album: &str, title: &str, stats: (u64, u64, u64)) -> TrackDetails {
    TrackDetails {
        artist: artist.to_string(),
        album: album.to_string(),
        title: title.to_string(),
        track_no: 1,
        date: "2020".to_string(),
        song_path: format!("/fake/{title}.mp3"),
        duration: 180,
        stats,
        tags: Vec::new(),
    }
}

fn tracks2() -> Vec<TrackDetails> {
    vec![
        track2("Tim Hecker", "Virgins", "Amps, Drugs, Harmonium", (1, 200, 10)),
        track2("Stars of the Lid", "Tired Sounds", "Piano Aquieu", (2, 150, 5)),
        track2("Grouper", "Dragging a Dead Deer Up a Hill", "Stuck", (10, 150, 1)),
        track2("Ana Roxanne", "~~~", "It's A Rainy Day On The Cosmic Shore", (30, 0, 20)),
    ]
}

#[test]
fn test_stats_merge() {
    let songs = Vec::new();
    assert_eq!(merge_stats(&songs), (u64::MAX, 0, u64::MAX));

    let songs = tracks2();
    assert_eq!(merge_stats(&songs), (1, 500, 1));
}

#[test]
fn test_play_to_alb() {
    let tracks = tracks2();
    let timestamps = (1..tracks.len() as u64 + 1).collect::<Vec<u64>>();
    let liked: Vec<(TrackDetails, u64)> = tracks.into_iter().zip(timestamps).collect();

    let tracks = tracks2();
    let timestamps = (1..tracks.len() as u64 + 1).collect::<Vec<u64>>();
    let gym: Vec<(TrackDetails, u64)> = tracks.into_iter().zip(timestamps).collect();

    let playlists = vec![("Liked".to_string(), liked), ("Gym".to_string(), gym)];

    let target_album_liked = Album {
        artist: "Liked".to_string(),
        album: "".to_string(),
        date: "".to_string(),
        selected: false,
        songs: tracks2(),
        stats: merge_stats(&tracks2()),
    };

    let target_album_gym = Album {
        artist: "Gym".to_string(),
        album: "".to_string(),
        date: "".to_string(),
        selected: false,
        songs: tracks2(),
        stats: merge_stats(&tracks2()),
    };

    let albums = playlists_to_albums(playlists);
    assert_eq!(albums, vec![target_album_gym, target_album_liked]);
}

#[test]
fn playlist_tracks_follow_the_time_they_joined() {
    let tracks = tracks2();
    let entries: Vec<(TrackDetails, u64)> = tracks.into_iter().zip(vec![9, 3, 7, 1]).collect();
    let albums = playlists_to_albums(vec![("mix".to_string(), entries)]);
    let titles: Vec<&str> = albums[0].songs.iter().map(|t| t.title.as_str()).collect();
    assert_eq!(titles, vec!["It's A Rainy Day On The Cosmic Shore", "Piano Aquieu", "Stuck", "Amps, Drugs, Harmonium"]);
}

#[test]
fn records_to_cache_skip_tracks_without_artist_or_title() {
    let good = track("Radiohead", "OK Computer", "Karma Police");
    let mut bad = track("Radiohead", "OK Computer", "Karma Police");
    bad.title = TrackDetails::default().title;
    let mut nameless = track("x", "y", "z");
    nameless.artist = TrackDetails::default().artist;
    let records = metadata_to_cache(&vec![good, bad, nameless]);
    assert_eq!(records.len(), 1);
    assert_eq!(records[0].title, "Karma Police");
    assert!(metadata_to_cache(&Vec::new()).is_empty());
}

#[test]
fn statistics_are_created_and_updated() {
    assert_eq!(stats_or_new(None, 40), ((40, 0, 40), true));
    assert_eq!(stats_or_new(Some((1, 2, 3)), 40), ((1, 2, 3), false));
    assert_eq!(stats_after_play(Some((1, 2, 3)), 50), (50, 2, 3));
    assert_eq!(stats_after_play(None, 50), (50, 0, 0));
    assert_eq!(stats_after_listening((1, 2, 3), 10), (1, 12, 3));
}

#[test]
fn builder_refuses_an_album_time_that_overflows() {
    let mut t1 = track("A", "X", "one");
    t1.stats = (0, u64::MAX / 2, 0);
    let mut t2 = track("A", "X", "two");
    t2.stats = (0, 2, 0);
    // the first track's time counts twice: 2 * (MAX / 2) + 2 > MAX
    assert!(builder(vec![t1.clone(), t2.clone()]).is_none());
    t2.stats = (0, 1, 0);
    assert!(builder(vec![t1, t2]).is_some());
}

#[test]
fn builder_refuses_a_playlist_time_that_overflows() {
    let mut tracks = vec![track("A", "X", "one"), track("B", "Y", "two"), track("C", "Z", "three")];
    for t in tracks.iter_mut() {
        t.stats = (0, u64::MAX / 2, 0);
        t.tags = vec![("mix".to_string(), 1)];
    }
    assert!(builder(tracks.clone()).is_none());
    for t in tracks.iter_mut() {
        t.stats = (0, u64::MAX / 4, 0);
    }
    assert!(builder(tracks).is_some());
}
