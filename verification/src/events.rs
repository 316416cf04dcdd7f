use vstd::prelude::*;
use crate::track::{TrackDetails, Album, AlbumView, tracks_view, albums_view, clone_track};
use crate::types::{PlaybackMode, Page, MusicStreamEvent, DbUpdate, LocalTrackUpdateType};
use crate::app::{
    App, AppView, Effect, EffectView, effects_view, local_duration, local_duration_panics, local_last_played,
    local_last_played_panics, stream_next, stream_panics, local_update, local_update_panics,
};
use crate::nav::{TrackUpdate, TrackChange, apply_track_update, find_path, find_album, apply_duration_played, apply_last_played,
    lemma_updated_albums_keep_keys, with_matching_song_and_album_song};

verus! {

/// Adds `time` seconds to an album's own time played.
fn add_album_played(a: &mut Album, time: u64)
    requires
        old(a).stats.1 + time <= u64::MAX,
    ensures
        final(a)@ == (AlbumView { stats: (old(a)@.stats.0, (old(a)@.stats.1 + time) as u64, old(a)@.stats.2), ..old(a)@ }),
{
    a.stats = (a.stats.0, a.stats.1 + time, a.stats.2);
}

/// Sets an album's own last-played time.
fn set_album_last_played(a: &mut Album, wall: u64)
    ensures
        final(a)@ == (AlbumView { stats: (wall, old(a)@.stats.1, old(a)@.stats.2), ..old(a)@ }),
{
    a.stats = (wall, a.stats.1, a.stats.2);
}

impl App {
    /// The player played its queue to the end: nothing plays any more.
    pub fn playback_stopped(&mut self)
        ensures
            final(self)@ == (AppView { playback_mode: PlaybackMode::NotPlaying, ..old(self)@ }),
    {
        self.playback_mode = PlaybackMode::NotPlaying;
    }

    /// Records `time` more seconds played for the track at `path` in the
    /// browser's own lists.
    fn record_duration(&mut self, path: &String, time: u64)
        requires
            !local_duration_panics(old(self)@, path@, time),
        ensures
            final(self)@ == local_duration(old(self)@, path@, time),
    {
        let i = match find_path(&self.all_songs_unfiltered, path.as_str()) {
            Some(i) => i,
            None => {
                return;
            },
        };
        let al = self.all_songs_unfiltered[i].album.clone();
        let ar = self.all_songs_unfiltered[i].artist.clone();
        apply_duration_played(&mut self.all_songs_unfiltered, &mut self.albums_unfiltered, path.as_str(), time);
        if self.viewer != Page::Albums {
            if let Some(j) = find_path(&self.page_songs, path.as_str()) {
                let ghost before = self.page_songs@;
                apply_track_update(&mut self.page_songs[j], &TrackUpdate::AddDuration(time));
                assert(tracks_view(self.page_songs@) =~= tracks_view(before).update(j as int,
                    TrackUpdate::AddDuration(time)@.apply(tracks_view(before)[j as int])));
            }
        }
        if let Some(a) = find_album(&self.albums_unfiltered, &al, &ar) {
            let ghost before = self.albums_unfiltered@;
            add_album_played(&mut self.albums_unfiltered[a], time);
            assert(albums_view(self.albums_unfiltered@) =~= albums_view(before).update(a as int, AlbumView {
                stats: (albums_view(before)[a as int].stats.0, (albums_view(before)[a as int].stats.1 + time) as u64,
                    albums_view(before)[a as int].stats.2),
                ..albums_view(before)[a as int]
            }));
        }
    }

    /// Records that the track at `path` started playing at `wall` in the
    /// browser's own lists.
    fn record_last_played(&mut self, path: &String, wall: u64)
        requires
            !local_last_played_panics(old(self)@, path@, wall),
        ensures
            final(self)@ == local_last_played(old(self)@, path@, wall),
    {
        let i = match find_path(&self.all_songs_unfiltered, path.as_str()) {
            Some(i) => i,
            None => {
                return;
            },
        };
        let al = self.all_songs_unfiltered[i].album.clone();
        let ar = self.all_songs_unfiltered[i].artist.clone();
        apply_last_played(&mut self.all_songs_unfiltered, &mut self.albums_unfiltered, path.as_str(), wall);
        if self.viewer != Page::Albums {
            let c = self.cursor;
            let ghost before = self.page_songs@;
            apply_track_update(&mut self.page_songs[c], &TrackUpdate::SetLastPlayed(wall));
            assert(tracks_view(self.page_songs@) =~= tracks_view(before).update(c as int,
                TrackUpdate::SetLastPlayed(wall)@.apply(tracks_view(before)[c as int])));
        }
        if let Some(a) = find_album(&self.albums_unfiltered, &al, &ar) {
            let ghost before = self.albums_unfiltered@;
            set_album_last_played(&mut self.albums_unfiltered[a], wall);
            assert(albums_view(self.albums_unfiltered@) =~= albums_view(before).update(a as int, AlbumView {
                stats: (wall, albums_view(before)[a as int].stats.1, albums_view(before)[a as int].stats.2),
                ..albums_view(before)[a as int]
            }));
        }
    }

    /// Whether recording `time` more seconds for the track at `path` fails
    /// (a lookup that must succeed does not, or a counter would overflow).
    fn duration_fails(&self, path: &String, time: u64) -> (r: bool)
        ensures
            r == local_duration_panics(self@, path@, time),
    {
        proof {
            lemma_updated_albums_keep_keys(self@.all_songs_unfiltered, self@.albums_unfiltered, path@, TrackChange::AddDuration(time));
        }
        let i = match find_path(&self.all_songs_unfiltered, path.as_str()) {
            Some(i) => i,
            None => {
                return true;
            },
        };
        let al = self.all_songs_unfiltered[i].album.clone();
        let ar = self.all_songs_unfiltered[i].artist.clone();
        let found = find_album(&self.albums_unfiltered, &al, &ar);
        if let Some(a) = found {
            if let Some(k) = find_path(&self.albums_unfiltered[a].songs, path.as_str()) {
                if self.all_songs_unfiltered[i].stats.1.checked_add(time).is_none()
                    || self.albums_unfiltered[a].songs[k].stats.1.checked_add(time).is_none() {
                    return true;
                }
            }
        }
        if self.viewer != Page::Albums {
            if let Some(j) = find_path(&self.page_songs, path.as_str()) {
                if self.page_songs[j].stats.1.checked_add(time).is_none() {
                    return true;
                }
            }
        }
        match found {
            None => true,
            Some(a) => self.albums_unfiltered[a].stats.1.checked_add(time).is_none(),
        }
    }

    /// Whether recording that the track at `path` started playing fails.
    fn last_played_fails(&self, path: &String, wall: u64) -> (r: bool)
        ensures
            r == local_last_played_panics(self@, path@, wall),
    {
        proof {
            lemma_updated_albums_keep_keys(self@.all_songs_unfiltered, self@.albums_unfiltered, path@, TrackChange::SetLastPlayed(wall));
        }
        let i = match find_path(&self.all_songs_unfiltered, path.as_str()) {
            Some(i) => i,
            None => {
                return true;
            },
        };
        if self.viewer != Page::Albums && self.cursor >= self.page_songs.len() {
            return true;
        }
        let al = self.all_songs_unfiltered[i].album.clone();
        let ar = self.all_songs_unfiltered[i].artist.clone();
        find_album(&self.albums_unfiltered, &al, &ar).is_none()
    }

    /// Makes a change to the browser's own copies of a track (the lists
    /// shown, the library and the albums); `wall` is the time a track
    /// started playing, in seconds since the Unix epoch.
    pub fn update_song_label_local(&mut self, update: LocalTrackUpdateType, wall: u64)
        requires
            !local_update_panics(old(self)@, update@, wall),
        ensures
            final(self)@ == local_update(old(self)@, update@, wall),
    {
        match update {
            LocalTrackUpdateType::DurationPlayed(path, time) => self.record_duration(&path.0, time),
            LocalTrackUpdateType::LastPlayed(path) => self.record_last_played(&path.0, wall),
            LocalTrackUpdateType::AddLabel(path, label) => {
                if self.viewer != Page::Albums {
                    let c = self.cursor;
                    let u = TrackUpdate::AddLabel(self.user_buff.clone(), 0);
                    let ghost before = self.page_songs@;
                    apply_track_update(&mut self.page_songs[c], &u);
                    assert(tracks_view(self.page_songs@) =~= tracks_view(before).update(c as int, u@.apply(tracks_view(before)[c as int])));
                }
                with_matching_song_and_album_song(&mut self.all_songs_unfiltered, &mut self.albums_unfiltered,
                    path.0.as_str(), &TrackUpdate::AddLabel(label.0, 0));
            },
            LocalTrackUpdateType::WipeLabels(path) => {
                if self.viewer != Page::Albums {
                    let c = self.cursor;
                    let ghost before = self.page_songs@;
                    apply_track_update(&mut self.page_songs[c], &TrackUpdate::ClearLabels);
                    assert(tracks_view(self.page_songs@) =~= tracks_view(before).update(c as int,
                        TrackChange::ClearLabels.apply(tracks_view(before)[c as int])));
                }
                with_matching_song_and_album_song(&mut self.all_songs_unfiltered, &mut self.albums_unfiltered,
                    path.0.as_str(), &TrackUpdate::ClearLabels);
            },
        }
    }

    /// A track played to its end and the player moved on to `track`.
    fn auto_advanced(&mut self, track: TrackDetails, now: u64) -> (r: Option<Vec<Effect>>)
        ensures
            ({
                let ev = MusicStreamEvent::TrackAutoAdvanced(track, 0);
                &&& r is None <==> stream_panics(old(self)@, &ev, now, 0)
                &&& r matches Some(effects) ==> (final(self)@, effects_view(effects@)) == stream_next(old(self)@, &ev, now, 0)
            }),
    {
        let cur = match self.playing_song_idx {
            Some(i) => i,
            None => {
                return None;
            },
        };
        if cur == usize::MAX {
            return None;
        }
        let prev = match &self.song_queue {
            Some(q) => {
                if cur >= q.len() {
                    return None;
                }
                clone_track(&q[cur])
            },
            None => {
                return None;
            },
        };
        let idx = cur + 1;
        self.play_start = Some(now);
        self.elapsed_before_paused = 0;
        self.playing_song = Some(track);
        self.playing_song_idx = Some(idx);
        if self.duration_fails(&prev.song_path, prev.duration) {
            return None;
        }
        self.record_duration(&prev.song_path, prev.duration);
        let mut e: Vec<Effect> = Vec::new();
        e.push(Effect::Record(DbUpdate::DurationPlayed(prev.song_path.clone(), prev.duration)));
        e.push(Effect::RefreshArt);
        assert(effects_view(e@) =~= seq![EffectView::DurationPlayed(prev.song_path@, prev.duration), EffectView::RefreshArt]);
        Some(e)
    
    }

    /// The user chose `queue`, to be played from index `i`.
    fn playlist_chosen(&mut self, queue: Vec<TrackDetails>, i: usize, now: u64, wall: u64) -> (r: Option<Vec<Effect>>)
        ensures
            ({
                let ev = MusicStreamEvent::NewPlaylistEvent(queue, i);
                &&& r is None <==> stream_panics(old(self)@, &ev, now, wall)
                &&& r matches Some(effects) ==> (final(self)@, effects_view(effects@)) == stream_next(old(self)@, &ev, now, wall)
            }),
    {
        let mut e: Vec<Effect> = Vec::new();
        match &self.playing_song {
            Some(p) => {
                let path = p.song_path.clone();
                let total = match self.get_time_elapsed(now) {
                    Some(t) => t,
                    None => {
                        return None;
                    },
                };
                let d = total / 1000;
                if self.duration_fails(&path, d) {
                    return None;
                }
                self.record_duration(&path, d);
                e.push(Effect::Record(DbUpdate::DurationPlayed(path, d)));
            },
            None => {},
        }
        let ghost e1 = effects_view(e@);
        if i >= queue.len() {
            return None;
        }
        let song = clone_track(&queue[i]);
        self.playing_song_idx = Some(i);
        self.playing_song = Some(clone_track(&song));
        self.song_queue = Some(queue);
        self.playback_mode = PlaybackMode::Playing;
        if self.last_played_fails(&song.song_path, wall) {
            return None;
        }
        self.record_last_played(&song.song_path, wall);
        self.play_start = Some(now);
        self.elapsed_before_paused = 0;
        e.push(Effect::Record(DbUpdate::LastPlayed(song.song_path.clone())));
        e.push(Effect::RefreshArt);
        assert(effects_view(e@) =~= e1 + seq![EffectView::LastPlayed(song.song_path@), EffectView::RefreshArt]);
        Some(e)
    
    }

    /// Handles a message from the player, received at `now` (milliseconds on
    /// a monotonic clock) and `wall` (seconds since the Unix epoch), and
    /// returns the work the surroundings must do. `None` where the message
    /// cannot be handled (a lookup that must succeed fails, a counter would
    /// overflow, or the message is not one the browser receives); the state
    /// is then not to be used further.
    pub fn handle_stream_event(&mut self, ev: MusicStreamEvent, now: u64, wall: u64) -> (r: Option<Vec<Effect>>)
        ensures
            r is None <==> stream_panics(old(self)@, &ev, now, wall),
            r matches Some(effects) ==> (final(self)@, effects_view(effects@)) == stream_next(old(self)@, &ev, now, wall),
    {
        match ev {
            MusicStreamEvent::TrackAutoAdvanced(track, n) => {
                let ghost t = track;
                let r = self.auto_advanced(track, now);
                assert(stream_panics(old(self)@, &MusicStreamEvent::TrackAutoAdvanced(t, n), now, wall)
                    == stream_panics(old(self)@, &MusicStreamEvent::TrackAutoAdvanced(t, 0), now, 0));
                r
            },
            MusicStreamEvent::NewPlaylistEvent(queue, i) => self.playlist_chosen(queue, i, now, wall),
            MusicStreamEvent::PlaybackEvent(_, _) => None,
        }
    }
}

} // verus!
