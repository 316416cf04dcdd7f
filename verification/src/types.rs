use vstd::prelude::*;
use crate::track::{TrackDetails, Album};

verus! {

/// The path of an audio file, as a track records it.
pub struct SongPath(pub String);

/// A playlist label.
pub struct Label(pub String);

impl Clone for SongPath {
    fn clone(&self) -> (r: Self)
        ensures
            r.0@ == self.0@,
    {
        SongPath(self.0.clone())
    }
}

impl Clone for Label {
    fn clone(&self) -> (r: Self)
        ensures
            r.0@ == self.0@,
    {
        Label(self.0.clone())
    }
}

/// The input mode of the browser, after the editor it imitates.
#[derive(PartialEq, Eq, Structural, Clone, Copy, Debug)]
pub enum VimMode {
    Search,
    Normal,
    Command,
    Marking,
    VisualLine,
}

/// What the player is doing.
#[derive(PartialEq, Eq, Structural, Clone, Copy, Debug)]
pub enum PlaybackMode {
    Paused,
    Playing,
    NotPlaying,
}

/// Which list the browser shows.
#[derive(PartialEq, Eq, Structural, Clone, Copy, Debug)]
pub enum Page {
    /// The albums (the start page).
    Albums,
    /// The tracks of the album chosen from the albums page.
    Songs,
    /// The result of a search over every track.
    Search,
}

/// A change to record in the statistics database.
pub enum DbUpdate {
    /// The track at this path started playing now.
    LastPlayed(String),
    /// The track at this path was played for this many more seconds.
    DurationPlayed(String, u64),
}

/// A change to make to the browser's own copies of a track.
pub enum LocalTrackUpdateType {
    DurationPlayed(SongPath, u64),
    LastPlayed(SongPath),
    AddLabel(SongPath, Label),
    WipeLabels(SongPath),
}

/// Messages between the browser and the player.
pub enum MusicStreamEvent {
    /// The user chose a queue and the index of the track to start with.
    NewPlaylistEvent(Vec<TrackDetails>, usize),
    /// The user paused or resumed (the index is unused).
    PlaybackEvent(PlaybackMode, usize),
    /// A track played to its end and the player moved on to this track at
    /// this index.
    TrackAutoAdvanced(TrackDetails, usize),
}

/// A list the browser can show.
pub enum MusicItems {
    Albums(Vec<Album>),
    Songs(Vec<TrackDetails>),
}

} // verus!
