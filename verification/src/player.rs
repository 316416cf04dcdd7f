use vstd::prelude::*;
use crate::track::{TrackDetails, TrackView, tracks_view, clone_track, clone_tracks};
use crate::types::{PlaybackMode, MusicStreamEvent};

verus! {

/// The player while a queue is loaded: the queue, the index of the track
/// playing, the time left of that track and whether it is paused.
pub struct Player {
    pub playlist: Vec<TrackDetails>,
    pub track_no: usize,
    /// Milliseconds left of the current track.
    pub remaining_ms: u128,
    pub is_paused: bool,
}

/// The player as a specification sees it.
pub struct PlayerView {
    pub playlist: Seq<TrackView>,
    pub track_no: usize,
    pub remaining_ms: u128,
    pub is_paused: bool,
}

impl View for Player {
    type V = PlayerView;

    open spec fn view(&self) -> PlayerView {
        PlayerView {
            playlist: tracks_view(self.playlist@),
            track_no: self.track_no,
            remaining_ms: self.remaining_ms,
            is_paused: self.is_paused,
        }
    }
}

impl PlayerView {
    /// The index playing lies inside the queue.
    pub open spec fn wf(self) -> bool {
        self.track_no < self.playlist.len()
    }
}

/// What the player learns while it waits.
pub enum PlayerInput {
    /// A message from the browser, after waiting this many milliseconds.
    Message(MusicStreamEvent, u64),
    /// The current track's time ran out while it played.
    TimedOut,
    /// Nobody can send messages any more.
    Closed,
}

/// Work the player's surroundings must do.
pub enum PlayerAction {
    /// Play the audio file at this path from its start, in place of any
    /// track playing.
    StartTrack(String),
    Pause,
    Resume,
    /// Pass this message on to the browser.
    Notify(MusicStreamEvent),
    /// Nothing plays any more: the queue has been played to its end.
    Stopped,
}

/// What an action looks like to a specification.
pub enum PlayerActionView {
    StartTrack(Seq<char>),
    Pause,
    Resume,
    NotifyPlaylist(Seq<TrackView>, usize),
    NotifyAdvanced(TrackView, usize),
    NotifyPlayback(PlaybackMode, usize),
    Stopped,
}

impl View for PlayerAction {
    type V = PlayerActionView;

    open spec fn view(&self) -> PlayerActionView {
        match self {
            PlayerAction::StartTrack(p) => PlayerActionView::StartTrack(p@),
            PlayerAction::Pause => PlayerActionView::Pause,
            PlayerAction::Resume => PlayerActionView::Resume,
            PlayerAction::Notify(MusicStreamEvent::NewPlaylistEvent(q, i)) => PlayerActionView::NotifyPlaylist(tracks_view(q@), *i),
            PlayerAction::Notify(MusicStreamEvent::TrackAutoAdvanced(t, i)) => PlayerActionView::NotifyAdvanced(t@, *i),
            PlayerAction::Notify(MusicStreamEvent::PlaybackEvent(m, i)) => PlayerActionView::NotifyPlayback(*m, *i),
            PlayerAction::Stopped => PlayerActionView::Stopped,
        }
    }
}

/// What a list of player actions looks like to a specification.
pub open spec fn actions_view(a: Seq<PlayerAction>) -> Seq<PlayerActionView> {
    a.map_values(|x: PlayerAction| x@)
}

/// Track `i` of `playlist` starts from its beginning.
pub open spec fn started(playlist: Seq<TrackView>, i: usize) -> PlayerView {
    PlayerView {
        playlist,
        track_no: i,
        remaining_ms: (playlist[i as int].duration * 1000) as u128,
        is_paused: false,
    }
}

/// A new queue chosen by the user: the browser is told, and its track `i`
/// starts.
pub open spec fn queue_started(playlist: Seq<TrackView>, i: usize) -> (PlayerView, Seq<PlayerActionView>) {
    (
        started(playlist, i),
        seq![PlayerActionView::NotifyPlaylist(playlist, i), PlayerActionView::StartTrack(playlist[i as int].song_path)],
    )
}

/// The first message decides whether the player starts at all: only a
/// new queue starts it.
pub open spec fn first_message(m: Option<MusicStreamEvent>) -> Option<(PlayerView, Seq<PlayerActionView>)> {
    match m {
        Some(MusicStreamEvent::NewPlaylistEvent(q, i)) => Some(queue_started(tracks_view(q@), i)),
        _ => None,
    }
}

/// The first messages the player cannot handle: a queue that has no track
/// at the index given.
pub open spec fn first_message_panics(m: Option<MusicStreamEvent>) -> bool {
    m matches Some(MusicStreamEvent::NewPlaylistEvent(q, i)) && i >= q@.len()
}

/// The player after an input, and the work it asks for.
pub open spec fn player_next(p: PlayerView, input: &PlayerInput) -> (PlayerView, Seq<PlayerActionView>) {
    match input {
        PlayerInput::Message(MusicStreamEvent::NewPlaylistEvent(q, i), _) => queue_started(tracks_view(q@), *i),
        PlayerInput::Message(MusicStreamEvent::PlaybackEvent(mode, _), waited) => match mode {
            PlaybackMode::Paused => (
                PlayerView {
                    is_paused: true,
                    remaining_ms: if p.remaining_ms >= *waited { (p.remaining_ms - *waited) as u128 } else { 0 },
                    ..p
                },
                seq![PlayerActionView::Pause],
            ),
            PlaybackMode::Playing => (PlayerView { is_paused: false, ..p }, seq![PlayerActionView::Resume]),
            PlaybackMode::NotPlaying => (p, seq![]),
        },
        PlayerInput::Message(MusicStreamEvent::TrackAutoAdvanced(_, _), _) => (p, seq![]),
        PlayerInput::TimedOut => if p.track_no + 1 == p.playlist.len() {
            (p, seq![PlayerActionView::Stopped])
        } else {
            let n = (p.track_no + 1) as usize;
            (
                started(p.playlist, n),
                seq![PlayerActionView::NotifyAdvanced(p.playlist[n as int], n), PlayerActionView::StartTrack(p.playlist[n as int].song_path)],
            )
        },
        PlayerInput::Closed => (p, seq![]),
    }
}

/// The inputs the player cannot handle: a queue without a track at the
/// index given, and a message that only the player itself sends.
pub open spec fn player_panics(input: &PlayerInput) -> bool {
    match input {
        PlayerInput::Message(MusicStreamEvent::NewPlaylistEvent(q, i), _) => *i >= q@.len(),
        PlayerInput::Message(MusicStreamEvent::TrackAutoAdvanced(_, _), _) => true,
        _ => false,
    }
}

/// The time of a track in milliseconds.
fn track_ms(t: &TrackDetails) -> (r: u128)
    ensures
        r == t.duration * 1000,
{
    (t.duration as u128) * 1000
}

/// Starts track `i` of `playlist` and tells the browser about the queue.
fn start_queue(playlist: Vec<TrackDetails>, i: usize) -> (r: (Player, Vec<PlayerAction>))
    requires
        i < playlist@.len(),
    ensures
        (r.0@, actions_view(r.1@)) == queue_started(tracks_view(playlist@), i),
{
    let path = playlist[i].song_path.clone();
    let ms = track_ms(&playlist[i]);
    let mut a: Vec<PlayerAction> = Vec::new();
    a.push(PlayerAction::Notify(MusicStreamEvent::NewPlaylistEvent(clone_tracks(&playlist), i)));
    a.push(PlayerAction::StartTrack(path));
    let ghost q = tracks_view(playlist@);
    assert(actions_view(a@) =~= seq![PlayerActionView::NotifyPlaylist(q, i), PlayerActionView::StartTrack(q[i as int].song_path)]);
    (Player { playlist, track_no: i, remaining_ms: ms, is_paused: false }, a)
}

/// Whether the player cannot handle this input (see `player_panics`).
pub fn input_refused(input: &PlayerInput) -> (r: bool)
    ensures
        r == player_panics(input),
{
    match input {
        PlayerInput::Message(MusicStreamEvent::NewPlaylistEvent(q, i), _) => *i >= q.len(),
        PlayerInput::Message(MusicStreamEvent::TrackAutoAdvanced(_, _), _) => true,
        _ => false,
    }
}

/// Whether the player cannot handle this first message.
pub fn first_message_refused(m: &Option<MusicStreamEvent>) -> (r: bool)
    ensures
        r == first_message_panics(*m),
{
    match m {
        Some(MusicStreamEvent::NewPlaylistEvent(q, i)) => *i >= q.len(),
        _ => false,
    }
}

impl Player {
    /// Handles the first message the player receives (`None` when nobody
    /// can send any): a new queue starts the player; anything else ends it.
    pub fn begin(first: Option<MusicStreamEvent>) -> (r: Option<(Player, Vec<PlayerAction>)>)
        requires
            !first_message_panics(first),
        ensures
            match r {
                Some((p, a)) => first_message(first) == Some((p@, actions_view(a@))),
                None => first_message(first) is None,
            },
            r matches Some((p, _)) ==> p@.wf(),
    {
        match first {
            Some(MusicStreamEvent::NewPlaylistEvent(q, i)) => Some(start_queue(q, i)),
            _ => None,
        }
    }

    /// How long to wait for a message: while paused, until one comes;
    /// otherwise until the current track's time runs out.
    pub fn wait_limit(&self) -> (r: Option<u128>)
        ensures
            r == if self.is_paused { None } else { Some(self.remaining_ms) },
    {
        if self.is_paused { None } else { Some(self.remaining_ms) }
    }

    /// Handles one input and returns the work to do.
    pub fn step(&mut self, input: PlayerInput) -> (actions: Vec<PlayerAction>)
        requires
            old(self)@.wf(),
            !player_panics(&input),
        ensures
            (final(self)@, actions_view(actions@)) == player_next(old(self)@, &input),
            final(self)@.wf(),
    {
        match input {
            PlayerInput::Message(MusicStreamEvent::NewPlaylistEvent(q, i), _) => {
                let (p, a) = start_queue(q, i);
                *self = p;
                a
            },
            PlayerInput::Message(MusicStreamEvent::PlaybackEvent(mode, _), waited) => {
                let mut a: Vec<PlayerAction> = Vec::new();
                match mode {
                    PlaybackMode::Paused => {
                        self.is_paused = true;
                        let w = waited as u128;
                        self.remaining_ms = if self.remaining_ms >= w { self.remaining_ms - w } else { 0 };
                        a.push(PlayerAction::Pause);
                        assert(actions_view(a@) =~= seq![PlayerActionView::Pause]);
                    },
                    PlaybackMode::Playing => {
                        self.is_paused = false;
                        a.push(PlayerAction::Resume);
                        assert(actions_view(a@) =~= seq![PlayerActionView::Resume]);
                    },
                    PlaybackMode::NotPlaying => {
                        assert(actions_view(a@) =~= Seq::<PlayerActionView>::empty());
                    },
                }
                a
            },
            PlayerInput::Message(MusicStreamEvent::TrackAutoAdvanced(_, _), _) => {
                let a: Vec<PlayerAction> = Vec::new();
                assert(actions_view(a@) =~= Seq::<PlayerActionView>::empty());
                a
            },
            PlayerInput::TimedOut => {
                let mut a: Vec<PlayerAction> = Vec::new();
                let len = self.playlist.len();
                if self.track_no + 1 == len {
                    a.push(PlayerAction::Stopped);
                    assert(actions_view(a@) =~= seq![PlayerActionView::Stopped]);
                } else {
                    let n = self.track_no + 1;
                    let next = clone_track(&self.playlist[n]);
                    let path = next.song_path.clone();
                    self.remaining_ms = track_ms(&next);
                    self.track_no = n;
                    self.is_paused = false;
                    a.push(PlayerAction::Notify(MusicStreamEvent::TrackAutoAdvanced(next, n)));
                    a.push(PlayerAction::StartTrack(path));
                    let ghost q = tracks_view(self.playlist@);
                    assert(actions_view(a@) =~= seq![PlayerActionView::NotifyAdvanced(q[n as int], n),
                        PlayerActionView::StartTrack(q[n as int].song_path)]);
                }
                a
            },
            PlayerInput::Closed => {
                let a: Vec<PlayerAction> = Vec::new();
                assert(actions_view(a@) =~= Seq::<PlayerActionView>::empty());
                a
            },
        }
    }
}

} // verus!
