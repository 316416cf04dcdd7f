use vstd::prelude::*;
use crate::track::{TrackDetails, tracks_view, albums_view, clone_track, clone_tracks, clone_albums};
use crate::types::{VimMode, PlaybackMode, Page, MusicStreamEvent, LocalTrackUpdateType, SongPath, Label};
use crate::app::{
    App, Effect, EffectView, Key, effects_view, shown_len, pasted, second_press,
    yanked_row, deleted_row, toggled, entered, escaped, since, spliced, rows, key_panics, normal_next,
    refilter_panics, refiltered, search_next, command_next, command_ran, sort_kind, sorted_as, marking_next,
    visual_next, key_step, shows_whole_source, refilters, song_query,
};
use crate::text::{push_char, without_last, without_first};
use crate::search::{filter_tracks, filter_albums};
use crate::nav::{parse_command_args, find_path};
use crate::sort::{sort_albums, sort_albums_by_stat_desc, sort_tracks_by_stat_desc};

verus! {

/// No work for the surroundings.
pub fn no_effects() -> (e: Vec<Effect>)
    ensures
        effects_view(e@) == Seq::<EffectView>::empty(),
{
    let e: Vec<Effect> = Vec::new();
    assert(effects_view(e@) =~= Seq::<EffectView>::empty());
    e
}

/// One piece of work for the surroundings.
fn one_effect(x: Effect) -> (e: Vec<Effect>)
    ensures
        effects_view(e@) == seq![x@],
{
    let mut e: Vec<Effect> = Vec::new();
    e.push(x);
    assert(effects_view(e@) =~= seq![x@]);
    e
}

/// A command line "<cmd> <arg>" starts with "sort " exactly when its
/// command is `sort`, and then its argument is the rest of the line.
proof fn lemma_sort_word(buff: Seq<char>, cmd: Seq<char>, arg: Seq<char>)
    requires
        buff == cmd + seq![' '] + arg,
        !cmd.contains(' '),
    ensures
        (buff.len() >= 5 && buff.take(5) == "sort "@) <==> cmd == "sort"@,
        cmd == "sort"@ ==> buff.skip(5) == arg,
{
    reveal_strlit("sort ");
    reveal_strlit("sort");
    if cmd == "sort"@ {
        assert(buff.take(5) =~= "sort "@);
        assert(buff.skip(5) =~= arg);
    }
    if buff.len() >= 5 && buff.take(5) == "sort "@ {
        if cmd.len() > 4 {
            assert(cmd[4] == buff.take(5)[4]);
        } else if cmd.len() < 4 {
            assert(buff[cmd.len() as int] == ' ');
            assert(buff.take(5)[cmd.len() as int] == buff[cmd.len() as int]);
        }
        assert(cmd =~= "sort"@) by {
            assert forall|i: int| 0 <= i < 4 implies cmd[i] == "sort"@[i] by {
                assert(buff.take(5)[i] == buff[i]);
            }
        }
    }
}

/// `v` without its rows `lo..hi`.
fn cut_rows(v: &Vec<TrackDetails>, lo: usize, hi: usize) -> (r: Vec<TrackDetails>)
    requires
        lo <= hi <= v@.len(),
    ensures
        tracks_view(r@) == tracks_view(v@).take(lo as int) + tracks_view(v@).skip(hi as int),
{
    let front = rows(v, 0, lo);
    let back = rows(v, hi, v.len());
    let r = spliced(&back, 0, &front);
    assert(tracks_view(back@).take(0) + tracks_view(front@) + tracks_view(back@).skip(0)
        =~= tracks_view(v@).take(lo as int) + tracks_view(v@).skip(hi as int));
    r
}

impl App {
    /// Whether this key, pressed at `now`, completes a double press.
    fn is_second_press(&self, c: char, now: u64) -> (r: bool)
        ensures
            r == second_press(self@, c, now),
    {
        let waited = if now >= self.key_pressed_time { now - self.key_pressed_time } else { 0 };
        self.last_key == c && waited < 300
    }

    /// Pastes the yank buffer after the cursor (into an empty list, as the
    /// whole list).
    pub fn paste(&mut self)
        requires
            old(self).viewer != Page::Albums,
            old(self).page_songs@.len() > 0 ==> old(self).cursor < old(self).page_songs@.len(),
        ensures
            final(self)@ == pasted(old(self)@),
    {
        if self.page_songs.len() == 0 {
            self.page_songs = clone_tracks(&self.yank_buff);
        } else {
            self.page_songs = spliced(&self.page_songs, self.cursor + 1, &self.yank_buff);
        }
    }

    /// `yy`: copy the row under the cursor into the yank buffer.
    fn yank_row(&mut self)
        requires
            old(self).cursor < shown_len(old(self)@),
        ensures
            final(self)@ == yanked_row(old(self)@),
    {
        if self.viewer == Page::Albums {
            self.yank_buff = clone_tracks(&self.page_albums[self.cursor].songs);
        } else {
            let mut b: Vec<TrackDetails> = Vec::new();
            b.push(clone_track(&self.page_songs[self.cursor]));
            assert(tracks_view(b@) =~= seq![tracks_view(self.page_songs@)[self.cursor as int]]);
            self.yank_buff = b;
        }
        self.last_key = ' ';
    }

    /// `dd`: cut the row under the cursor into the yank buffer.
    fn delete_row(&mut self)
        requires
            old(self).cursor < shown_len(old(self)@),
        ensures
            final(self)@ == deleted_row(old(self)@),
    {
        let c = self.cursor;
        if self.viewer == Page::Albums {
            self.yank_buff = clone_tracks(&self.page_albums[c].songs);
            let ghost before = self.page_albums@;
            self.page_albums.remove(c);
            assert(albums_view(self.page_albums@) =~= albums_view(before).remove(c as int));
        } else {
            let mut b: Vec<TrackDetails> = Vec::new();
            b.push(clone_track(&self.page_songs[c]));
            assert(tracks_view(b@) =~= seq![tracks_view(self.page_songs@)[c as int]]);
            self.yank_buff = b;
            let ghost before = self.page_songs@;
            self.page_songs.remove(c);
            assert(tracks_view(self.page_songs@) =~= tracks_view(before).remove(c as int));
        }
        self.decrement_counter();
        self.last_key = ' ';
    }

    /// Space: pause or resume.
    fn toggle(&mut self, now: u64) -> (effects: Vec<Effect>)
        requires
            old(self).playback_mode == PlaybackMode::Playing ==> (old(self).play_start is Some
                && old(self).elapsed_before_paused + since(now, old(self).play_start->Some_0) <= u64::MAX),
        ensures
            (final(self)@, effects_view(effects@)) == toggled(old(self)@, now),
    {
        match self.playback_mode {
            PlaybackMode::NotPlaying => no_effects(),
            PlaybackMode::Playing => {
                self.playback_mode = PlaybackMode::Paused;
                let start = match self.play_start { Some(t) => t, None => now };
                let played = if now >= start { now - start } else { 0 };
                self.elapsed_before_paused = self.elapsed_before_paused + played;
                self.play_start = None;
                one_effect(Effect::Send(MusicStreamEvent::PlaybackEvent(PlaybackMode::Paused, 0)))
            },
            PlaybackMode::Paused => {
                self.playback_mode = PlaybackMode::Playing;
                self.play_start = Some(now);
                one_effect(Effect::Send(MusicStreamEvent::PlaybackEvent(PlaybackMode::Playing, 0)))
            },
        }
    }

    /// Enter: open the album under the cursor, or play from the cursor.
    fn enter(&mut self) -> (effects: Vec<Effect>)
        requires
            old(self).viewer == Page::Albums ==> old(self).page_albums@.len() == 0
                || old(self).cursor < old(self).page_albums@.len(),
        ensures
            (final(self)@, effects_view(effects@)) == entered(old(self)@),
    {
        if self.viewer == Page::Albums {
            if self.page_albums.len() == 0 {
                return no_effects();
            }
            let a = self.page_albums[self.cursor].clone();
            self.page_songs = clone_tracks(&a.songs);
            self.page_songs_unfiltered = clone_tracks(&a.songs);
            self.album_selected = Some(a.clone());
            self.viewer = Page::Songs;
            self.cursor = 0;
            one_effect(Effect::Preload(a))
        } else if self.page_songs.len() == 0 {
            no_effects()
        } else {
            one_effect(Effect::Send(MusicStreamEvent::NewPlaylistEvent(clone_tracks(&self.page_songs), self.cursor)))
        }
    }

    /// Esc in normal mode: back to all albums.
    fn escape(&mut self)
        ensures
            final(self)@ == escaped(old(self)@),
    {
        self.page_albums = clone_albums(&self.albums_unfiltered);
        self.cursor = self.albums_cursor;
        self.user_buff = String::new();
        self.viewer = Page::Albums;
        self.album_selected = None;
    }

    /// A key in normal mode.
    fn normal_key(&mut self, key: Key, now: u64) -> (effects: Vec<Effect>)
        requires
            old(self).mode == VimMode::Normal,
            !key_panics(old(self)@, key, now),
        ensures
            (final(self)@, effects_view(effects@)) == normal_next(old(self)@, key, now),
    {
        match key {
            Key::Char(c) => {
                if c == 'q' {
                    self.exit = true;
                    no_effects()
                } else if c == 'j' {
                    self.increment_counter();
                    no_effects()
                } else if c == 'k' {
                    self.decrement_counter();
                    no_effects()
                } else if c == 'h' {
                    self.prev_song()
                } else if c == 'l' {
                    self.next_song()
                } else if c == '/' {
                    self.mode = VimMode::Search;
                    no_effects()
                } else if c == ':' {
                    self.mode = VimMode::Command;
                    no_effects()
                } else if c == 'V' {
                    self.mode = VimMode::VisualLine;
                    self.vline_begin = Some(self.cursor);
                    no_effects()
                } else if c == 'm' {
                    self.mode = if self.viewer != Page::Albums { VimMode::Marking } else { VimMode::Normal };
                    no_effects()
                } else if c == 'g' {
                    if self.is_second_press('g', now) {
                        self.cursor = 0;
                        self.albums_cursor = 0;
                        self.last_key = ' ';
                    } else {
                        self.last_key = 'g';
                        self.key_pressed_time = now;
                    }
                    no_effects()
                } else if c == 'y' {
                    if self.is_second_press('y', now) {
                        self.yank_row();
                    } else {
                        self.last_key = 'y';
                        self.key_pressed_time = now;
                    }
                    no_effects()
                } else if c == 'd' {
                    if self.is_second_press('d', now) && self.page_songs.len() > 0 {
                        self.delete_row();
                    } else {
                        self.last_key = 'd';
                        self.key_pressed_time = now;
                    }
                    no_effects()
                } else if c == 'G' {
                    if self.viewer == Page::Albums {
                        self.cursor = self.page_albums.len() - 1;
                        self.albums_cursor = self.cursor;
                    } else {
                        self.cursor = self.page_songs.len() - 1;
                    }
                    no_effects()
                } else if c == ' ' || c == 'p' {
                    self.toggle(now)
                } else {
                    no_effects()
                }
            },
            Key::Esc => {
                self.escape();
                no_effects()
            },
            Key::Enter => self.enter(),
            _ => no_effects(),
        }
    }

    /// The list shown, filtered anew by the buffer; the cursor goes to the top.
    fn refilter(&mut self)
        requires
            !refilter_panics(old(self)@),
        ensures
            final(self)@ == refiltered(old(self)@),
            song_query(old(self)@).len() == 0 ==> shows_whole_source(final(self)@),
    {
        if self.viewer == Page::Albums {
            self.page_albums = filter_albums(self.albums_unfiltered.as_slice(), self.user_buff.as_str());
        } else if self.viewer == Page::Songs {
            self.page_songs = filter_tracks(self.page_songs_unfiltered.as_slice(), self.user_buff.as_str());
        } else {
            let q = without_first(self.user_buff.as_str());
            self.page_songs = filter_tracks(self.all_songs_unfiltered.as_slice(), q);
        }
        self.cursor = 0;
    }

    /// A key in search mode.
    fn search_key(&mut self, key: Key)
        requires
            old(self).mode == VimMode::Search,
            !key_panics(old(self)@, key, 0),
        ensures
            final(self)@ == search_next(old(self)@, key),
            refilters(old(self)@, key) && song_query(final(self)@).len() == 0 ==> shows_whole_source(final(self)@),
    {
        match key {
            Key::Char(c) => {
                push_char(&mut self.user_buff, c);
                if self.user_buff.as_str().get_char(0) == '*' {
                    self.viewer = Page::Search;
                }
                self.refilter();
            },
            Key::Backspace => {
                if self.user_buff.as_str().unicode_len() == 0 {
                    return;
                }
                self.user_buff = without_last(&self.user_buff);
                self.refilter();
            },
            Key::Enter => {
                self.cursor = 0;
                self.user_buff = String::new();
                self.mode = VimMode::Normal;
            },
            Key::Esc => {
                self.cursor = 0;
                self.user_buff = String::new();
                self.mode = VimMode::Normal;
                if self.viewer == Page::Albums {
                    self.page_albums = clone_albums(&self.albums_unfiltered);
                } else if self.viewer == Page::Songs {
                    self.page_songs = clone_tracks(&self.page_songs_unfiltered);
                } else {
                    self.page_songs = clone_tracks(&self.all_songs_unfiltered);
                }
            },
            _ => {},
        }
    }

    /// A key other than Enter in command mode.
    fn command_key(&mut self, key: Key)
        ensures
            final(self)@ == command_next(old(self)@, key),
    {
        match key {
            Key::Char(c) => {
                push_char(&mut self.user_buff, c);
                self.cursor = 0;
            },
            Key::Backspace => {
                if self.user_buff.as_str().unicode_len() == 0 {
                    return;
                }
                self.user_buff = without_last(&self.user_buff);
                self.cursor = 0;
            },
            Key::Esc => {
                self.cursor = 0;
                self.user_buff = String::new();
                self.mode = VimMode::Normal;
            },
            _ => {},
        }
    }

    /// Runs a command: `sort last_played`, `sort duration_played` and
    /// `sort date_added` sort the list shown by that statistic, largest
    /// first; `sort` with another argument sorts the albums; any other
    /// command does nothing.
    pub fn run_command(&mut self, cmd: &str, arg: &str)
        ensures
            sorted_as(old(self)@, final(self)@, sort_kind(cmd@, arg@)),
    {
        if !(String::from_str(cmd) == String::from_str("sort")) {
            return;
        }
        let a = String::from_str(arg);
        let k: u8 = if a == String::from_str("last_played") {
            0
        } else if a == String::from_str("duration_played") {
            1
        } else if a == String::from_str("date_added") {
            2
        } else {
            3
        };
        if k == 3 {
            sort_albums(&mut self.page_albums);
        } else if self.viewer == Page::Albums {
            sort_albums_by_stat_desc(&mut self.page_albums, k);
        } else {
            sort_tracks_by_stat_desc(&mut self.page_songs, k);
        }
    }

    /// Runs the command line in the buffer, "<command> <argument>"; a line
    /// of another shape does nothing.
    pub fn parse_command(&mut self)
        ensures
            command_ran(old(self)@, final(self)@),
    {
        let buff = self.user_buff.clone();
        let (cmd, arg) = match parse_command_args(buff.as_str()) {
            Some(p) => p,
            None => {
                return;
            },
        };
        proof {
            lemma_sort_word(buff@, cmd@, arg@);
            reveal_strlit("sort");
        }
        self.run_command(cmd, arg);
    }

    /// A key in marking mode.
    fn marking_key(&mut self, key: Key) -> (effects: Vec<Effect>)
        requires
            old(self).mode == VimMode::Marking,
            !key_panics(old(self)@, key, 0),
        ensures
            (final(self)@, effects_view(effects@)) == marking_next(old(self)@, key),
    {
        match key {
            Key::Char(c) => {
                push_char(&mut self.user_buff, c);
                no_effects()
            },
            Key::Backspace => {
                if self.user_buff.as_str().unicode_len() > 0 {
                    self.user_buff = without_last(&self.user_buff);
                }
                no_effects()
            },
            Key::Enter => {
                if !self.has_db || self.viewer == Page::Albums {
                    self.user_buff = String::new();
                    self.mode = VimMode::Normal;
                    return no_effects();
                }
                let path = self.page_songs[self.cursor].song_path.clone();
                let label = self.user_buff.clone();
                self.update_song_label_local(LocalTrackUpdateType::AddLabel(SongPath(path.clone()), Label(label.clone())), 0);
                self.user_buff = String::new();
                self.mode = VimMode::Normal;
                one_effect(Effect::AddLabel(path, label))
            },
            Key::Delete => {
                if !self.has_db || self.viewer == Page::Albums {
                    self.user_buff = String::new();
                    self.mode = VimMode::Normal;
                    return no_effects();
                }
                let path = self.page_songs[self.cursor].song_path.clone();
                self.update_song_label_local(LocalTrackUpdateType::WipeLabels(SongPath(path.clone())), 0);
                self.user_buff = String::new();
                self.mode = VimMode::Normal;
                one_effect(Effect::WipeLabels(path))
            },
            Key::Esc => {
                self.user_buff = String::new();
                self.mode = VimMode::Normal;
                no_effects()
            },
            _ => no_effects(),
        }
    }

    /// A key other than Enter in visual-line mode.
    fn visual_key(&mut self, key: Key)
        requires
            old(self).mode == VimMode::VisualLine,
            !key_panics(old(self)@, key, 0),
        ensures
            final(self)@ == visual_next(old(self)@, key),
    {
        match key {
            Key::Char(c) => {
                if c == 'j' {
                    self.increment_counter();
                } else if c == 'k' {
                    self.decrement_counter();
                } else if c == 'd' || c == 'y' {
                    if let Some(b) = self.vline_begin {
                        let lo = if b < self.cursor { b } else { self.cursor };
                        let hi = if self.cursor + 1 > b { self.cursor + 1 } else { b };
                        self.yank_buff = rows(&self.page_songs, lo, hi);
                        if c == 'd' {
                            self.page_songs = cut_rows(&self.page_songs, lo, hi);
                            self.cursor = lo;
                        }
                    }
                    self.mode = VimMode::Normal;
                }
            },
            Key::Esc => {
                self.user_buff = String::new();
                self.mode = VimMode::Normal;
            },
            _ => {},
        }
    }

    /// Whether `handle_key_event` must refuse this key: the cases in which
    /// the key cannot be handled (an index out of range, an overflow, a
    /// missing value, or a command that exists only on another page).
    pub fn key_would_panic(&self, key: Key, now: u64) -> (r: bool)
        ensures
            r == key_panics(self@, key, now),
    {
        let shown = if self.viewer == Page::Albums { self.page_albums.len() } else { self.page_songs.len() };
        match self.mode {
            VimMode::Normal => match key {
                Key::Char(c) => {
                    if c == 'j' {
                        shown > 0 && self.cursor == usize::MAX
                    } else if c == 'h' || c == 'l' {
                        self.song_queue.is_some() && self.playing_song_idx.is_none()
                    } else if c == 'y' {
                        self.is_second_press('y', now) && self.cursor >= shown
                    } else if c == 'd' {
                        self.is_second_press('d', now) && self.page_songs.len() > 0 && self.cursor >= shown
                    } else if c == 'G' {
                        shown == 0
                    } else if c == ' ' || c == 'p' {
                        self.playback_mode == PlaybackMode::Playing && match self.play_start {
                            None => true,
                            Some(t) => {
                                let played = if now >= t { now - t } else { 0 };
                                self.elapsed_before_paused.checked_add(played).is_none()
                            },
                        }
                    } else {
                        false
                    }
                },
                Key::Enter => self.viewer == Page::Albums && self.page_albums.len() > 0
                    && self.cursor >= self.page_albums.len(),
                _ => false,
            },
            VimMode::Search => {
                let n = self.user_buff.as_str().unicode_len();
                match key {
                    Key::Char(c) => {
                        let first = if n == 0 { c } else { self.user_buff.as_str().get_char(0) };
                        (first == '*' || self.viewer == Page::Search) && (first as u32) >= 0x80
                    },
                    Key::Backspace => n > 0 && self.viewer == Page::Search
                        && (n == 1 || (self.user_buff.as_str().get_char(0) as u32) >= 0x80),
                    _ => false,
                }
            },
            VimMode::Marking => (key == Key::Enter || key == Key::Delete) && self.has_db && self.viewer != Page::Albums
                && (self.cursor >= self.page_songs.len()
                || find_path(&self.all_songs_unfiltered, self.page_songs[self.cursor].song_path.as_str()).is_none()),
            VimMode::Command => false,
            VimMode::VisualLine => match key {
                Key::Char(c) => {
                    if c == 'j' {
                        shown > 0 && self.cursor == usize::MAX
                    } else if c == 'd' || c == 'y' {
                        self.viewer == Page::Albums || match self.vline_begin {
                            Some(b) => self.cursor == usize::MAX || {
                                let hi = if self.cursor + 1 > b { self.cursor + 1 } else { b };
                                hi > self.page_songs.len()
                            },
                            None => false,
                        }
                    } else {
                        false
                    }
                },
                _ => false,
            },
        }
    }

    /// Handles one key pressed at `now` (milliseconds on a monotonic
    /// clock) and returns the work the surroundings must do.
    pub fn handle_key_event(&mut self, key: Key, now: u64) -> (effects: Vec<Effect>)
        requires
            !key_panics(old(self)@, key, now),
        ensures
            key_step(old(self)@, key, now, final(self)@, effects_view(effects@)),
            refilters(old(self)@, key) && song_query(final(self)@).len() == 0 ==> shows_whole_source(final(self)@),
    {
        match self.mode {
            VimMode::Normal => self.normal_key(key, now),
            VimMode::Search => {
                self.search_key(key);
                no_effects()
            },
            VimMode::Marking => self.marking_key(key),
            VimMode::Command => {
                if key == Key::Enter {
                    self.parse_command();
                    self.user_buff = String::new();
                    self.mode = VimMode::Normal;
                } else {
                    self.command_key(key);
                }
                no_effects()
            },
            VimMode::VisualLine => {
                if key == Key::Enter {
                    self.parse_command();
                    self.user_buff = String::new();
                    self.mode = VimMode::Normal;
                    self.viewer = Page::Albums;
                } else {
                    self.visual_key(key);
                }
                no_effects()
            },
        }
    }
}

} // verus!
