# music

A terminal music browser and player with Vim-like keys, whose logic is a
library verified with Verus.

- `j` / `k`: move down / up; `gg` / `G`: top / bottom.
- `/`: search (a leading `*` searches every track of the library).
- `p` or Space: pause / play; `h` / `l`: previous / next track.
- `:`: command line (`sort last_played`, `sort duration_played`,
  `sort date_added`, `sort <anything else>` for the album order).
- `V`: visual-line selection (`y` copies, `d` cuts); `yy`, `dd`: copy, cut a row.
- `m`: give the track under the cursor a playlist label (Enter), or remove
  its labels (Delete).
- `Esc`: leave an input mode, or go back to all albums; `Enter`: open an
  album, or play a track; `q`: quit.

## Layout

- `src/` — the verified library:
  - `track`: tracks, albums, cached tag records, statistics of a group;
  - `order`, `compare`, `sort`: the orders of tracks and albums and the sorts;
  - `text`, `search`: substring search without regard to case;
  - `library`: grouping scanned tracks into albums and playlists;
  - `nav`: cursor and queue arithmetic, the command line, changes to a
    track in every list that holds it;
  - `app`, `keys`, `events`: the browser as a state machine over keys and
    messages from the player, returning the work its surroundings must do;
  - `player`: the playback scheduler as a state machine;
  - `metadata`, `records`, `display`, `art`, `config`: building tracks from
    tags, statistics records, the text shown, the cover cache, settings;
  - `laws`, `browser_laws`: properties that span several functions.
- `tests/` — tests of the library.
- `app/` — the program around it: the terminal, the key and player loops,
  the database on disk, the directory scan, audio output and drawing.
