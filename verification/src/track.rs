use vstd::prelude::*;

verus! {

/// What a track looks like to a specification: strings as character sequences.
pub struct TrackView {
    pub artist: Seq<char>,
    pub album: Seq<char>,
    pub track_no: u32,
    pub title: Seq<char>,
    pub date: Seq<char>,
    pub song_path: Seq<char>,
    pub duration: u64,
    pub stats: (u64, u64, u64),
    pub tags: Seq<(Seq<char>, u64)>,
}

/// One audio file of the library with its tags and listening statistics.
/// `stats` is (last_played, duration_played, date_added);
/// `tags` holds (playlist label, time the track entered the playlist).
#[derive(PartialEq, Eq, PartialOrd, Ord, Debug, Hash)]
pub struct TrackDetails {
    pub artist: String,
    pub album: String,
    pub track_no: u32,
    pub title: String,
    pub date: String,
    pub song_path: String,
    pub duration: u64,
    pub stats: (u64, u64, u64),
    pub tags: Vec<(String, u64)>,
}

/// A label with its time as a specification sees it.
pub open spec fn tag_view(t: (String, u64)) -> (Seq<char>, u64) {
    (t.0@, t.1)
}

/// A label list as a specification sees it.
pub open spec fn tags_view(tags: Seq<(String, u64)>) -> Seq<(Seq<char>, u64)> {
    tags.map_values(|t: (String, u64)| tag_view(t))
}

impl View for TrackDetails {
    type V = TrackView;

    open spec fn view(&self) -> TrackView {
        TrackView {
            artist: self.artist@,
            album: self.album@,
            track_no: self.track_no,
            title: self.title@,
            date: self.date@,
            song_path: self.song_path@,
            duration: self.duration,
            stats: self.stats,
            tags: tags_view(self.tags@),
        }
    }
}

/// A track list as a specification sees it.
pub open spec fn tracks_view(s: Seq<TrackDetails>) -> Seq<TrackView> {
    s.map_values(|t: TrackDetails| t@)
}

/// A copy of the tag list that keeps every label and time.
pub fn clone_tags(tags: &Vec<(String, u64)>) -> (r: Vec<(String, u64)>)
    ensures
        tags_view(r@) == tags_view(tags@),
{
    let mut r: Vec<(String, u64)> = Vec::new();
    let mut i: usize = 0;
    while i < tags.len()
        invariant
            i <= tags.len(),
            r@.len() == i,
            tags_view(r@) == tags_view(tags@).take(i as int),
        decreases tags.len() - i,
    {
        let label = tags[i].0.clone();
        let ghost prev = r@;
        r.push((label, tags[i].1));
        assert(r@ == prev.push(r@[i as int]));
        assert forall|j: int| 0 <= j < i + 1 implies #[trigger] tags_view(r@)[j] == tags_view(tags@)[j] by {
            if j < i {
                assert(tags_view(prev)[j] == tags_view(tags@).take(i as int)[j]);
            }
        }
        assert(tags_view(r@) =~= tags_view(tags@).take(i + 1));
        i = i + 1;
    }
    assert(tags_view(tags@).take(tags.len() as int) =~= tags_view(tags@));
    r
}

/// A copy of a track with the same view.
pub fn clone_track(t: &TrackDetails) -> (r: TrackDetails)
    ensures
        r@ == t@,
{
    TrackDetails {
        artist: t.artist.clone(),
        album: t.album.clone(),
        track_no: t.track_no,
        title: t.title.clone(),
        date: t.date.clone(),
        song_path: t.song_path.clone(),
        duration: t.duration,
        stats: t.stats,
        tags: clone_tags(&t.tags),
    }
}

/// A copy of a list of tracks, element by element.
pub fn clone_tracks(s: &Vec<TrackDetails>) -> (r: Vec<TrackDetails>)
    ensures
        tracks_view(r@) == tracks_view(s@),
{
    let mut r: Vec<TrackDetails> = Vec::new();
    let mut i: usize = 0;
    while i < s.len()
        invariant
            i <= s.len(),
            r@.len() == i,
            tracks_view(r@) == tracks_view(s@).take(i as int),
        decreases s.len() - i,
    {
        let ghost prev = r@;
        r.push(clone_track(&s[i]));
        assert forall|j: int| 0 <= j < i + 1 implies #[trigger] tracks_view(r@)[j] == tracks_view(s@)[j] by {
            if j < i {
                assert(tracks_view(prev)[j] == tracks_view(s@).take(i as int)[j]);
            }
        }
        assert(tracks_view(r@) =~= tracks_view(s@).take(i + 1));
        i = i + 1;
    }
    assert(tracks_view(s@).take(s.len() as int) =~= tracks_view(s@));
    r
}

impl Clone for TrackDetails {
    fn clone(&self) -> (r: Self)
        ensures
            r@ == self@,
    {
        clone_track(self)
    }
}

/// The artist of a track whose tag has none.
pub open spec fn unknown_artist() -> Seq<char> {
    "Unknown Artist"@
}

/// The album title of a track whose tag has none.
pub open spec fn unknown_album() -> Seq<char> {
    "Unknown Album"@
}

/// The title of a track whose tag has none.
pub open spec fn unknown_title() -> Seq<char> {
    "Unknown Title"@
}

/// The date of the placeholder track.
pub open spec fn default_date() -> Seq<char> {
    "1900"@
}

/// The path of the placeholder track.
pub open spec fn no_path() -> Seq<char> {
    "None"@
}

impl TrackView {
    /// The placeholder track: every text field unknown, counters zero.
    pub open spec fn placeholder() -> TrackView {
        TrackView {
            artist: unknown_artist(),
            album: unknown_album(),
            track_no: 0,
            title: unknown_title(),
            date: default_date(),
            song_path: no_path(),
            duration: 0,
            stats: (0, 0, 0),
            tags: Seq::empty(),
        }
    }

    /// A track lacks a critical tag when its artist or its title is the placeholder.
    pub open spec fn missing_critical_tags(self) -> bool {
        self.artist == unknown_artist() || self.title == unknown_title()
    }
}

impl Default for TrackDetails {
    fn default() -> (r: Self)
        ensures
            r@ == TrackView::placeholder(),
    {
        let tags: Vec<(String, u64)> = Vec::new();
        assert(tags_view(tags@) =~= Seq::empty());
        TrackDetails {
            artist: String::from_str("Unknown Artist"),
            album: String::from_str("Unknown Album"),
            track_no: 0,
            title: String::from_str("Unknown Title"),
            date: String::from_str("1900"),
            song_path: String::from_str("None"),
            duration: 0,
            stats: (0, 0, 0),
            tags,
        }
    }
}

impl TrackDetails {
    /// Whether the artist or the title still holds its placeholder value.
    pub fn is_missing_critical_tags(&self) -> (r: bool)
        ensures
            r == self@.missing_critical_tags(),
    {
        let defaults = TrackDetails::default();
        self.artist == defaults.artist || self.title == defaults.title
    }
}

/// What an album looks like to a specification.
pub struct AlbumView {
    pub artist: Seq<char>,
    pub album: Seq<char>,
    pub selected: bool,
    pub date: Seq<char>,
    pub songs: Seq<TrackView>,
    pub stats: (u64, u64, u64),
}

/// A group of tracks shown as one entry: a real album, or a playlist shown
/// as a pseudo-album whose `artist` is the playlist label.
#[derive(PartialEq, Eq, PartialOrd, Ord, Debug, Hash)]
pub struct Album {
    pub artist: String,
    pub album: String,
    pub selected: bool,
    pub date: String,
    pub songs: Vec<TrackDetails>,
    pub stats: (u64, u64, u64),
}

impl View for Album {
    type V = AlbumView;

    open spec fn view(&self) -> AlbumView {
        AlbumView {
            artist: self.artist@,
            album: self.album@,
            selected: self.selected,
            date: self.date@,
            songs: tracks_view(self.songs@),
            stats: self.stats,
        }
    }
}

/// An album list as a specification sees it.
pub open spec fn albums_view(s: Seq<Album>) -> Seq<AlbumView> {
    s.map_values(|a: Album| a@)
}

impl Album {
    /// An unselected album with the given fields.
    pub fn new(
        artist: String,
        album: String,
        date: String,
        songs: Vec<TrackDetails>,
        stats: (u64, u64, u64),
    ) -> (r: Self)
        ensures
            r@ == (AlbumView {
                artist: artist@,
                album: album@,
                selected: false,
                date: date@,
                songs: tracks_view(songs@),
                stats: stats,
            }),
    {
        Album { artist, album, selected: false, date, songs, stats }
    }
}

/// A copy of an album with the same view.
pub fn clone_album(a: &Album) -> (r: Album)
    ensures
        r@ == a@,
{
    Album {
        artist: a.artist.clone(),
        album: a.album.clone(),
        selected: a.selected,
        date: a.date.clone(),
        songs: clone_tracks(&a.songs),
        stats: a.stats,
    }
}

impl Clone for Album {
    fn clone(&self) -> (r: Self)
        ensures
            r@ == self@,
    {
        clone_album(self)
    }
}

/// A copy of a list of albums, element by element.
pub fn clone_albums(s: &Vec<Album>) -> (r: Vec<Album>)
    ensures
        albums_view(r@) == albums_view(s@),
{
    let mut r: Vec<Album> = Vec::new();
    let mut i: usize = 0;
    while i < s.len()
        invariant
            i <= s.len(),
            r@.len() == i,
            albums_view(r@) == albums_view(s@).take(i as int),
        decreases s.len() - i,
    {
        let ghost prev = r@;
        r.push(clone_album(&s[i]));
        assert forall|j: int| 0 <= j < i + 1 implies #[trigger] albums_view(r@)[j] == albums_view(s@)[j] by {
            if j < i {
                assert(albums_view(prev)[j] == albums_view(s@).take(i as int)[j]);
            }
        }
        assert(albums_view(r@) =~= albums_view(s@).take(i + 1));
        i = i + 1;
    }
    assert(albums_view(s@).take(s.len() as int) =~= albums_view(s@));
    r
}

impl Default for Album {
    fn default() -> (r: Self)
        ensures
            r@ == (AlbumView {
                artist: unknown_artist(),
                album: unknown_album(),
                selected: false,
                date: default_date(),
                songs: Seq::empty(),
                stats: (0, 0, 0),
            }),
    {
        let songs: Vec<TrackDetails> = Vec::new();
        assert(tracks_view(songs@) =~= Seq::empty());
        Album {
            artist: String::from_str("Unknown Artist"),
            album: String::from_str("Unknown Album"),
            selected: false,
            date: String::from_str("1900"),
            songs,
            stats: (0, 0, 0),
        }
    }
}

/// The part of a track that is cached between scans: everything read from
/// the file's tags, without statistics or playlist labels.
#[derive(PartialEq, Eq, Debug)]
pub struct TrackMetadata {
    pub artist: String,
    pub album: String,
    pub track_no: u32,
    pub title: String,
    pub date: String,
    pub song_path: String,
    pub duration: u64,
}

/// What a cached metadata record looks like to a specification.
pub struct MetadataView {
    pub artist: Seq<char>,
    pub album: Seq<char>,
    pub track_no: u32,
    pub title: Seq<char>,
    pub date: Seq<char>,
    pub song_path: Seq<char>,
    pub duration: u64,
}

impl View for TrackMetadata {
    type V = MetadataView;

    open spec fn view(&self) -> MetadataView {
        MetadataView {
            artist: self.artist@,
            album: self.album@,
            track_no: self.track_no,
            title: self.title@,
            date: self.date@,
            song_path: self.song_path@,
            duration: self.duration,
        }
    }
}

impl TrackView {
    /// The tag-derived part of a track.
    pub open spec fn metadata(self) -> MetadataView {
        MetadataView {
            artist: self.artist,
            album: self.album,
            track_no: self.track_no,
            title: self.title,
            date: self.date,
            song_path: self.song_path,
            duration: self.duration,
        }
    }
}

impl TrackMetadata {
    /// The tag-derived part of a track.
    pub fn from_track(song: &TrackDetails) -> (r: TrackMetadata)
        ensures
            r@ == song@.metadata(),
    {
        TrackMetadata {
            artist: song.artist.clone(),
            album: song.album.clone(),
            track_no: song.track_no,
            title: song.title.clone(),
            date: song.date.clone(),
            song_path: song.song_path.clone(),
            duration: song.duration,
        }
    }
}

impl From<TrackDetails> for TrackMetadata {
    fn from(song: TrackDetails) -> (r: TrackMetadata) {
        TrackMetadata {
            artist: song.artist,
            album: song.album,
            track_no: song.track_no,
            title: song.title,
            date: song.date,
            song_path: song.song_path,
            duration: song.duration,
        }
    }
}

impl vstd::std_specs::convert::FromSpecImpl<TrackDetails> for TrackMetadata {
    open spec fn obeys_from_spec() -> bool {
        true
    }

    open spec fn from_spec(song: TrackDetails) -> TrackMetadata {
        TrackMetadata {
            artist: song.artist,
            album: song.album,
            track_no: song.track_no,
            title: song.title,
            date: song.date,
            song_path: song.song_path,
            duration: song.duration,
        }
    }
}

/// The earliest `last_played` of the tracks; `u64::MAX` for none.
pub open spec fn min_last_played(s: Seq<TrackView>) -> u64
    decreases s.len(),
{
    if s.len() == 0 {
        u64::MAX
    } else {
        let rest = min_last_played(s.drop_last());
        if s.last().stats.0 < rest { s.last().stats.0 } else { rest }
    }
}

/// The total `duration_played` of the tracks.
pub open spec fn total_played(s: Seq<TrackView>) -> int
    decreases s.len(),
{
    if s.len() == 0 {
        0
    } else {
        total_played(s.drop_last()) + s.last().stats.1
    }
}

/// The earliest `date_added` of the tracks; `u64::MAX` for none.
pub open spec fn min_date_added(s: Seq<TrackView>) -> u64
    decreases s.len(),
{
    if s.len() == 0 {
        u64::MAX
    } else {
        let rest = min_date_added(s.drop_last());
        if s.last().stats.2 < rest { s.last().stats.2 } else { rest }
    }
}

/// The statistics of a group of tracks (see `merge_stats`).
pub open spec fn merged_stats(s: Seq<TrackView>) -> (u64, u64, u64) {
    (min_last_played(s), total_played(s) as u64, min_date_added(s))
}

/// A prefix has played no longer than the whole.
pub proof fn lemma_total_played_monotone(s: Seq<TrackView>, i: int)
    requires
        0 <= i <= s.len(),
    ensures
        0 <= total_played(s.take(i)) <= total_played(s),
    decreases s.len() - i,
{
    if i < s.len() {
        lemma_total_played_monotone(s, i + 1);
        assert(s.take(i + 1).drop_last() =~= s.take(i));
    } else {
        assert(s.take(i) =~= s);
    }
    lemma_total_played_nonneg(s.take(i));
}

/// Time played is never negative.
pub proof fn lemma_total_played_nonneg(s: Seq<TrackView>)
    ensures
        total_played(s) >= 0,
    decreases s.len(),
{
    if s.len() > 0 {
        lemma_total_played_nonneg(s.drop_last());
    }
}

/// Statistics of a group of tracks: (earliest last-played, total time
/// played, earliest date added). The empty group gives (MAX, 0, MAX).
pub fn merge_stats(songs: &Vec<TrackDetails>) -> (r: (u64, u64, u64))
    requires
        total_played(tracks_view(songs@)) <= u64::MAX,
    ensures
        r == merged_stats(tracks_view(songs@)),
{
    let ghost s = tracks_view(songs@);
    let mut base: (u64, u64, u64) = (u64::MAX, 0, u64::MAX);
    let mut i: usize = 0;
    while i < songs.len()
        invariant
            i <= songs.len(),
            s == tracks_view(songs@),
            total_played(s) <= u64::MAX,
            base.0 == min_last_played(s.take(i as int)),
            base.1 == total_played(s.take(i as int)),
            base.2 == min_date_added(s.take(i as int)),
        decreases songs.len() - i,
    {
        let stats = songs[i].stats;
        assert(s.take(i + 1).drop_last() =~= s.take(i as int));
        assert(s.take(i + 1).last() == s[i as int]);
        proof {
            lemma_total_played_monotone(s, i + 1);
        }
        let a = if stats.0 < base.0 { stats.0 } else { base.0 };
        let c = if stats.2 < base.2 { stats.2 } else { base.2 };
        base = (a, base.1 + stats.1, c);
        i = i + 1;
    }
    assert(s.take(songs.len() as int) =~= s);
    base
}

/// The time played of two lists joined adds up.
pub proof fn lemma_total_played_concat(a: Seq<TrackView>, b: Seq<TrackView>)
    ensures
        total_played(a + b) == total_played(a) + total_played(b),
    decreases b.len(),
{
    if b.len() == 0 {
        assert(a + b =~= a);
    } else {
        assert((a + b).drop_last() =~= a + b.drop_last());
        lemma_total_played_concat(a, b.drop_last());
    }
}

/// Inserting a track adds its time played.
pub proof fn lemma_total_played_insert(s: Seq<TrackView>, p: int, x: TrackView)
    requires
        0 <= p <= s.len(),
    ensures
        total_played(s.insert(p, x)) == total_played(s) + x.stats.1,
{
    let a = s.subrange(0, p);
    let b = s.subrange(p, s.len() as int);
    assert(s =~= a + b);
    assert(s.insert(p, x) =~= a.push(x) + b);
    lemma_total_played_concat(a, b);
    lemma_total_played_concat(a.push(x), b);
    assert(a.push(x).drop_last() =~= a);
}

/// The view of a list after a push is the view with the track's view pushed.
pub proof fn lemma_tracks_view_push(v: Seq<TrackDetails>, x: TrackDetails)
    ensures
        tracks_view(v.push(x)) == tracks_view(v).push(x@),
{
    assert(tracks_view(v.push(x)) =~= tracks_view(v).push(x@));
}

} // verus!
