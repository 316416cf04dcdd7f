use vstd::prelude::*;
use crate::track::{TrackDetails, TrackView, TrackMetadata, tags_view, unknown_artist, unknown_album, unknown_title};
use crate::text::{lowercase, lowercase_of};

verus! {

/// The character of a decimal digit.
pub open spec fn digit_char(d: nat) -> char {
    (48 + d) as char
}

/// The decimal digits of `n`, without leading zeros.
pub open spec fn decimal(n: nat) -> Seq<char>
    decreases n,
{
    if n < 10 {
        seq![digit_char(n)]
    } else {
        decimal(n / 10).push(digit_char(n % 10))
    }
}

/// The decimal digits of `n`, with zeros in front up to `width` characters.
pub open spec fn zero_padded(n: nat, width: nat) -> Seq<char> {
    let d = decimal(n);
    if d.len() >= width {
        d
    } else {
        Seq::new((width - d.len()) as nat, |_i: int| '0') + d
    }
}

/// A date and time as a tag holds it: a year, then each further field
/// only where the one before it is present.
#[derive(PartialEq, Eq, Structural, Clone, Copy, Debug)]
pub struct TimestampFields {
    pub year: u16,
    pub month: Option<u8>,
    pub day: Option<u8>,
    pub hour: Option<u8>,
    pub minute: Option<u8>,
    pub second: Option<u8>,
}

/// The fields after the day, written as `THH:MM:SS`, each only where the
/// one before it is present.
pub open spec fn clock_text(hour: Option<u8>, minute: Option<u8>, second: Option<u8>) -> Seq<char> {
    match hour {
        None => Seq::empty(),
        Some(h) => seq!['T'] + zero_padded(h as nat, 2) + match minute {
            None => Seq::empty(),
            Some(m) => seq![':'] + zero_padded(m as nat, 2) + match second {
                None => Seq::empty(),
                Some(s) => seq![':'] + zero_padded(s as nat, 2),
            },
        },
    }
}

/// A timestamp written as ISO 8601 (`YYYY-MM-DDTHH:MM:SS`), as far as its
/// fields reach.
pub open spec fn timestamp_text(t: TimestampFields) -> Seq<char> {
    zero_padded(t.year as nat, 4) + match t.month {
        None => Seq::empty(),
        Some(m) => seq!['-'] + zero_padded(m as nat, 2) + match t.day {
            None => Seq::empty(),
            Some(d) => seq!['-'] + zero_padded(d as nat, 2) + clock_text(t.hour, t.minute, t.second),
        },
    }
}

/// Formats a timestamp with the `Display` of lofty's `Timestamp`
/// (`lofty::tag::items::Timestamp`). Claimed, as that impl's source shows:
/// the year zero-padded to four digits, then `-MM`, `-DD`, `THH`, `:MM` and
/// `:SS`, each zero-padded to two digits and each written only where the
/// field and all fields before it are present.
#[verifier::external_body]
fn timestamp_to_string(t: &TimestampFields) -> (r: String)
    ensures
        r@ == timestamp_text(*t),
{
    let ts = lofty::tag::items::Timestamp {
        year: t.year,
        month: t.month,
        day: t.day,
        hour: t.hour,
        minute: t.minute,
        second: t.second,
    };
    ts.to_string()
}

/// The date a track gets when its tag has none: the first second of 1900.
pub open spec fn fallback_timestamp() -> TimestampFields {
    TimestampFields { year: 1900, month: Some(1), day: Some(1), hour: Some(0), minute: Some(0), second: Some(0) }
}

/// What the primary tag of an audio file says of its track.
pub struct TagFields {
    pub title: Option<String>,
    pub artist: Option<String>,
    pub album: Option<String>,
    pub date: Option<TimestampFields>,
    pub track: Option<u32>,
}

/// A tag text, or the placeholder where the tag has none.
pub open spec fn text_or(o: Option<String>, fallback: Seq<char>) -> Seq<char> {
    match o {
        Some(s) => s@,
        None => fallback,
    }
}

/// Playlist labels as a track holds them: each with time 0 (the database
/// keeps no time for a label).
pub open spec fn labels_as_tags(labels: Option<Vec<String>>) -> Seq<(Seq<char>, u64)> {
    match labels {
        Some(v) => v@.map_values(|l: String| (l@, 0u64)),
        None => Seq::empty(),
    }
}

/// The statistics a track gets: those read, or, where none could be read,
/// (0, 0, now).
pub open spec fn stats_or_fresh(stats: Option<(u64, u64, u64)>, now: u64) -> (u64, u64, u64) {
    match stats {
        Some(s) => s,
        None => (0, 0, now),
    }
}

/// The track of the audio file at `path` from its primary tag (`None`
/// where the file could not be read or has no primary tag), its length in
/// seconds, the statistics and the playlist labels read for it.
pub open spec fn track_of_tags(
    path: Seq<char>,
    tags: Option<TagFields>,
    duration: u64,
    stats: Option<(u64, u64, u64)>,
    labels: Option<Vec<String>>,
    now: u64,
) -> TrackView {
    match tags {
        None => TrackView { song_path: path, ..TrackView::placeholder() },
        Some(t) => TrackView {
            artist: text_or(t.artist, unknown_artist()),
            album: text_or(t.album, unknown_album()),
            track_no: match t.track { Some(n) => n, None => 0 },
            title: text_or(t.title, unknown_title()),
            date: timestamp_text(match t.date { Some(d) => d, None => fallback_timestamp() }),
            song_path: path,
            duration,
            stats: stats_or_fresh(stats, now),
            tags: labels_as_tags(labels),
        },
    }
}

/// The labels as a track's tag list.
fn labels_to_tags(labels: Option<Vec<String>>) -> (r: Vec<(String, u64)>)
    ensures
        tags_view(r@) == labels_as_tags(labels),
{
    let mut r: Vec<(String, u64)> = Vec::new();
    match labels {
        None => {
            assert(tags_view(r@) =~= Seq::<(Seq<char>, u64)>::empty());
        },
        Some(v) => {
            let ghost want = v@.map_values(|l: String| (l@, 0u64));
            let mut i: usize = 0;
            while i < v.len()
                invariant
                    i <= v@.len(),
                    want == v@.map_values(|l: String| (l@, 0u64)),
                    tags_view(r@) == want.take(i as int),
                decreases v.len() - i,
            {
                let ghost before = r@;
                r.push((v[i].clone(), 0));
                assert(tags_view(r@) =~= tags_view(before).push((v@[i as int]@, 0u64)));
                assert(want.take(i + 1) =~= want.take(i as int).push(want[i as int]));
                i = i + 1;
            }
            assert(want.take(v@.len() as int) =~= want);
        },
    }
    r
}

/// Builds the track of an audio file from what was read of it (see
/// `track_of_tags`); `now` is the current time in seconds.
pub fn track_from_tags(
    path: String,
    tags: Option<TagFields>,
    duration: u64,
    stats: Option<(u64, u64, u64)>,
    labels: Option<Vec<String>>,
    now: u64,
) -> (r: TrackDetails)
    ensures
        r@ == track_of_tags(path@, tags, duration, stats, labels, now),
{
    match tags {
        None => TrackDetails { song_path: path, ..TrackDetails::default() },
        Some(t) => {
            let date = match t.date {
                Some(d) => d,
                None => TimestampFields { year: 1900, month: Some(1), day: Some(1), hour: Some(0), minute: Some(0), second: Some(0) },
            };
            TrackDetails {
                artist: match t.artist { Some(s) => s, None => String::from_str("Unknown Artist") },
                album: match t.album { Some(s) => s, None => String::from_str("Unknown Album") },
                track_no: match t.track { Some(n) => n, None => 0 },
                title: match t.title { Some(s) => s, None => String::from_str("Unknown Title") },
                date: timestamp_to_string(&date),
                song_path: path,
                duration,
                stats: match stats { Some(s) => s, None => (0, 0, now) },
                tags: labels_to_tags(labels),
            }
        },
    }
}

/// The track of an audio file whose tags were cached: the cached fields,
/// the statistics and the playlist labels read for it.
pub open spec fn track_of_cache(meta: TrackMetadata, stats: Option<(u64, u64, u64)>, labels: Option<Vec<String>>, now: u64) -> TrackView {
    TrackView {
        artist: meta.artist@,
        album: meta.album@,
        track_no: meta.track_no,
        title: meta.title@,
        date: meta.date@,
        song_path: meta.song_path@,
        duration: meta.duration,
        stats: stats_or_fresh(stats, now),
        tags: labels_as_tags(labels),
    }
}

/// Builds the track of an audio file from its cached tags.
pub fn track_from_cache(meta: TrackMetadata, stats: Option<(u64, u64, u64)>, labels: Option<Vec<String>>, now: u64) -> (r: TrackDetails)
    ensures
        r@ == track_of_cache(meta, stats, labels, now),
{
    TrackDetails {
        artist: meta.artist,
        album: meta.album,
        track_no: meta.track_no,
        title: meta.title,
        date: meta.date,
        song_path: meta.song_path,
        duration: meta.duration,
        stats: match stats { Some(s) => s, None => (0, 0, now) },
        tags: labels_to_tags(labels),
    }
}

/// The file extensions of the audio formats the library collects.
pub open spec fn audio_extensions() -> Seq<Seq<char>> {
    seq!["mp3"@, "flac"@, "wav"@, "aac"@, "ogg"@, "m4a"@, "aiff"@, "alac"@]
}

/// Whether a file extension names an audio format, without regard to case.
pub fn is_audio_extension(ext: &str) -> (r: bool)
    ensures
        r == audio_extensions().contains(lowercase_of(ext@)),
{
    let l = lowercase(ext);
    let found = l == String::from_str("mp3") || l == String::from_str("flac") || l == String::from_str("wav")
        || l == String::from_str("aac") || l == String::from_str("ogg") || l == String::from_str("m4a")
        || l == String::from_str("aiff") || l == String::from_str("alac");
    proof {
        let e = audio_extensions();
        if found {
            if l@ == "mp3"@ { assert(e[0] == l@); }
            else if l@ == "flac"@ { assert(e[1] == l@); }
            else if l@ == "wav"@ { assert(e[2] == l@); }
            else if l@ == "aac"@ { assert(e[3] == l@); }
            else if l@ == "ogg"@ { assert(e[4] == l@); }
            else if l@ == "m4a"@ { assert(e[5] == l@); }
            else if l@ == "aiff"@ { assert(e[6] == l@); }
            else { assert(e[7] == l@); }
        } else {
            assert(!e.contains(l@)) by {
                if e.contains(l@) {
                    let k = choose|k: int| 0 <= k < e.len() && e[k] == l@;
                    assert(0 <= k < 8);
                }
            }
        }
    }
    found
}

/// Whether a file with this extension (if it has one that is text) is
/// collected into the library: every audio file, whether or not a
/// statistics database is open.
pub fn collects_file(ext: Option<&str>) -> (r: bool)
    ensures
        r == (ext matches Some(e) && audio_extensions().contains(lowercase_of(e@))),
{
    match ext {
        Some(e) => is_audio_extension(e),
        None => false,
    }
}

} // verus!
