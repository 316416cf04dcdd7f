use vstd::prelude::*;
use crate::track::{TrackDetails, Album};
use crate::types::VimMode;
use crate::text::push_char;
use crate::metadata::{decimal, digit_char};

verus! {

/// The decimal digit of `d` (below ten).
fn digit(d: u64) -> (c: char)
    requires
        d < 10,
    ensures
        c == digit_char(d as nat),
{
    let b: u8 = 48 + (d as u8);
    b as char
}

/// Appends the decimal digits of `n` to `s`.
fn push_decimal(s: &mut String, n: u64)
    ensures
        final(s)@ == old(s)@ + decimal(n as nat),
    decreases n,
{
    if n >= 10 {
        push_decimal(s, n / 10);
    }
    push_char(s, digit(n % 10));
    assert(decimal(n as nat) == if n < 10 { seq![digit_char(n as nat)] } else { decimal((n / 10) as nat).push(digit_char((n % 10) as nat)) });
}

/// Appends a text to `s`.
fn push_text(s: &mut String, t: &str)
    ensures
        final(s)@ == old(s)@ + t@,
{
    s.append(t);
}

/// The line that shows an album: `artist - album [date]`.
pub open spec fn album_line(artist: Seq<char>, album: Seq<char>, date: Seq<char>) -> Seq<char> {
    artist + " - "@ + album + " ["@ + date + "]"@
}

/// The line that shows an album in a list.
pub fn album_label(a: &Album) -> (r: String)
    ensures
        r@ == album_line(a.artist@, a.album@, a.date@),
{
    let mut s = a.artist.clone();
    push_text(&mut s, " - ");
    push_text(&mut s, a.album.as_str());
    push_text(&mut s, " [");
    push_text(&mut s, a.date.as_str());
    push_text(&mut s, "]");
    s
}

/// The lines that show the track playing: artist, title, album and
/// `[Track n]`, one per line.
pub open spec fn track_card_text(t: TrackDetails) -> Seq<char> {
    t.artist@ + "\n"@ + t.title@ + "\n"@ + t.album@ + "\n"@ + "[Track "@ + decimal(t.track_no as nat) + "]"@
}

/// The lines that show the track playing.
pub fn track_card(t: &TrackDetails) -> (r: String)
    ensures
        r@ == track_card_text(*t),
{
    let mut s = t.artist.clone();
    push_text(&mut s, "\n");
    push_text(&mut s, t.title.as_str());
    push_text(&mut s, "\n");
    push_text(&mut s, t.album.as_str());
    push_text(&mut s, "\n");
    push_text(&mut s, "[Track ");
    push_decimal(&mut s, t.track_no as u64);
    push_text(&mut s, "]");
    s
}

/// The `Debug` form of a track's playlist labels, as std writes a list of
/// (text, number) pairs.
pub uninterp spec fn tags_debug_text(tags: Seq<(Seq<char>, u64)>) -> Seq<char>;

/// Formats the labels with std's `Debug` for `Vec<(String, u64)>`.
/// Claimed: the text is the one `tags_debug_text` names for the labels;
/// nothing is claimed of its characters.
#[verifier::external_body]
fn tags_debug(tags: &Vec<(String, u64)>) -> (r: String)
    ensures
        r@ == tags_debug_text(crate::track::tags_view(tags@)),
{
    format!("{:?}", tags)
}

/// The line that shows a track in a list:
/// `artist - title (date) [Track n] labels`.
pub open spec fn track_line_text(t: TrackDetails) -> Seq<char> {
    t.artist@ + " - "@ + t.title@ + " ("@ + t.date@ + ") "@ + "[Track "@ + decimal(t.track_no as nat) + "] "@
        + tags_debug_text(crate::track::tags_view(t.tags@))
}

/// The line that shows a track in a list.
pub fn track_line(t: &TrackDetails) -> (r: String)
    ensures
        r@ == track_line_text(*t),
{
    let mut s = t.artist.clone();
    push_text(&mut s, " - ");
    push_text(&mut s, t.title.as_str());
    push_text(&mut s, " (");
    push_text(&mut s, t.date.as_str());
    push_text(&mut s, ") ");
    push_text(&mut s, "[Track ");
    push_decimal(&mut s, t.track_no as u64);
    push_text(&mut s, "] ");
    let d = tags_debug(&t.tags);
    push_text(&mut s, d.as_str());
    s
}

/// The title over the list: the mode, and the text typed where there is one.
pub open spec fn list_title_text(mode: VimMode, buff: Seq<char>) -> Seq<char> {
    match mode {
        VimMode::Normal => "Playlist"@,
        VimMode::Search => "Searching: "@ + buff,
        VimMode::Command => "cmd: "@ + buff,
        VimMode::Marking => "Marking: "@ + buff,
        VimMode::VisualLine => "V-LINE"@,
    }
}

/// The title over the list.
pub fn list_title(mode: VimMode, buff: &String) -> (r: String)
    ensures
        r@ == list_title_text(mode, buff@),
{
    match mode {
        VimMode::Normal => String::from_str("Playlist"),
        VimMode::Search => String::from_str("Searching: ").concat(buff.as_str()),
        VimMode::Command => String::from_str("cmd: ").concat(buff.as_str()),
        VimMode::Marking => String::from_str("Marking: ").concat(buff.as_str()),
        VimMode::VisualLine => String::from_str("V-LINE"),
    }
}

/// Whether row `i` is highlighted: in visual-line mode, the rows between
/// the anchor and the cursor, both included.
pub fn row_highlighted(i: usize, mode: VimMode, vline_begin: Option<usize>, cursor: usize) -> (r: bool)
    requires
        mode == VimMode::VisualLine ==> vline_begin is Some,
    ensures
        r == (mode == VimMode::VisualLine && {
            let b = vline_begin->Some_0;
            (b <= i <= cursor) || (cursor <= i <= b)
        }),
{
    match (mode, vline_begin) {
        (VimMode::VisualLine, Some(b)) => (i >= b && i <= cursor) || (i <= b && i >= cursor),
        _ => false,
    }
}

} // verus!
