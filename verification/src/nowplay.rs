//! The now-playing formatter: a pure transformation from a player snapshot
//! to a bounded-width display string, with artist-selection fallback,
//! grapheme-cluster-aware truncation and `MM:SS` duration rendering.

use unicode_segmentation::UnicodeSegmentation;
use vstd::prelude::*;
use vstd::string::*;

use crate::text::{
    chars_to_string, concat_first, concat_of, is_white, join_strings, join_with,
    lemma_concat_take_prefix, lemma_trim_end_is_prefix, lemma_trim_end_no_trailing_white, pad2,
    string_to_chars, trim_end_chars, trim_end_white, two_digit_chars, views_of,
};

verus! {

/// The truncation limit for the "ARTIST - TITLE" line, counted in extended
/// grapheme clusters.
pub const NOW_PLAYING_MAX_GRAPHEMES: usize = 70;

/// Elapsed and total playback time of the current track, in whole seconds.
pub struct PlayTimes {
    pub elapsed_seconds: u64,
    pub total_seconds: u64,
}

/// A read-only snapshot of the current track, as the media-player adapter
/// hands it to the formatter.
pub struct Track {
    pub title: Option<String>,
    pub artists: Vec<String>,
    pub album_artists: Vec<String>,
    pub times: Option<PlayTimes>,
}

/// The extended grapheme clusters of a character sequence, in order.
pub uninterp spec fn graphemes_of(s: Seq<char>) -> Seq<Seq<char>>;

/// Relies on `unicode_segmentation::UnicodeSegmentation::graphemes` with
/// `is_extended = true`: it yields the extended grapheme clusters of the
/// string, which are non-empty substrings between successive UAX #29 cluster
/// boundaries, in order, concatenating back to the string; the decomposition
/// depends on the characters alone.
#[verifier::external_body]
fn grapheme_clusters(s: &str) -> (r: Vec<String>)
    ensures
        views_of(r@) == graphemes_of(s@),
        concat_of(views_of(r@)) == s@,
        forall|i: int| 0 <= i < r@.len() ==> #[trigger] r@[i]@.len() > 0,
{
    let mut v = Vec::new();
    for g in UnicodeSegmentation::graphemes(s, true) {
        v.push(g.to_string());
    }
    v
}

/// The display line after cluster-aware truncation: a line of at most
/// [`NOW_PLAYING_MAX_GRAPHEMES`] clusters is kept as it is; a longer one is
/// cut to its first [`NOW_PLAYING_MAX_GRAPHEMES`] whole clusters, loses any
/// trailing whitespace left by the cut, and gains a single ellipsis.
pub open spec fn truncated(s: Seq<char>) -> Seq<char> {
    if graphemes_of(s).len() <= NOW_PLAYING_MAX_GRAPHEMES {
        s
    } else {
        trim_end_white(concat_of(graphemes_of(s).take(NOW_PLAYING_MAX_GRAPHEMES as int))) + "…"@
    }
}

/// Truncate the composed line on a grapheme-cluster boundary.
pub fn truncate_line(s: &str) -> (r: String)
    ensures
        r@ == truncated(s@),
{
    let gs = grapheme_clusters(s);
    if gs.len() <= NOW_PLAYING_MAX_GRAPHEMES {
        return s.to_owned();
    }
    let prefix = concat_first(&gs, NOW_PLAYING_MAX_GRAPHEMES);
    let chars = string_to_chars(prefix.as_str());
    let trimmed = trim_end_chars(chars);
    let mut out = chars_to_string(&trimmed);
    out.append("…");
    out
}

/// Truncating a long line keeps only whole clusters: the result is the
/// concatenation of the first [`NOW_PLAYING_MAX_GRAPHEMES`] clusters with its
/// trailing whitespace removed, followed by a single ellipsis, and the
/// character before the ellipsis is never whitespace.
pub proof fn lemma_truncation_shape(s: Seq<char>)
    requires
        graphemes_of(s).len() > NOW_PLAYING_MAX_GRAPHEMES,
    ensures
        ({
            let body = trim_end_white(
                concat_of(graphemes_of(s).take(NOW_PLAYING_MAX_GRAPHEMES as int)),
            );
            truncated(s) == body + "…"@ && (body.len() == 0 || !is_white(body.last()))
        }),
{
    lemma_trim_end_no_trailing_white(
        concat_of(graphemes_of(s).take(NOW_PLAYING_MAX_GRAPHEMES as int)),
    );
}

/// Truncation never splits or reorders anything: for a line of more than
/// [`NOW_PLAYING_MAX_GRAPHEMES`] clusters whose clusters concatenate back to
/// it (as segmentation guarantees), everything before the final ellipsis is
/// a prefix of the line itself.
pub proof fn lemma_truncated_keeps_a_prefix(s: Seq<char>)
    requires
        graphemes_of(s).len() > NOW_PLAYING_MAX_GRAPHEMES,
        concat_of(graphemes_of(s)) == s,
    ensures
        truncated(s).len() > 0,
        truncated(s).last() == '\u{2026}',
        truncated(s).drop_last().is_prefix_of(s),
{
    reveal_strlit("…");
    let gs = graphemes_of(s);
    let pre = concat_of(gs.take(NOW_PLAYING_MAX_GRAPHEMES as int));
    let body = trim_end_white(pre);
    lemma_concat_take_prefix(gs, NOW_PLAYING_MAX_GRAPHEMES as int);
    lemma_trim_end_is_prefix(pre);
    assert(truncated(s) == body + "…"@);
    assert("…"@ =~= seq!['\u{2026}']);
    assert((body + "…"@).drop_last() =~= body);
    assert(pre.is_prefix_of(s));
    assert(s.subrange(0, pre.len() as int).subrange(0, body.len() as int) =~= s.subrange(
        0,
        body.len() as int,
    ));
}

/// The artist list the formatter renders from: the track's own artists,
/// unless that list is empty and the album-artist list is not.
pub open spec fn chosen_artists(t: Track) -> Seq<Seq<char>> {
    if t.artists@.len() == 0 && t.album_artists@.len() > 0 {
        views_of(t.album_artists@)
    } else {
        views_of(t.artists@)
    }
}

/// A track with no listed artists but a non-empty album-artist list renders
/// from the album-artist names.
pub proof fn lemma_album_artist_fallback(t: Track)
    requires
        t.artists@.len() == 0,
        t.album_artists@.len() > 0,
    ensures
        chosen_artists(t) == views_of(t.album_artists@),
{
}

/// The joined artist text: no artist gives the sentinel, one the bare name,
/// two are joined with " & ", three or more with ", " throughout.
pub open spec fn joined_artists(names: Seq<Seq<char>>) -> Seq<char> {
    if names.len() == 0 {
        "???"@
    } else if names.len() == 1 {
        names[0]
    } else if names.len() == 2 {
        join_with(names, " & "@)
    } else {
        join_with(names, ", "@)
    }
}

/// Join the artist names for display.
pub fn join_artists(names: &Vec<String>) -> (r: String)
    ensures
        r@ == joined_artists(views_of(names@)),
{
    if names.len() == 0 {
        String::from_str("???")
    } else if names.len() == 1 {
        names[0].clone()
    } else if names.len() == 2 {
        join_strings(names, " & ")
    } else {
        join_strings(names, ", ")
    }
}

/// The track title, or the sentinel when the track has none.
pub open spec fn title_text(t: Track) -> Seq<char> {
    match t.title {
        Some(s) => s@,
        None => "???"@,
    }
}

/// The "ARTIST - TITLE" line before truncation.
pub open spec fn base_line(t: Track) -> Seq<char> {
    joined_artists(chosen_artists(t)) + " - "@ + title_text(t)
}

/// The `MM:SS` rendering of a number of seconds: two-digit zero-padded
/// minutes and seconds, minutes unbounded rather than wrapped to hours.
pub open spec fn mmss(total: nat) -> Seq<char> {
    pad2(total / 60) + seq![':'] + pad2(total % 60)
}

/// Render a duration in whole seconds as `MM:SS`.
pub fn format_duration(total_seconds: u64) -> (r: String)
    ensures
        r@ == mmss(total_seconds as nat),
{
    let mut v = two_digit_chars(total_seconds / 60);
    v.push(':');
    let mut tail = two_digit_chars(total_seconds % 60);
    v.append(&mut tail);
    proof {
        assert(pad2(((total_seconds as nat) / 60) as nat).push(':') + pad2(
            ((total_seconds as nat) % 60) as nat,
        ) =~= mmss(total_seconds as nat));
    }
    chars_to_string(&v)
}

/// The playback-time text: `elapsed/total`, or the zero placeholder when the
/// player reports no elapsed time.
pub open spec fn time_text(times: Option<PlayTimes>) -> Seq<char> {
    match times {
        Some(pt) => mmss(pt.elapsed_seconds as nat) + "/"@ + mmss(pt.total_seconds as nat),
        None => "00:00"@,
    }
}

/// The full now-playing text: the icon, the truncated "ARTIST - TITLE" line
/// and the playback time in parentheses; a distinct sentinel when nothing is
/// playing at all.
pub open spec fn now_playing_text(current: Option<Track>) -> Seq<char> {
    match current {
        None => "🎵 ???"@,
        Some(t) => "🎵 "@ + truncated(base_line(t)) + " ("@ + time_text(t.times) + ")"@,
    }
}

/// Render the now-playing snapshot for display.
pub fn format_now_playing(current: &Option<Track>) -> (r: String)
    ensures
        r@ == now_playing_text(*current),
{
    match current {
        None => String::from_str("🎵 ???"),
        Some(t) => {
            let names: &Vec<String> = if t.artists.len() == 0 && t.album_artists.len() > 0 {
                &t.album_artists
            } else {
                &t.artists
            };
            let mut line = join_artists(names);
            line.append(" - ");
            match &t.title {
                Some(ti) => line.append(ti.as_str()),
                None => line.append("???"),
            }
            let trunc = truncate_line(line.as_str());
            let mut out = String::from_str("🎵 ");
            out.append(trunc.as_str());
            out.append(" (");
            match &t.times {
                Some(pt) => {
                    let elapsed = format_duration(pt.elapsed_seconds);
                    let total = format_duration(pt.total_seconds);
                    out.append(elapsed.as_str());
                    out.append("/");
                    out.append(total.as_str());
                },
                None => out.append("00:00"),
            }
            out.append(")");
            out
        },
    }
}

} // verus!
