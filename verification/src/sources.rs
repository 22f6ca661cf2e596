//! The supervised pollers' decisions: what each source publishes for each
//! adapter outcome, and the media-player connect/query state machine. The
//! adapters themselves (subprocess runs, the player connection) are outside
//! collaborators; these functions take their outcome as a value.

use vstd::prelude::*;
use vstd::string::*;

use crate::nowplay::{format_now_playing, now_playing_text, Track};
use crate::text::{
    contains_chars, contains_seq, push_char, string_to_chars, trim_end_chars, trim_start_chars,
    trim_white,
};

verus! {

/// The media-player poll interval, in milliseconds.
pub const MPD_UPDATE_MILLIS: u64 = 112;

/// The volume poll interval, in milliseconds.
pub const VOLUME_UPDATE_MILLIS: u64 = 323;

/// The weather poll interval, in milliseconds.
pub const WEATHER_UPDATE_MILLIS: u64 = 5137;

/// The delay before retrying a failed spawn or connect, in milliseconds.
pub const RETRY_MILLIS: u64 = 1000;

/// The media source's fallback text.
pub fn mpd_fallback() -> (r: String)
    ensures
        r@ == "🎵 ???"@,
{
    String::from_str("🎵 ???")
}

/// The volume source's fallback text.
pub fn volume_fallback() -> (r: String)
    ensures
        r@ == "🔊 ???"@,
{
    String::from_str("🔊 ???")
}

/// The weather source's fallback text.
pub fn weather_fallback() -> (r: String)
    ensures
        r@ == "🛰️ ???"@,
{
    String::from_str("🛰️ ???")
}

/// What one subprocess run produced, as a poller sees it.
pub enum CommandOutcome {
    /// The process could not be spawned or awaited at all.
    SpawnFailed,
    /// The process ran: whether it exited successfully, and its standard
    /// output decoded as UTF-8 (`None` when the bytes were not valid UTF-8).
    Exited { success: bool, stdout_utf8: Option<String> },
}

/// What the weather poller publishes for one adapter outcome: the reported
/// text on success, the fallback on any failure.
pub open spec fn weather_text(ev: CommandOutcome) -> Seq<char> {
    match ev {
        CommandOutcome::SpawnFailed => "🛰️ ???"@,
        CommandOutcome::Exited { success, stdout_utf8 } => if success {
            match stdout_utf8 {
                Some(s) => s@,
                None => "🛰️ ???"@,
            }
        } else {
            "🛰️ ???"@
        },
    }
}

/// Decide the weather source's published text for one outcome.
pub fn weather_step(ev: &CommandOutcome) -> (r: String)
    ensures
        r@ == weather_text(*ev),
{
    match ev {
        CommandOutcome::SpawnFailed => weather_fallback(),
        CommandOutcome::Exited { success, stdout_utf8 } => {
            if *success {
                match stdout_utf8 {
                    Some(s) => s.clone(),
                    None => weather_fallback(),
                }
            } else {
                weather_fallback()
            }
        },
    }
}

/// The volume rendering for one successful report line: the mute icon when
/// the report mentions `MUTED`, then the two characters at the fixed offsets
/// 10 and 11 of the trimmed report as the percentage. A report too short for
/// those offsets is unparseable and renders as the fallback.
pub open spec fn volume_render_text(out: Seq<char>) -> Seq<char> {
    let icon: Seq<char> = if contains_seq(out, "MUTED"@) {
        "🔇"@
    } else {
        "🔊"@
    };
    let t = trim_white(out);
    if t.len() < 12 {
        "🔊 ???"@
    } else {
        icon + " "@ + t.subrange(10, 12) + "%"@
    }
}

/// Render one volume report line by its fixed offsets.
pub fn render_volume(out: &str) -> (r: String)
    ensures
        r@ == volume_render_text(out@),
{
    let chars = string_to_chars(out);
    let mut needle: Vec<char> = Vec::new();
    needle.push('M');
    needle.push('U');
    needle.push('T');
    needle.push('E');
    needle.push('D');
    proof {
        reveal_strlit("MUTED");
        assert(needle@ =~= "MUTED"@);
    }
    let muted = contains_chars(&chars, &needle);
    let t = trim_start_chars(trim_end_chars(chars));
    if t.len() < 12 {
        return volume_fallback();
    }
    let mut r = if muted {
        String::from_str("🔇")
    } else {
        String::from_str("🔊")
    };
    r.append(" ");
    push_char(&mut r, t[10]);
    push_char(&mut r, t[11]);
    r.append("%");
    proof {
        let icon: Seq<char> = if contains_seq(out@, "MUTED"@) {
            "🔇"@
        } else {
            "🔊"@
        };
        assert(trim_white(out@).subrange(10, 12) =~= seq![t@[10], t@[11]]);
        assert(r@ =~= icon + " "@ + trim_white(out@).subrange(10, 12) + "%"@);
    }
    r
}

/// What the volume poller publishes for one adapter outcome: the rendering
/// of the report on success, the fallback on any failure.
pub open spec fn volume_text(ev: CommandOutcome) -> Seq<char> {
    match ev {
        CommandOutcome::SpawnFailed => "🔊 ???"@,
        CommandOutcome::Exited { success, stdout_utf8 } => if success {
            match stdout_utf8 {
                Some(s) => volume_render_text(s@),
                None => "🔊 ???"@,
            }
        } else {
            "🔊 ???"@
        },
    }
}

/// Decide the volume source's published text for one outcome.
pub fn volume_step(ev: &CommandOutcome) -> (r: String)
    ensures
        r@ == volume_text(*ev),
{
    match ev {
        CommandOutcome::SpawnFailed => volume_fallback(),
        CommandOutcome::Exited { success, stdout_utf8 } => {
            if *success {
                match stdout_utf8 {
                    Some(s) => render_volume(s.as_str()),
                    None => volume_fallback(),
                }
            } else {
                volume_fallback()
            }
        },
    }
}

/// Where the media-player poller stands: trying to connect, or holding an
/// established connection.
#[derive(Clone, Copy, Debug, PartialEq, Eq, Structural)]
pub enum MpdState {
    Disconnected,
    Connected,
}

/// What just happened to the media-player poller.
pub enum MpdEvent {
    /// A connection attempt succeeded.
    ConnectSucceeded,
    /// A connection attempt failed (socket or handshake).
    ConnectFailed,
    /// A now-playing query answered with the current snapshot.
    QuerySucceeded(Option<Track>),
    /// A now-playing query failed; the connection is treated as lost.
    QueryFailed,
}

/// Connect events belong to the disconnected state, query events to the
/// connected one.
pub open spec fn mpd_event_fits(st: MpdState, ev: MpdEvent) -> bool {
    match ev {
        MpdEvent::ConnectSucceeded => st is Disconnected,
        MpdEvent::ConnectFailed => st is Disconnected,
        MpdEvent::QuerySucceeded(_) => st is Connected,
        MpdEvent::QueryFailed => st is Connected,
    }
}

/// The next poller state: a successful connect or query leaves it connected;
/// a failure of either returns it to connecting.
pub open spec fn mpd_next_state(ev: MpdEvent) -> MpdState {
    match ev {
        MpdEvent::ConnectSucceeded => MpdState::Connected,
        MpdEvent::ConnectFailed => MpdState::Disconnected,
        MpdEvent::QuerySucceeded(_) => MpdState::Connected,
        MpdEvent::QueryFailed => MpdState::Disconnected,
    }
}

/// What the poller publishes for the event: the rendered snapshot after a
/// successful query, the fallback after a failed one, nothing around
/// connection attempts (the channel keeps its last value).
pub open spec fn mpd_published(ev: MpdEvent) -> Option<Seq<char>> {
    match ev {
        MpdEvent::ConnectSucceeded => None,
        MpdEvent::ConnectFailed => None,
        MpdEvent::QuerySucceeded(snapshot) => Some(now_playing_text(snapshot)),
        MpdEvent::QueryFailed => Some("🎵 ???"@),
    }
}

/// How long the poller sleeps before its next action: the retry delay after
/// a failed connect, the poll interval after a successful query, nothing
/// before a first query or a reconnect.
pub open spec fn mpd_sleep(ev: MpdEvent) -> u64 {
    match ev {
        MpdEvent::ConnectSucceeded => 0,
        MpdEvent::ConnectFailed => RETRY_MILLIS,
        MpdEvent::QuerySucceeded(_) => MPD_UPDATE_MILLIS,
        MpdEvent::QueryFailed => 0,
    }
}

/// Decide the media-player poller's next state, published text and sleep for
/// one event.
pub fn mpd_step(st: MpdState, ev: MpdEvent) -> (r: (MpdState, Option<String>, u64))
    requires
        mpd_event_fits(st, ev),
    ensures
        r.0 == mpd_next_state(ev),
        (match r.1 {
            Some(s) => mpd_published(ev) == Some(s@),
            None => mpd_published(ev) is None,
        }),
        r.2 == mpd_sleep(ev),
{
    match ev {
        MpdEvent::ConnectSucceeded => (MpdState::Connected, None, 0),
        MpdEvent::ConnectFailed => (MpdState::Disconnected, None, RETRY_MILLIS),
        MpdEvent::QuerySucceeded(snapshot) => {
            let text = format_now_playing(&snapshot);
            (MpdState::Connected, Some(text), MPD_UPDATE_MILLIS)
        },
        MpdEvent::QueryFailed => (MpdState::Disconnected, Some(mpd_fallback()), 0),
    }
}

} // verus!
