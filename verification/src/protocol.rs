//! The streaming output protocol: a JSON object header line, an opening
//! array bracket, then one one-element JSON array per render tick holding the
//! composite status text, each line ending in a comma.

use vstd::prelude::*;
use vstd::string::*;

use crate::text::{chars_to_string, concat_of, dec_chars, dec_digits, digit_char, string_to_chars,
    views_of};

verus! {

/// The render loop's master tick interval, in milliseconds.
pub const MAIN_UPDATE_MILLIS: u64 = 100;

/// The lowercase hexadecimal digit for `d`.
pub open spec fn hex_char(d: int) -> char {
    if d < 10 {
        digit_char(d)
    } else if d == 10 {
        'a'
    } else if d == 11 {
        'b'
    } else if d == 12 {
        'c'
    } else if d == 13 {
        'd'
    } else if d == 14 {
        'e'
    } else {
        'f'
    }
}

/// How one character appears inside a JSON string literal: quote and
/// backslash get a backslash escape, the five short control escapes are used
/// where JSON has them, any other control character becomes `\u00XX`, and
/// everything else stands for itself.
pub open spec fn escaped_char(c: char) -> Seq<char> {
    if c == '"' {
        seq!['\\', '"']
    } else if c == '\\' {
        seq!['\\', '\\']
    } else if c == '\u{8}' {
        seq!['\\', 'b']
    } else if c == '\t' {
        seq!['\\', 't']
    } else if c == '\n' {
        seq!['\\', 'n']
    } else if c == '\u{c}' {
        seq!['\\', 'f']
    } else if c == '\r' {
        seq!['\\', 'r']
    } else if (c as u32) < 0x20 {
        seq!['\\', 'u', '0', '0', hex_char(((c as u32) / 16) as int), hex_char(((c as u32) % 16) as int)]
    } else {
        seq![c]
    }
}

/// The JSON string-literal escaping of a whole character sequence.
pub open spec fn json_escaped(s: Seq<char>) -> Seq<char>
    decreases s.len(),
{
    if s.len() == 0 {
        Seq::empty()
    } else {
        json_escaped(s.drop_last()) + escaped_char(s.last())
    }
}

fn hex_to_char(d: u32) -> (r: char)
    requires
        d < 16,
    ensures
        r == hex_char(d as int),
{
    match d {
        0 => '0',
        1 => '1',
        2 => '2',
        3 => '3',
        4 => '4',
        5 => '5',
        6 => '6',
        7 => '7',
        8 => '8',
        9 => '9',
        10 => 'a',
        11 => 'b',
        12 => 'c',
        13 => 'd',
        14 => 'e',
        _ => 'f',
    }
}

/// Escape a string for inclusion in a JSON string literal.
pub fn json_escape(s: &str) -> (r: String)
    ensures
        r@ == json_escaped(s@),
{
    let chars = string_to_chars(s);
    let mut out: Vec<char> = Vec::new();
    let mut i: usize = 0;
    while i < chars.len()
        invariant
            chars@ == s@,
            i <= s@.len(),
            out@ == json_escaped(s@.take(i as int)),
        decreases s@.len() - i,
    {
        let c = chars[i];
        if c == '"' {
            out.push('\\');
            out.push('"');
        } else if c == '\\' {
            out.push('\\');
            out.push('\\');
        } else if c == '\u{8}' {
            out.push('\\');
            out.push('b');
        } else if c == '\t' {
            out.push('\\');
            out.push('t');
        } else if c == '\n' {
            out.push('\\');
            out.push('n');
        } else if c == '\u{c}' {
            out.push('\\');
            out.push('f');
        } else if c == '\r' {
            out.push('\\');
            out.push('r');
        } else if (c as u32) < 0x20 {
            out.push('\\');
            out.push('u');
            out.push('0');
            out.push('0');
            out.push(hex_to_char((c as u32) / 16));
            out.push(hex_to_char((c as u32) % 16));
        } else {
            out.push(c);
        }
        proof {
            vstd::utf8::char_is_scalar(c);
            assert(s@.take(i + 1 as int).drop_last() =~= s@.take(i as int));
            assert(s@.take(i + 1 as int).last() == s@[i as int]);
            assert(out@ =~= json_escaped(s@.take(i as int)) + escaped_char(s@[i as int]));
        }
        i += 1;
    }
    proof {
        assert(s@.take(s@.len() as int) =~= s@);
    }
    chars_to_string(&out)
}

/// The protocol header: version, click-event support, and the two signals
/// used to pause and resume updates (zero when that is disabled).
pub struct Header {
    pub version: u8,
    pub click_events: bool,
    pub cont_signal: u8,
    pub stop_signal: u8,
}

impl Default for Header {
    /// The documented defaults: protocol version 1, no click events, and
    /// SIGCONT/SIGSTOP (18 and 19) for pause and resume.
    fn default() -> (h: Header)
        ensures
            h.version == 1,
            !h.click_events,
            h.cont_signal == 18,
            h.stop_signal == 19,
    {
        Header { version: 1, click_events: false, cont_signal: 18, stop_signal: 19 }
    }
}

/// The text `true` or `false`.
pub open spec fn bool_text(b: bool) -> Seq<char> {
    if b {
        "true"@
    } else {
        "false"@
    }
}

/// The header serialized as one JSON object line, fields in declared order.
pub open spec fn header_line_text(h: Header) -> Seq<char> {
    "{\"version\":"@ + dec_digits(h.version as nat) + ",\"click_events\":"@ + bool_text(
        h.click_events,
    ) + ",\"cont_signal\":"@ + dec_digits(h.cont_signal as nat) + ",\"stop_signal\":"@
        + dec_digits(h.stop_signal as nat) + "}"@
}

/// Serialize the header as the protocol's first output line.
pub fn header_line(h: &Header) -> (r: String)
    ensures
        r@ == header_line_text(*h),
{
    let mut out = String::from_str("{\"version\":");
    let version = chars_to_string(&dec_chars(h.version as u64));
    out.append(version.as_str());
    out.append(",\"click_events\":");
    if h.click_events {
        out.append("true");
    } else {
        out.append("false");
    }
    out.append(",\"cont_signal\":");
    let cont = chars_to_string(&dec_chars(h.cont_signal as u64));
    out.append(cont.as_str());
    out.append(",\"stop_signal\":");
    let stop = chars_to_string(&dec_chars(h.stop_signal as u64));
    out.append(stop.as_str());
    out.append("}");
    out
}

/// One render tick serialized as a protocol record: a one-element JSON array
/// holding an object with the single text field, followed by the streaming
/// comma.
pub open spec fn record_line_text(text: Seq<char>) -> Seq<char> {
    "[{\"full_text\":\""@ + json_escaped(text) + "\"}],"@
}

/// Serialize one composite status as a protocol record line.
pub fn record_line(text: &str) -> (r: String)
    ensures
        r@ == record_line_text(text@),
{
    let mut out = String::from_str("[{\"full_text\":\"");
    let escaped = json_escape(text);
    out.append(escaped.as_str());
    out.append("\"}],");
    out
}

/// The composite status text for one tick: every enabled source's latest
/// value in declared order, each followed by a single space, then the
/// timestamp rendering.
pub open spec fn status_text(parts: Seq<Seq<char>>, stamp: Seq<char>) -> Seq<char> {
    concat_of(parts.map_values(|p: Seq<char>| p + " "@)) + stamp
}

/// Concatenate the latest values and the timestamp into one composite
/// status; with every source disabled the text is exactly the timestamp.
pub fn compose_line(parts: &Vec<String>, stamp: &str) -> (r: String)
    ensures
        r@ == status_text(views_of(parts@), stamp@),
        parts@.len() == 0 ==> r@ == stamp@,
{
    let ghost mapped = views_of(parts@).map_values(|p: Seq<char>| p + " "@);
    let mut out = String::new();
    let mut i: usize = 0;
    while i < parts.len()
        invariant
            i <= parts@.len(),
            mapped == views_of(parts@).map_values(|p: Seq<char>| p + " "@),
            out@ == concat_of(mapped.take(i as int)),
        decreases parts@.len() - i,
    {
        out.append(parts[i].as_str());
        out.append(" ");
        proof {
            assert(mapped.take(i + 1 as int).drop_last() =~= mapped.take(i as int));
            assert(mapped.take(i + 1 as int).last() == parts@[i as int]@ + " "@);
        }
        i += 1;
    }
    proof {
        assert(mapped.take(parts@.len() as int) =~= mapped);
        if parts@.len() == 0 {
            assert(concat_of(mapped) + stamp@ =~= stamp@);
        }
    }
    out.append(stamp);
    out
}

} // verus!
