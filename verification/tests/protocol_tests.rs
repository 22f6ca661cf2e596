use statusline::clock::format_timestamp;
use statusline::protocol::{compose_line, header_line, json_escape, record_line, Header};

#[test]
fn header_defaults_serialize_exactly() {
    let h = Header::default();
    assert_eq!(
        header_line(&h),
        "{\"version\":1,\"click_events\":false,\"cont_signal\":18,\"stop_signal\":19}"
    );
}

#[test]
fn header_line_round_trips_with_documented_defaults() {
    let line = header_line(&Header::default());
    let v: serde_json::Value = serde_json::from_str(&line).expect("header must be valid JSON");
    let obj = v.as_object().expect("header must be a JSON object");
    assert_eq!(obj.len(), 4);
    assert_eq!(obj.get("version").and_then(|x| x.as_u64()), Some(1));
    assert_eq!(obj.get("click_events").and_then(|x| x.as_bool()), Some(false));
    assert_eq!(obj.get("cont_signal").and_then(|x| x.as_u64()), Some(18));
    assert_eq!(obj.get("stop_signal").and_then(|x| x.as_u64()), Some(19));
}

#[test]
fn header_with_signals_disabled() {
    let mut h = Header::default();
    h.cont_signal = 0;
    h.stop_signal = 0;
    let line = header_line(&h);
    let v: serde_json::Value = serde_json::from_str(&line).unwrap();
    assert_eq!(v["cont_signal"].as_u64(), Some(0));
    assert_eq!(v["stop_signal"].as_u64(), Some(0));
}

#[test]
fn escape_plain_text_unchanged() {
    assert_eq!(json_escape("volume 50%"), "volume 50%");
}

#[test]
fn escape_quote_backslash_and_controls() {
    assert_eq!(json_escape("a\"b"), "a\\\"b");
    assert_eq!(json_escape("a\\b"), "a\\\\b");
    assert_eq!(json_escape("a\nb\tc\rd"), "a\\nb\\tc\\rd");
    assert_eq!(json_escape("\u{8}\u{c}"), "\\b\\f");
    assert_eq!(json_escape("\u{1}\u{1f}"), "\\u0001\\u001f");
}

#[test]
fn record_line_frames_and_escapes() {
    assert_eq!(record_line("hi \"there\""), "[{\"full_text\":\"hi \\\"there\\\"\"}],");
}

#[test]
fn record_line_round_trips_text() {
    let text = "\u{1f3b5} a\\b \"quoted\"\nnew";
    let line = record_line(text);
    let stripped = line.strip_suffix(',').expect("record line must end in a comma");
    let v: serde_json::Value = serde_json::from_str(stripped).expect("record must be valid JSON");
    let arr = v.as_array().expect("record must be a JSON array");
    assert_eq!(arr.len(), 1);
    assert_eq!(arr[0]["full_text"].as_str(), Some(text));
}

#[test]
fn compose_joins_parts_with_spaces_then_stamp() {
    let parts = vec!["a".to_string(), "b".to_string()];
    assert_eq!(compose_line(&parts, "stamp"), "a b stamp");
}

#[test]
fn compose_with_all_sources_disabled_is_exactly_the_stamp() {
    let parts: Vec<String> = vec![];
    let stamp = format_timestamp(0, 10, 11, 12, 34, 56);
    assert_eq!(compose_line(&parts, &stamp), stamp);
}

#[test]
fn all_sources_disabled_still_yields_valid_protocol() {
    let header = header_line(&Header::default());
    serde_json::from_str::<serde_json::Value>(&header).expect("header must parse");
    let stamp = format_timestamp(2, 1, 5, 0, 0, 9);
    let parts: Vec<String> = vec![];
    let composite = compose_line(&parts, &stamp);
    assert_eq!(composite, stamp);
    let line = record_line(&composite);
    let stripped = line.strip_suffix(',').unwrap();
    let v: serde_json::Value = serde_json::from_str(stripped).unwrap();
    assert_eq!(v[0]["full_text"].as_str(), Some(stamp.as_str()));
}

#[test]
fn timestamp_rendering_is_fixed() {
    assert_eq!(
        format_timestamp(0, 10, 11, 12, 34, 56),
        "\u{1f5d3}\u{fe0f} Mon Oct 11 \u{1f55b} 12:34:56"
    );
    assert_eq!(
        format_timestamp(6, 1, 1, 0, 0, 0),
        "\u{1f5d3}\u{fe0f} Sun Jan 01 \u{1f55b} 00:00:00"
    );
}

#[test]
fn live_timestamp_has_the_fixed_shape() {
    let stamp = statusline::clock::local_timestamp();
    let rest = stamp
        .strip_prefix("\u{1f5d3}\u{fe0f} ")
        .expect("timestamp must start with the calendar glyph");
    let mut words = rest.split(' ');
    let weekday = words.next().unwrap();
    assert!(["Mon", "Tue", "Wed", "Thu", "Fri", "Sat", "Sun"].contains(&weekday));
    let month = words.next().unwrap();
    assert!(
        ["Jan", "Feb", "Mar", "Apr", "May", "Jun", "Jul", "Aug", "Sep", "Oct", "Nov", "Dec"]
            .contains(&month)
    );
    let day = words.next().unwrap();
    assert_eq!(day.len(), 2);
    assert!(day.chars().all(|c| c.is_ascii_digit()));
    assert_eq!(words.next(), Some("\u{1f55b}"));
    let time = words.next().unwrap();
    assert_eq!(time.len(), 8);
    let fields: Vec<&str> = time.split(':').collect();
    assert_eq!(fields.len(), 3);
    for f in fields {
        assert_eq!(f.len(), 2);
        assert!(f.chars().all(|c| c.is_ascii_digit()));
    }
    assert_eq!(words.next(), None);
}
