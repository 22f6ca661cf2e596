use statusline::nowplay::{format_duration, format_now_playing, join_artists, truncate_line,
    PlayTimes, Track};
use unicode_segmentation::UnicodeSegmentation;

#[test]
fn duration_past_the_minute() {
    assert_eq!(format_duration(65), "01:05");
}

#[test]
fn duration_minutes_unbounded() {
    assert_eq!(format_duration(3661), "61:01");
}

#[test]
fn duration_zero() {
    assert_eq!(format_duration(0), "00:00");
}

#[test]
fn duration_just_seconds() {
    assert_eq!(format_duration(59), "00:59");
}

#[test]
fn join_no_artists_gives_sentinel() {
    let names: Vec<String> = vec![];
    assert_eq!(join_artists(&names), "???");
}

#[test]
fn join_one_artist_unmodified() {
    let names = vec!["Miles Davis".to_string()];
    assert_eq!(join_artists(&names), "Miles Davis");
}

#[test]
fn join_two_artists_with_ampersand() {
    let names = vec!["A".to_string(), "B".to_string()];
    assert_eq!(join_artists(&names), "A & B");
}

#[test]
fn join_three_artists_with_commas_only() {
    let names = vec!["A".to_string(), "B".to_string(), "C".to_string()];
    assert_eq!(join_artists(&names), "A, B, C");
    assert_ne!(join_artists(&names), "A, B & C");
}

#[test]
fn short_line_not_truncated() {
    let s = "Artist - Title";
    assert_eq!(truncate_line(s), s);
}

#[test]
fn line_of_seventy_clusters_kept() {
    let s: String = "x".repeat(70);
    assert_eq!(truncate_line(&s), s);
}

#[test]
fn long_line_truncated_to_at_most_seventy_one_clusters() {
    let s: String = "abcde ".repeat(20);
    let out = truncate_line(&s);
    let clusters: Vec<&str> = out.graphemes(true).collect();
    assert!(clusters.len() <= 71);
    assert_eq!(clusters.last().copied(), Some("\u{2026}"));
}

#[test]
fn truncation_never_splits_a_cluster() {
    // Each flag is one cluster of two code points; 80 flags exceed the limit.
    let s: String = "\u{1f1f7}\u{1f1fa}\u{1f1f8}\u{1f1f9}".repeat(40);
    let out = truncate_line(&s);
    let body = out.strip_suffix('\u{2026}').expect("long line must gain an ellipsis");
    // The kept part is whole clusters of the input: exactly the first 70.
    let expected: String = s.graphemes(true).take(70).collect();
    assert_eq!(body, expected);
    for g in body.graphemes(true) {
        assert_eq!(g.chars().count(), 2);
    }
}

#[test]
fn truncation_strips_whitespace_before_ellipsis() {
    let mut s: String = "y".repeat(69);
    s.push_str("   tail");
    let out = truncate_line(&s);
    let body = out.strip_suffix('\u{2026}').expect("long line must gain an ellipsis");
    assert_eq!(body, "y".repeat(69));
    assert!(!body.ends_with(char::is_whitespace));
}

#[test]
fn nothing_playing_sentinel() {
    assert_eq!(format_now_playing(&None), "\u{1f3b5} ???");
}

#[test]
fn full_line_with_artist_title_and_times() {
    let track = Track {
        title: Some("So What".to_string()),
        artists: vec!["Miles Davis".to_string()],
        album_artists: vec![],
        times: Some(PlayTimes { elapsed_seconds: 65, total_seconds: 562 }),
    };
    assert_eq!(
        format_now_playing(&Some(track)),
        "\u{1f3b5} Miles Davis - So What (01:05/09:22)"
    );
}

#[test]
fn album_artist_fallback_used_when_artists_empty() {
    let track = Track {
        title: Some("Tune".to_string()),
        artists: vec![],
        album_artists: vec!["Album Band".to_string()],
        times: None,
    };
    assert_eq!(format_now_playing(&Some(track)), "\u{1f3b5} Album Band - Tune (00:00)");
}

#[test]
fn track_artists_win_when_present() {
    let track = Track {
        title: Some("Tune".to_string()),
        artists: vec!["Solo".to_string()],
        album_artists: vec!["Album Band".to_string()],
        times: None,
    };
    assert_eq!(format_now_playing(&Some(track)), "\u{1f3b5} Solo - Tune (00:00)");
}

#[test]
fn missing_title_gives_sentinel() {
    let track = Track {
        title: None,
        artists: vec!["Solo".to_string()],
        album_artists: vec![],
        times: None,
    };
    assert_eq!(format_now_playing(&Some(track)), "\u{1f3b5} Solo - ??? (00:00)");
}
