use statusline::channel::Channel;
use statusline::nowplay::{PlayTimes, Track};
use statusline::sources::{mpd_step, render_volume, volume_step, weather_step, CommandOutcome,
    MpdEvent, MpdState};

#[test]
fn fresh_channel_reads_fallback() {
    let c = Channel::new("\u{1f50a} ???".to_string());
    assert_eq!(c.read(), "\u{1f50a} ???");
}

#[test]
fn read_returns_most_recent_publish() {
    let mut c = Channel::new("fallback".to_string());
    c.publish("first".to_string());
    assert_eq!(c.read(), "first");
    c.publish("second".to_string());
    c.publish("third".to_string());
    assert_eq!(c.read(), "third");
    // Reads never consume: a second read sees the same value.
    assert_eq!(c.read(), "third");
}

#[test]
fn failing_adapter_publishes_exact_fallback_every_tick() {
    let mut c = Channel::new("\u{1f6f0}\u{fe0f} ???".to_string());
    for _ in 0..5 {
        let published = weather_step(&CommandOutcome::SpawnFailed);
        c.publish(published);
        assert_eq!(c.read(), "\u{1f6f0}\u{fe0f} ???");
    }
}

#[test]
fn weather_success_publishes_stdout() {
    let ev = CommandOutcome::Exited {
        success: true,
        stdout_utf8: Some("\u{1f326}\u{fe0f} 17\u{b0}".to_string()),
    };
    assert_eq!(weather_step(&ev), "\u{1f326}\u{fe0f} 17\u{b0}");
}

#[test]
fn weather_failure_exit_publishes_fallback() {
    let ev = CommandOutcome::Exited { success: false, stdout_utf8: Some("junk".to_string()) };
    assert_eq!(weather_step(&ev), "\u{1f6f0}\u{fe0f} ???");
}

#[test]
fn weather_bad_utf8_publishes_fallback() {
    let ev = CommandOutcome::Exited { success: true, stdout_utf8: None };
    assert_eq!(weather_step(&ev), "\u{1f6f0}\u{fe0f} ???");
}

#[test]
fn volume_fixed_offset_parse() {
    assert_eq!(render_volume("Volume: 0.50\n"), "\u{1f50a} 50%");
}

#[test]
fn volume_muted_report_switches_icon() {
    assert_eq!(render_volume("Volume: 0.35 [MUTED]\n"), "\u{1f507} 35%");
}

#[test]
fn volume_short_report_is_fallback() {
    assert_eq!(render_volume("Volume:\n"), "\u{1f50a} ???");
}

#[test]
fn volume_spawn_failure_is_fallback() {
    assert_eq!(volume_step(&CommandOutcome::SpawnFailed), "\u{1f50a} ???");
}

#[test]
fn volume_success_runs_the_parse() {
    let ev = CommandOutcome::Exited {
        success: true,
        stdout_utf8: Some("Volume: 1.00\n".to_string()),
    };
    assert_eq!(volume_step(&ev), "\u{1f50a} 00%");
}

#[test]
fn mpd_connect_failure_retries_without_publishing() {
    let (next, published, sleep) = mpd_step(MpdState::Disconnected, MpdEvent::ConnectFailed);
    assert_eq!(next, MpdState::Disconnected);
    assert!(published.is_none());
    assert_eq!(sleep, 1000);
}

#[test]
fn mpd_connect_success_enters_query_loop() {
    let (next, published, sleep) = mpd_step(MpdState::Disconnected, MpdEvent::ConnectSucceeded);
    assert_eq!(next, MpdState::Connected);
    assert!(published.is_none());
    assert_eq!(sleep, 0);
}

#[test]
fn mpd_query_failure_publishes_fallback_and_reconnects() {
    let (next, published, sleep) = mpd_step(MpdState::Connected, MpdEvent::QueryFailed);
    assert_eq!(next, MpdState::Disconnected);
    assert_eq!(published.as_deref(), Some("\u{1f3b5} ???"));
    assert_eq!(sleep, 0);
}

#[test]
fn mpd_query_success_publishes_rendering_and_stays() {
    let track = Track {
        title: Some("Blue in Green".to_string()),
        artists: vec!["Miles Davis".to_string(), "Bill Evans".to_string()],
        album_artists: vec![],
        times: Some(PlayTimes { elapsed_seconds: 10, total_seconds: 337 }),
    };
    let (next, published, sleep) = mpd_step(MpdState::Connected, MpdEvent::QuerySucceeded(Some(track)));
    assert_eq!(next, MpdState::Connected);
    assert_eq!(
        published.as_deref(),
        Some("\u{1f3b5} Miles Davis & Bill Evans - Blue in Green (00:10/05:37)")
    );
    assert_eq!(sleep, 112);
}

#[test]
fn mpd_no_current_song_publishes_sentinel_and_stays() {
    let (next, published, _sleep) = mpd_step(MpdState::Connected, MpdEvent::QuerySucceeded(None));
    assert_eq!(next, MpdState::Connected);
    assert_eq!(published.as_deref(), Some("\u{1f3b5} ???"));
}
