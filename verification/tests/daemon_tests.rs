use deezer_tui::daemon::{AsyncResult, Daemon, Effect, ErrorKind, StatusMsg};
use deezer_tui::daemon::fetch::{fetch_start, fetch_step, FetchAction, FetchEvent, FetchState};
use deezer_tui::i18n::{t, Locale};
use deezer_tui::models::{AudioQuality, TrackData, TrackFallback};
use deezer_tui::offline::OfflineIndex;
use deezer_tui::player::PlaybackStatus;
use deezer_tui::protocol::{ActiveTab, Command, Screen};

const SEC: u64 = 1_000_000_000;

fn track(id: &str, secs: &str) -> TrackData {
    TrackData {
        track_id: id.to_string(),
        title: format!("Title {id}"),
        artist: "Artist".to_string(),
        artist_id: None,
        album: "Album".to_string(),
        duration: secs.to_string(),
        album_picture: String::new(),
        album_id: None,
        track_token: Some("tok".to_string()),
        md5_origin: String::new(),
        fallback: None,
    }
}

#[test]
fn fresh_daemon_screens() {
    let d = Daemon::new(None, AudioQuality::Mp3_128, false, OfflineIndex::new());
    assert_eq!(d.screen, Screen::Login);
    assert_eq!(d.active_tab, ActiveTab::Search);
    let d = Daemon::new(Some("abc".to_string()), AudioQuality::Mp3_128, false, OfflineIndex::new());
    assert_eq!(d.screen, Screen::Main);
    let d = Daemon::new(None, AudioQuality::Mp3_128, true, OfflineIndex::new());
    assert_eq!(d.screen, Screen::Main);
    assert_eq!(d.active_tab, ActiveTab::Downloads);
}

#[test]
fn startup_logs_in_with_saved_token() {
    let mut d = Daemon::new(Some("abc".to_string()), AudioQuality::Mp3_128, false, OfflineIndex::new());
    let eff = d.startup(false);
    assert!(matches!(eff.as_slice(), [Effect::Login { arl }] if arl == "abc"));
    assert!(d.login_loading);
    assert_eq!(d.status_msg, Some(StatusMsg::LoginConnecting));
    let mut off = Daemon::new(None, AudioQuality::Mp3_128, true, OfflineIndex::new());
    assert!(off.startup(true).is_empty());
    assert!(off.has_engine);
}

#[test]
fn search_command_and_results() {
    let mut d = Daemon::new(Some("abc".to_string()), AudioQuality::Mp3_128, false, OfflineIndex::new());
    let eff = d.handle_command(Command::Search { query: "daft".to_string() }, 0, 0);
    assert!(matches!(eff.as_slice(), [Effect::SearchTracks { query }] if query == "daft"));
    assert!(d.search_loading);
    let eff = d.process_result(AsyncResult::SearchResults(vec![track("1", "100"), track("2", "200")]), 0, 0);
    assert!(eff.is_empty());
    assert!(!d.search_loading);
    assert_eq!(d.search_display.len(), 2);
    assert_eq!(d.status_msg, Some(StatusMsg::Results(2)));
    let snap = d.snapshot(&t(Locale::English));
    assert_eq!(snap.status_msg.as_deref(), Some("2 results"));
}

#[test]
fn playing_needs_the_key_then_fetches() {
    let mut d = Daemon::new(Some("abc".to_string()), AudioQuality::Mp3_320, false, OfflineIndex::new());
    d.process_result(AsyncResult::SearchResults(vec![track("1", "100")]), 0, 0);
    let eff = d.handle_command(Command::PlayFromSearch { index: 0 }, 0, 0);
    assert!(eff.is_empty());
    assert_eq!(d.status_msg, Some(StatusMsg::PlayerNotReady));
    d.process_result(AsyncResult::MasterKeyReady { key: [1u8; 16], engine: Ok(()) }, 0, 0);
    let eff = d.handle_command(Command::PlayFromSearch { index: 0 }, 0, 0);
    match eff.as_slice() {
        [Effect::FetchTrack { track, generation, quality, .. }] => {
            assert_eq!(track.track_id, "1");
            assert_eq!(*generation, d.track_generation);
            assert_eq!(*quality, AudioQuality::Mp3_320);
        }
        other => panic!("unexpected {other:?}"),
    }
    assert_eq!(d.player.status, PlaybackStatus::Loading);
    assert_eq!(d.player.duration_secs, 100);
}

#[test]
fn tick_moves_the_position_and_caps_it() {
    let mut d = Daemon::new(Some("abc".to_string()), AudioQuality::Mp3_128, false, OfflineIndex::new());
    d.process_result(AsyncResult::MasterKeyReady { key: [1u8; 16], engine: Ok(()) }, 0, 0);
    d.player.queue = vec![track("1", "100")];
    d.playback_started(track("1", "100"), AudioQuality::Mp3_128, 10 * SEC);
    assert_eq!(d.player.status, PlaybackStatus::Playing);
    let eff = d.on_tick(40 * SEC, false, 0);
    assert!(eff.is_empty());
    assert_eq!(d.player.position_secs, 30);
    d.on_tick(500 * SEC, false, 0);
    assert_eq!(d.player.position_secs, 100);
}

#[test]
fn stale_fetch_results_are_ignored() {
    let mut d = Daemon::new(Some("abc".to_string()), AudioQuality::Mp3_128, false, OfflineIndex::new());
    d.process_result(AsyncResult::MasterKeyReady { key: [1u8; 16], engine: Ok(()) }, 0, 0);
    d.process_result(AsyncResult::SearchResults(vec![track("1", "100"), track("2", "90")]), 0, 0);
    d.handle_command(Command::PlayFromSearch { index: 0 }, 0, 0);
    let old_generation = d.track_generation;
    d.handle_command(Command::PlayFromSearch { index: 1 }, 0, 0);
    let eff = d.process_result(AsyncResult::TrackReady { track: track("1", "100"), quality: AudioQuality::Mp3_128, generation: old_generation }, 0, 0);
    assert!(eff.is_empty());
    assert_eq!(d.player.current_track.as_ref().map(|t| t.track_id.as_str()), Some("2"));
}

fn fetch_url(state: FetchState, r: Result<(&str, AudioQuality), &str>) -> (FetchState, FetchAction) {
    fetch_step(state, FetchEvent::StreamUrl(r.map(|(u, q)| (u.to_string(), q)).map_err(|e| e.to_string())))
}

fn fetch_track(state: FetchState, r: Result<TrackData, &str>) -> (FetchState, FetchAction) {
    fetch_step(state, FetchEvent::Track(r.map_err(|e| e.to_string())))
}

/// Runs a fetch of `t` up to the first stream request's answer.
fn fetch_to_first_url(t: TrackData) -> FetchState {
    let (s, a) = fetch_start(t.clone());
    assert!(matches!(a, FetchAction::EnsureToken { ref track } if track.track_id == t.track_id));
    let (s, a) = fetch_step(s, FetchEvent::Token(Ok(t.clone())));
    assert!(matches!(a, FetchAction::GetStreamUrl { ref track } if track.track_id == t.track_id));
    s
}

#[test]
fn fetch_plays_the_track_on_a_first_url() {
    let s = fetch_to_first_url(track("7", "60"));
    let (s, a) = fetch_url(s, Ok(("https://cdn/7", AudioQuality::Mp3_320)));
    match a {
        FetchAction::Download { url, track_id } => {
            assert_eq!(url, "https://cdn/7");
            assert_eq!(track_id, "7");
        }
        other => panic!("unexpected {other:?}"),
    }
    let (s, a) = fetch_step(s, FetchEvent::Audio(Ok(())));
    assert!(matches!(s, FetchState::Done));
    match a {
        FetchAction::Ready { track, quality } => {
            assert_eq!(track.track_id, "7");
            assert_eq!(quality, AudioQuality::Mp3_320);
        }
        other => panic!("unexpected {other:?}"),
    }
}

#[test]
fn fetch_fails_when_the_token_cannot_be_had() {
    let (s, _) = fetch_start(track("7", "60"));
    let (s, a) = fetch_step(s, FetchEvent::Token(Err("no token".to_string())));
    assert!(matches!(s, FetchState::Done));
    assert!(matches!(a, FetchAction::Failed { ref err } if err == "no token"));
}

#[test]
fn fetch_retries_with_the_refreshed_track() {
    let s = fetch_to_first_url(track("7", "60"));
    let (s, a) = fetch_url(s, Err("expired"));
    assert!(matches!(a, FetchAction::GetTrack { ref track_id } if track_id == "7"));
    let mut fresh = track("7", "60");
    fresh.track_token = Some("fresh".to_string());
    let (s, a) = fetch_track(s, Ok(fresh));
    assert!(matches!(a, FetchAction::GetStreamUrl { ref track } if track.track_token.as_deref() == Some("fresh")));
    let (s, _) = fetch_url(s, Ok(("https://cdn/7b", AudioQuality::Mp3_128)));
    let (_, a) = fetch_step(s, FetchEvent::Audio(Ok(())));
    match a {
        FetchAction::Ready { track, quality } => {
            assert_eq!(track.track_token.as_deref(), Some("fresh"));
            assert_eq!(quality, AudioQuality::Mp3_128);
        }
        other => panic!("unexpected {other:?}"),
    }
}

#[test]
fn fetch_fails_with_the_refresh_error() {
    let s = fetch_to_first_url(track("7", "60"));
    let (s, _) = fetch_url(s, Err("expired"));
    let (s, a) = fetch_track(s, Err("gone"));
    assert!(matches!(s, FetchState::Done));
    assert!(matches!(a, FetchAction::Failed { ref err } if err == "gone"));
}

#[test]
fn fetch_without_fallback_reports_the_first_error() {
    let s = fetch_to_first_url(track("7", "60"));
    let (s, _) = fetch_url(s, Err("first"));
    let (s, _) = fetch_track(s, Ok(track("7", "60")));
    let (s, a) = fetch_url(s, Err("second"));
    assert!(matches!(s, FetchState::Done));
    assert!(matches!(a, FetchAction::Failed { ref err } if err == "first"));
}

#[test]
fn fetch_tries_the_fallback_track() {
    let s = fetch_to_first_url(track("7", "60"));
    let (s, _) = fetch_url(s, Err("first"));
    let mut fresh = track("7", "60");
    fresh.fallback = Some(TrackFallback { track_id: "8".to_string() });
    let (s, _) = fetch_track(s, Ok(fresh));
    let (s, a) = fetch_url(s, Err("second"));
    assert!(matches!(a, FetchAction::GetTrack { ref track_id } if track_id == "8"));
    let (s, a) = fetch_track(s, Ok(track("8", "61")));
    assert!(matches!(a, FetchAction::GetStreamUrl { ref track } if track.track_id == "8"));
    let (s, a) = fetch_url(s, Ok(("https://cdn/8", AudioQuality::Mp3_64)));
    assert!(matches!(a, FetchAction::Download { ref track_id, .. } if track_id == "8"));
    let (_, a) = fetch_step(s, FetchEvent::Audio(Ok(())));
    assert!(matches!(a, FetchAction::Ready { ref track, quality: AudioQuality::Mp3_64 } if track.track_id == "8"));
}

#[test]
fn fetch_fallback_errors_are_reported() {
    let mut fresh = track("7", "60");
    fresh.fallback = Some(TrackFallback { track_id: "8".to_string() });
    let s = fetch_to_first_url(track("7", "60"));
    let (s, _) = fetch_url(s, Err("first"));
    let (s, _) = fetch_track(s, Ok(fresh));
    let (s, _) = fetch_url(s, Err("second"));
    let (s, a) = fetch_track(s, Ok(track("8", "61")));
    assert!(matches!(a, FetchAction::GetStreamUrl { .. }));
    let (s, a) = fetch_url(s, Err("third"));
    assert!(matches!(s, FetchState::Done));
    assert!(matches!(a, FetchAction::Failed { ref err } if err == "third"));
}

#[test]
fn fetch_download_errors_are_reported_and_stray_answers_ignored() {
    let s = fetch_to_first_url(track("7", "60"));
    let (s, a) = fetch_step(s, FetchEvent::Audio(Ok(())));
    assert!(matches!(a, FetchAction::Wait));
    assert!(matches!(s, FetchState::FirstUrl { .. }));
    let (s, _) = fetch_url(s, Ok(("https://cdn/7", AudioQuality::Flac)));
    let (s, a) = fetch_step(s, FetchEvent::Audio(Err("cdn down".to_string())));
    assert!(matches!(s, FetchState::Done));
    assert!(matches!(a, FetchAction::Failed { ref err } if err == "cdn down"));
}

#[test]
fn six_failed_fetches_skip_five_times_then_stop() {
    let mut d = Daemon::new(Some("abc".to_string()), AudioQuality::Mp3_128, false, OfflineIndex::new());
    d.process_result(AsyncResult::MasterKeyReady { key: [1u8; 16], engine: Ok(()) }, 0, 0);
    let tracks: Vec<TrackData> = (1..=8).map(|i| track(&i.to_string(), "100")).collect();
    d.process_result(AsyncResult::SearchResults(tracks), 0, 0);
    d.handle_command(Command::PlayFromSearch { index: 0 }, 0, 0);
    assert_eq!(d.consecutive_skip_count, 0);
    for i in 0..5u32 {
        let eff = d.process_result(AsyncResult::TrackFetchError { err: "boom".to_string(), generation: d.track_generation }, 0, 0);
        assert!(matches!(eff.as_slice(), [Effect::FetchTrack { .. }]));
        assert_eq!(d.consecutive_skip_count, i + 1);
        assert_eq!(d.player.queue_index, i as usize + 1);
        assert_eq!(d.player.status, PlaybackStatus::Loading);
    }
    let eff = d.process_result(AsyncResult::TrackFetchError { err: "boom".to_string(), generation: d.track_generation }, 0, 0);
    assert!(eff.is_empty());
    assert_eq!(d.player.status, PlaybackStatus::Stopped);
    assert_eq!(d.consecutive_skip_count, 0);
    assert_eq!(d.player.queue_index, 5);
    assert!(matches!(d.status_msg, Some(StatusMsg::Error(ErrorKind::Track, ref e)) if e == "boom"));
}
