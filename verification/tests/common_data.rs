use deezer_tui::models::{AlbumDetail, AudioQuality, TrackData};
use deezer_tui::offline::OfflineIndex;

fn track(id: &str) -> TrackData {
    TrackData {
        track_id: id.to_string(),
        title: format!("Title {id}"),
        artist: "Artist".to_string(),
        artist_id: Some("7".to_string()),
        album: "Album".to_string(),
        duration: "215".to_string(),
        album_picture: String::new(),
        album_id: None,
        track_token: Some("tok".to_string()),
        md5_origin: String::new(),
        fallback: None,
    }
}

fn album(id: &str, track_ids: &[&str]) -> AlbumDetail {
    AlbumDetail {
        album_id: id.to_string(),
        title: format!("Album {id}"),
        artist: "Artist".to_string(),
        nb_tracks: track_ids.len() as u64,
        release_date: "2020-01-01".to_string(),
        cover_url: String::new(),
        label: String::new(),
        tracks: track_ids.iter().map(|t| track(t)).collect(),
    }
}

#[test]
fn offline_add_then_has_and_remove_then_not() {
    let mut index = OfflineIndex::new();
    assert!(!index.has_track("1"));
    index.add_track(track("1"), AudioQuality::Mp3_320);
    assert!(index.has_track("1"));
    index.add_track(track("1"), AudioQuality::Flac);
    assert_eq!(index.tracks.len(), 1);
    assert_eq!(index.tracks[0].quality, AudioQuality::Mp3_320);
    index.add_track(track("2"), AudioQuality::Mp3_128);
    assert_eq!(index.track_ids(), vec!["1".to_string(), "2".to_string()]);
    index.remove_track("1");
    assert!(!index.has_track("1"));
    assert!(index.has_track("2"));
}

#[test]
fn offline_albums_and_their_tracks() {
    let mut index = OfflineIndex::new();
    index.add_track(track("1"), AudioQuality::Mp3_128);
    index.add_track(track("2"), AudioQuality::Mp3_128);
    index.add_track(track("3"), AudioQuality::Mp3_128);
    index.add_album(album("a", &["1", "2"]));
    assert!(index.has_album("a"));
    assert_eq!(index.find_album("a"), Some(0));
    assert_eq!(index.find_album("b"), None);
    let singles: Vec<String> = index.single_tracks().into_iter().map(|t| t.track.track_id).collect();
    assert_eq!(singles, vec!["3".to_string()]);
    index.remove_album("a");
    assert!(!index.has_album("a"));
    assert_eq!(index.track_ids(), vec!["3".to_string()]);
}

#[test]
fn track_helpers() {
    let t = track("12");
    assert_eq!(t.duration_secs(), 215);
    assert!(t.has_track_token());
    assert!(!t.is_user_uploaded());
    assert!(track("-5").is_user_uploaded());
    let mut bad = track("1");
    bad.duration = "x".to_string();
    assert_eq!(bad.duration_secs(), 0);
}

#[test]
fn quality_fallbacks() {
    assert_eq!(AudioQuality::Mp3_320.all_fallbacks(), vec![AudioQuality::Mp3_320, AudioQuality::Mp3_128, AudioQuality::Mp3_64, AudioQuality::Flac]);
    assert_eq!(AudioQuality::Flac.as_api_format(), "FLAC");
    assert_eq!(AudioQuality::Mp3_128.fallback(), Some(AudioQuality::Mp3_64));
    assert_eq!(AudioQuality::Mp3_64.fallback(), None);
}

#[test]
fn fallback_orders_try_higher_qualities_nearest_first() {
    let (q64, q128, q320, flac) = (AudioQuality::Mp3_64, AudioQuality::Mp3_128, AudioQuality::Mp3_320, AudioQuality::Flac);
    assert_eq!(q128.all_fallbacks(), vec![q128, q64, q320, flac]);
    assert_eq!(q64.all_fallbacks(), vec![q64, q128, q320, flac]);
    assert_eq!(flac.all_fallbacks(), vec![flac, q320, q128, q64]);
}
