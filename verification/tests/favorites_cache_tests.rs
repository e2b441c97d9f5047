use deezer_tui::favorites_cache::{FavoritesCache, CACHE_VERSION};
use deezer_tui::models::PlaylistDetail;

fn detail(id: &str, title: &str) -> PlaylistDetail {
    PlaylistDetail { playlist_id: id.to_string(), title: title.to_string(), creator: String::new(), nb_tracks: 0, tracks: Vec::new() }
}

#[test]
fn stored_details_read_back_and_invalidate() {
    let mut c = FavoritesCache::empty();
    assert_eq!(c.version, CACHE_VERSION);
    c.store_playlist_detail("1".to_string(), detail("1", "old"));
    c.store_playlist_detail("2".to_string(), detail("2", "other"));
    c.store_playlist_detail("1".to_string(), detail("1", "new"));
    assert_eq!(c.playlist_detail("1").map(|d| d.title.as_str()), Some("new"));
    assert_eq!(c.playlist_details.len(), 2);
    c.playlists = Some(Vec::new());
    c.invalidate_playlists(Some("1"));
    assert!(c.playlists.is_none());
    assert!(c.playlist_detail("1").is_none());
    assert!(c.playlist_detail("2").is_some());
}

#[test]
fn loading_keeps_only_the_current_format() {
    let mut old = FavoritesCache::new();
    old.tracks = Some(Vec::new());
    let c = FavoritesCache::from_loaded(Some(old));
    assert!(c.tracks.is_none());
    assert_eq!(c.version, CACHE_VERSION);
    let mut cur = FavoritesCache::empty();
    cur.tracks = Some(Vec::new());
    assert!(FavoritesCache::from_loaded(Some(cur)).tracks.is_some());
    assert_eq!(FavoritesCache::from_loaded(None).version, CACHE_VERSION);
    assert_eq!(FavoritesCache::new().stamped().version, CACHE_VERSION);
}
