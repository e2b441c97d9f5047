//! Commands and state shared between the daemon and the terminal client.

use vstd::prelude::*;
use crate::models::{AudioQuality, TrackData, DisplayItem, PlaylistData, AlbumDetail, PlaylistDetail};
use crate::offline::OfflineTrack;
use crate::player::{PlaybackStatus, RepeatMode};

verus! {

/// Screen the daemon is on (login vs main).
#[derive(Debug, Clone, Copy, PartialEq, Eq, Structural)]
pub enum Screen {
    Login,
    Main,
}

/// Active tab of the main view.
#[derive(Debug, Clone, Copy, PartialEq, Eq, Structural)]
pub enum ActiveTab {
    Search,
    Favorites,
    Radio,
    Downloads,
}

pub open spec fn next_tab(t: ActiveTab) -> ActiveTab {
    match t {
        ActiveTab::Search => ActiveTab::Favorites,
        ActiveTab::Favorites => ActiveTab::Radio,
        ActiveTab::Radio => ActiveTab::Downloads,
        ActiveTab::Downloads => ActiveTab::Search,
    }
}

pub open spec fn prev_tab(t: ActiveTab) -> ActiveTab {
    match t {
        ActiveTab::Search => ActiveTab::Downloads,
        ActiveTab::Favorites => ActiveTab::Search,
        ActiveTab::Radio => ActiveTab::Favorites,
        ActiveTab::Downloads => ActiveTab::Radio,
    }
}

impl ActiveTab {
    pub fn next(self) -> (r: ActiveTab)
        ensures
            r == next_tab(self),
    {
        match self {
            ActiveTab::Search => ActiveTab::Favorites,
            ActiveTab::Favorites => ActiveTab::Radio,
            ActiveTab::Radio => ActiveTab::Downloads,
            ActiveTab::Downloads => ActiveTab::Search,
        }
    }

    pub fn prev(self) -> (r: ActiveTab)
        ensures
            r == prev_tab(self),
    {
        match self {
            ActiveTab::Search => ActiveTab::Downloads,
            ActiveTab::Favorites => ActiveTab::Search,
            ActiveTab::Radio => ActiveTab::Favorites,
            ActiveTab::Downloads => ActiveTab::Radio,
        }
    }
}

/// Kind of item that a search returns.
#[derive(Debug, Clone, Copy, PartialEq, Eq, Structural)]
pub enum SearchCategory {
    Track,
    Artist,
    Album,
    Playlist,
    Podcast,
    Episode,
    Profile,
}

impl Default for SearchCategory {
    fn default() -> (c: Self)
        ensures
            c == SearchCategory::Track,
    {
        SearchCategory::Track
    }
}

pub open spec fn search_category_index(c: SearchCategory) -> int {
    match c {
        SearchCategory::Track => 0,
        SearchCategory::Artist => 1,
        SearchCategory::Album => 2,
        SearchCategory::Playlist => 3,
        SearchCategory::Podcast => 4,
        SearchCategory::Episode => 5,
        SearchCategory::Profile => 6,
    }
}

pub open spec fn search_category_at(i: int) -> SearchCategory {
    if i == 0 { SearchCategory::Track }
    else if i == 1 { SearchCategory::Artist }
    else if i == 2 { SearchCategory::Album }
    else if i == 3 { SearchCategory::Playlist }
    else if i == 4 { SearchCategory::Podcast }
    else if i == 5 { SearchCategory::Episode }
    else { SearchCategory::Profile }
}

/// Section name of a search category in the gateway's search results.
pub open spec fn search_api_key(c: SearchCategory) -> Seq<char> {
    match c {
        SearchCategory::Track => "TRACK"@,
        SearchCategory::Artist => "ARTIST"@,
        SearchCategory::Album => "ALBUM"@,
        SearchCategory::Playlist => "PLAYLIST"@,
        SearchCategory::Podcast => "SHOW"@,
        SearchCategory::Episode => "EPISODE"@,
        SearchCategory::Profile => "USER"@,
    }
}

impl SearchCategory {
    pub const ALL: [SearchCategory; 7] = [
        SearchCategory::Track,
        SearchCategory::Artist,
        SearchCategory::Album,
        SearchCategory::Playlist,
        SearchCategory::Podcast,
        SearchCategory::Episode,
        SearchCategory::Profile,
    ];

    pub fn next(self) -> (r: SearchCategory)
        ensures
            r == search_category_at((search_category_index(self) + 1) % 7),
    {
        match self {
            SearchCategory::Track => SearchCategory::Artist,
            SearchCategory::Artist => SearchCategory::Album,
            SearchCategory::Album => SearchCategory::Playlist,
            SearchCategory::Playlist => SearchCategory::Podcast,
            SearchCategory::Podcast => SearchCategory::Episode,
            SearchCategory::Episode => SearchCategory::Profile,
            SearchCategory::Profile => SearchCategory::Track,
        }
    }

    pub fn prev(self) -> (r: SearchCategory)
        ensures
            r == search_category_at((search_category_index(self) + 6) % 7),
    {
        match self {
            SearchCategory::Track => SearchCategory::Profile,
            SearchCategory::Artist => SearchCategory::Track,
            SearchCategory::Album => SearchCategory::Artist,
            SearchCategory::Playlist => SearchCategory::Album,
            SearchCategory::Podcast => SearchCategory::Playlist,
            SearchCategory::Episode => SearchCategory::Podcast,
            SearchCategory::Profile => SearchCategory::Episode,
        }
    }

    pub fn api_key(self) -> (s: &'static str)
        ensures
            s@ == search_api_key(self),
    {
        match self {
            SearchCategory::Track => "TRACK",
            SearchCategory::Artist => "ARTIST",
            SearchCategory::Album => "ALBUM",
            SearchCategory::Playlist => "PLAYLIST",
            SearchCategory::Podcast => "SHOW",
            SearchCategory::Episode => "EPISODE",
            SearchCategory::Profile => "USER",
        }
    }
}

/// Kind of favorites shown on the favorites tab.
#[derive(Debug, Clone, Copy, PartialEq, Eq, Structural)]
pub enum FavoritesCategory {
    RecentlyPlayed,
    Tracks,
    Artists,
    Albums,
    Playlists,
    Following,
}

impl Default for FavoritesCategory {
    fn default() -> (c: Self)
        ensures
            c == FavoritesCategory::RecentlyPlayed,
    {
        FavoritesCategory::RecentlyPlayed
    }
}

pub open spec fn favorites_category_index(c: FavoritesCategory) -> int {
    match c {
        FavoritesCategory::RecentlyPlayed => 0,
        FavoritesCategory::Tracks => 1,
        FavoritesCategory::Artists => 2,
        FavoritesCategory::Albums => 3,
        FavoritesCategory::Playlists => 4,
        FavoritesCategory::Following => 5,
    }
}

pub open spec fn favorites_category_at(i: int) -> FavoritesCategory {
    if i == 0 { FavoritesCategory::RecentlyPlayed }
    else if i == 1 { FavoritesCategory::Tracks }
    else if i == 2 { FavoritesCategory::Artists }
    else if i == 3 { FavoritesCategory::Albums }
    else if i == 4 { FavoritesCategory::Playlists }
    else { FavoritesCategory::Following }
}

impl FavoritesCategory {
    pub const ALL: [FavoritesCategory; 6] = [
        FavoritesCategory::RecentlyPlayed,
        FavoritesCategory::Tracks,
        FavoritesCategory::Artists,
        FavoritesCategory::Albums,
        FavoritesCategory::Playlists,
        FavoritesCategory::Following,
    ];

    pub fn next(self) -> (r: FavoritesCategory)
        ensures
            r == favorites_category_at((favorites_category_index(self) + 1) % 6),
    {
        match self {
            FavoritesCategory::RecentlyPlayed => FavoritesCategory::Tracks,
            FavoritesCategory::Tracks => FavoritesCategory::Artists,
            FavoritesCategory::Artists => FavoritesCategory::Albums,
            FavoritesCategory::Albums => FavoritesCategory::Playlists,
            FavoritesCategory::Playlists => FavoritesCategory::Following,
            FavoritesCategory::Following => FavoritesCategory::RecentlyPlayed,
        }
    }

    pub fn prev(self) -> (r: FavoritesCategory)
        ensures
            r == favorites_category_at((favorites_category_index(self) + 5) % 6),
    {
        match self {
            FavoritesCategory::RecentlyPlayed => FavoritesCategory::Following,
            FavoritesCategory::Tracks => FavoritesCategory::RecentlyPlayed,
            FavoritesCategory::Artists => FavoritesCategory::Tracks,
            FavoritesCategory::Albums => FavoritesCategory::Artists,
            FavoritesCategory::Playlists => FavoritesCategory::Albums,
            FavoritesCategory::Following => FavoritesCategory::Playlists,
        }
    }
}

/// Kind of content shown on the offline tab.
#[derive(Debug, Clone, Copy, PartialEq, Eq, Structural)]
pub enum OfflineCategory {
    Tracks,
    Albums,
}

impl Default for OfflineCategory {
    fn default() -> (c: Self)
        ensures
            c == OfflineCategory::Tracks,
    {
        OfflineCategory::Tracks
    }
}

pub open spec fn other_offline_category(c: OfflineCategory) -> OfflineCategory {
    match c {
        OfflineCategory::Tracks => OfflineCategory::Albums,
        OfflineCategory::Albums => OfflineCategory::Tracks,
    }
}

impl OfflineCategory {
    pub const ALL: [OfflineCategory; 2] = [OfflineCategory::Tracks, OfflineCategory::Albums];

    pub fn next(self) -> (r: OfflineCategory)
        ensures
            r == other_offline_category(self),
    {
        match self {
            OfflineCategory::Tracks => OfflineCategory::Albums,
            OfflineCategory::Albums => OfflineCategory::Tracks,
        }
    }

    pub fn prev(self) -> (r: OfflineCategory)
        ensures
            r == other_offline_category(self),
    {
        match self {
            OfflineCategory::Tracks => OfflineCategory::Albums,
            OfflineCategory::Albums => OfflineCategory::Tracks,
        }
    }
}

/// A radio station as the radio tab lists it.
#[derive(Debug)]
pub struct RadioItem {
    pub id: u64,
    pub title: String,
}

impl Clone for RadioItem {
    fn clone(&self) -> (r: Self)
        ensures
            r == *self,
    {
        RadioItem { id: self.id, title: self.title.clone() }
    }
}

pub fn clone_radios(v: &Vec<RadioItem>) -> (r: Vec<RadioItem>)
    ensures
        r@ == v@,
{
    let mut r: Vec<RadioItem> = Vec::new();
    for i in 0..v.len()
        invariant
            r@ == v@.take(i as int),
    {
        r.push(v[i].clone());
        assert(v@.take(i + 1) == v@.take(i as int).push(v@[i as int]));
    }
    assert(v@.take(v@.len() as int) == v@);
    r
}

/// A mood of the explore tab.
#[derive(Debug)]
pub struct MoodEntry {
    pub id: String,
    pub title: String,
}

impl Clone for MoodEntry {
    fn clone(&self) -> (r: Self)
        ensures
            r == *self,
    {
        MoodEntry { id: self.id.clone(), title: self.title.clone() }
    }
}

/// Commands sent from the terminal client to the daemon. (Volume changes
/// carry a float and are handled by the audio engine's host.)
#[derive(Debug)]
pub enum Command {
    GetSnapshot,
    Login { arl: String },
    Search { query: String },
    PlayFromSearch { index: usize },
    PlayFromFavorites { index: usize },
    TogglePause,
    NextTrack,
    PrevTrack,
    ToggleShuffle,
    CycleRepeat,
    LoadFavorites,
    SelectUp,
    SelectDown,
    NextTab,
    PrevTab,
    NextCategory,
    PrevCategory,
    ShuffleFavorites,
    AddFavorite { track_id: String },
    RemoveFavorite { track_id: String },
    RequestPlaylists,
    AddToPlaylist { playlist_id: String, track_id: String },
    DislikeTrack { track_id: String },
    PlayNext { track: TrackData },
    AddToQueue { track: TrackData },
    RemoveFromQueue { index: usize },
    StartMix { track_id: String },
    GetAlbumDetail { album_id: String },
    PlayFromAlbum { index: usize },
    GetPlaylistDetail { playlist_id: String },
    PlayFromPlaylist { index: usize },
    Logout,
    LoadRadios,
    PlayFromRadio { index: usize },
    DownloadOffline { track: TrackData },
    DownloadAlbumOffline { album_id: String },
    RemoveOfflineTrack { track_id: String },
    RemoveOfflineAlbum { album_id: String },
    PlayFromOffline { index: usize },
    PlayOfflineAlbum { album_id: String, track_index: usize },
    /// Artist page (sent by the client; the daemon has no handler for it).
    GetArtistDetail { artist_id: String },
    /// Favorite artists and albums (sent by the client; no daemon handler).
    AddFavoriteArtist { artist_id: String },
    RemoveFavoriteArtist { artist_id: String },
    AddFavoriteAlbum { album_id: String },
    RemoveFavoriteAlbum { album_id: String },
    /// Playlist editing (sent by the client; no daemon handler).
    RemoveFromPlaylist { playlist_id: String, track_id: String },
    RenamePlaylist { playlist_id: String, new_title: String },
    DeletePlaylist { playlist_id: String },
    CreatePlaylistAndAdd { title: String, track_id: String },
    /// Playback requests of newer clients (no daemon handler).
    StartFlow,
    PlayFromQueue { index: usize },
    PlayFromArtist { index: usize },
    SeekForward { secs: u64 },
    SeekBackward { secs: u64 },
    Shutdown,
}

/// Complete state snapshot sent from the daemon to the client. (The volume
/// is added by the audio engine's host.)
#[derive(Debug)]
pub struct Snapshot {
    pub screen: Screen,
    pub active_tab: ActiveTab,
    pub status: PlaybackStatus,
    pub current_track: Option<TrackData>,
    pub quality: AudioQuality,
    pub position_secs: u64,
    pub duration_secs: u64,
    pub shuffle: bool,
    pub repeat: RepeatMode,
    pub queue: Vec<TrackData>,
    pub queue_index: usize,
    pub search_results: Vec<TrackData>,
    pub search_selected: usize,
    pub search_loading: bool,
    pub search_category: SearchCategory,
    pub search_display: Vec<DisplayItem>,
    pub favorites: Vec<TrackData>,
    pub favorites_selected: usize,
    pub favorites_loading: bool,
    pub favorites_category: FavoritesCategory,
    pub favorites_display: Vec<DisplayItem>,
    pub offline_category: OfflineCategory,
    pub offline_tracks: Vec<OfflineTrack>,
    pub offline_albums: Vec<AlbumDetail>,
    pub offline_selected: usize,
    pub offline_loading: bool,
    pub offline_track_ids: Vec<String>,
    pub radios: Vec<RadioItem>,
    pub radios_selected: usize,
    pub radios_loading: bool,
    pub playlists: Vec<PlaylistData>,
    pub album_detail: Option<AlbumDetail>,
    pub album_detail_selected: usize,
    pub album_detail_loading: bool,
    pub playlist_detail: Option<PlaylistDetail>,
    pub playlist_detail_selected: usize,
    pub playlist_detail_loading: bool,
    pub status_msg: Option<String>,
    pub login_error: Option<String>,
    pub login_loading: bool,
    pub user_name: Option<String>,
    pub is_offline: bool,
}

} // verus!
