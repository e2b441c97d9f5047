//! Decisions of the background daemon: how each client command and each
//! finished background task changes the daemon's state, and which outside
//! work (network calls, audio engine, disk) it asks its host to perform.

pub mod commands;
pub mod fetch;
pub mod playback;
pub mod results;
pub mod tick;

use vstd::prelude::*;
use crate::i18n::Strings;
use crate::models::{AudioQuality, TrackData, DisplayItem, PlaylistData, AlbumDetail, PlaylistDetail};
use crate::offline::OfflineIndex;
use crate::player::PlayerState;
use crate::protocol::{Screen, ActiveTab, SearchCategory, FavoritesCategory, OfflineCategory, RadioItem};
use crate::text::{push_all, dec};

verus! {

/// Which operation an error message is about.
#[derive(Debug, Clone, Copy, PartialEq, Eq, Structural)]
pub enum ErrorKind {
    AudioInit,
    Key,
    Search,
    Favorites,
    Favorite,
    Playlists,
    AddToPlaylist,
    Dislike,
    Mix,
    Album,
    Playlist,
    Radios,
    RadioTracks,
    OfflineDownload,
    Playback,
    Track,
}

/// The status line, before translation.
#[derive(Debug, PartialEq, Eq)]
pub enum StatusMsg {
    LoginConnecting,
    NoInternet,
    FetchingKey,
    Ready,
    Loading,
    PlayerNotReady,
    PlayNext,
    AddedToQueue,
    RemovedOffline,
    LoadingMix,
    LoadingAlbum,
    LoadingPlaylist,
    LoadingRadioTracks,
    DownloadingTrack,
    TrackSavedOffline,
    AlbumSavedOffline,
    AddedToFavorites,
    RemovedFromFavorites,
    AddedToPlaylist,
    TrackDisliked,
    NoMixTracks,
    NoRadioTracks,
    ConnectedAs(String),
    Results(usize),
    Loaded(usize),
    PlaylistsLoaded(usize),
    RadiosLoaded(usize),
    MixTracks(usize),
    RadioTracks(usize),
    AlbumTracks(String, usize),
    PlaylistTracks(String, usize),
    Error(ErrorKind, String),
}

/// Prefix of an error message of a kind.
pub open spec fn error_prefix(s: Strings, k: ErrorKind) -> &'static str {
    match k {
        ErrorKind::AudioInit => s.status_audio_init_error,
        ErrorKind::Key => s.status_key_error,
        ErrorKind::Search => s.status_search_error,
        ErrorKind::Favorites => s.status_favorites_error,
        ErrorKind::Favorite => s.status_favorite_error,
        ErrorKind::Playlists => s.status_playlists_error,
        ErrorKind::AddToPlaylist => s.status_add_to_playlist_error,
        ErrorKind::Dislike => s.status_dislike_error,
        ErrorKind::Mix => s.status_mix_error,
        ErrorKind::Album => s.status_album_error,
        ErrorKind::Playlist => s.status_playlist_error,
        ErrorKind::Radios => s.status_radios_error,
        ErrorKind::RadioTracks => s.status_radio_tracks_error,
        ErrorKind::OfflineDownload => s.status_offline_download_error,
        ErrorKind::Playback => s.status_playback_error,
        ErrorKind::Track => s.status_track_error,
    }
}

/// The translated text of a status message.
pub open spec fn status_text(s: Strings, m: StatusMsg) -> Seq<char> {
    match m {
        StatusMsg::LoginConnecting => s.login_connecting@,
        StatusMsg::NoInternet => s.no_internet@,
        StatusMsg::FetchingKey => s.status_fetching_key@,
        StatusMsg::Ready => s.status_ready@,
        StatusMsg::Loading => s.loading@,
        StatusMsg::PlayerNotReady => s.status_player_not_ready@,
        StatusMsg::PlayNext => s.status_play_next@,
        StatusMsg::AddedToQueue => s.status_added_to_queue@,
        StatusMsg::RemovedOffline => s.status_removed_offline@,
        StatusMsg::LoadingMix => s.status_loading_mix@,
        StatusMsg::LoadingAlbum => s.status_loading_album@,
        StatusMsg::LoadingPlaylist => s.status_loading_playlist@,
        StatusMsg::LoadingRadioTracks => s.status_loading_radio_tracks@,
        StatusMsg::DownloadingTrack => s.status_downloading_track@,
        StatusMsg::TrackSavedOffline => s.status_track_saved_offline@,
        StatusMsg::AlbumSavedOffline => s.status_album_saved_offline@,
        StatusMsg::AddedToFavorites => s.status_added_to_favorites@,
        StatusMsg::RemovedFromFavorites => s.status_removed_from_favorites@,
        StatusMsg::AddedToPlaylist => s.status_added_to_playlist@,
        StatusMsg::TrackDisliked => s.status_track_disliked@,
        StatusMsg::NoMixTracks => s.status_no_mix_tracks@,
        StatusMsg::NoRadioTracks => s.status_no_radio_tracks@,
        StatusMsg::ConnectedAs(name) => s.status_connected_as@ + " "@ + name@,
        StatusMsg::Results(n) => dec(n as nat) + " "@ + s.status_results@,
        StatusMsg::Loaded(n) => dec(n as nat) + " "@ + s.status_loaded@,
        StatusMsg::PlaylistsLoaded(n) => dec(n as nat) + " "@ + s.status_playlists_loaded@,
        StatusMsg::RadiosLoaded(n) => dec(n as nat) + " "@ + s.status_radios_loaded@,
        StatusMsg::MixTracks(n) => s.status_mix_tracks@ + " "@ + dec(n as nat),
        StatusMsg::RadioTracks(n) => s.status_radio_tracks@ + " "@ + dec(n as nat),
        StatusMsg::AlbumTracks(title, n) => title@ + " — "@ + dec(n as nat) + " "@ + s.header_tracks@,
        StatusMsg::PlaylistTracks(title, n) => title@ + " — "@ + dec(n as nat) + " "@ + s.header_tracks@,
        StatusMsg::Error(k, err) => error_prefix(s, k)@ + ": "@ + err@,
    }
}

impl StatusMsg {
    /// The translated status line.
    pub fn render(&self, s: &Strings) -> (r: String)
        ensures
            r@ == status_text(*s, *self),
    {
        match self {
            StatusMsg::LoginConnecting => { let mut r = String::new(); push_all(&mut r, s.login_connecting); r }
            StatusMsg::NoInternet => { let mut r = String::new(); push_all(&mut r, s.no_internet); r }
            StatusMsg::FetchingKey => { let mut r = String::new(); push_all(&mut r, s.status_fetching_key); r }
            StatusMsg::Ready => { let mut r = String::new(); push_all(&mut r, s.status_ready); r }
            StatusMsg::Loading => { let mut r = String::new(); push_all(&mut r, s.loading); r }
            StatusMsg::PlayerNotReady => { let mut r = String::new(); push_all(&mut r, s.status_player_not_ready); r }
            StatusMsg::PlayNext => { let mut r = String::new(); push_all(&mut r, s.status_play_next); r }
            StatusMsg::AddedToQueue => { let mut r = String::new(); push_all(&mut r, s.status_added_to_queue); r }
            StatusMsg::RemovedOffline => { let mut r = String::new(); push_all(&mut r, s.status_removed_offline); r }
            StatusMsg::LoadingMix => { let mut r = String::new(); push_all(&mut r, s.status_loading_mix); r }
            StatusMsg::LoadingAlbum => { let mut r = String::new(); push_all(&mut r, s.status_loading_album); r }
            StatusMsg::LoadingPlaylist => { let mut r = String::new(); push_all(&mut r, s.status_loading_playlist); r }
            StatusMsg::LoadingRadioTracks => { let mut r = String::new(); push_all(&mut r, s.status_loading_radio_tracks); r }
            StatusMsg::DownloadingTrack => { let mut r = String::new(); push_all(&mut r, s.status_downloading_track); r }
            StatusMsg::TrackSavedOffline => { let mut r = String::new(); push_all(&mut r, s.status_track_saved_offline); r }
            StatusMsg::AlbumSavedOffline => { let mut r = String::new(); push_all(&mut r, s.status_album_saved_offline); r }
            StatusMsg::AddedToFavorites => { let mut r = String::new(); push_all(&mut r, s.status_added_to_favorites); r }
            StatusMsg::RemovedFromFavorites => { let mut r = String::new(); push_all(&mut r, s.status_removed_from_favorites); r }
            StatusMsg::AddedToPlaylist => { let mut r = String::new(); push_all(&mut r, s.status_added_to_playlist); r }
            StatusMsg::TrackDisliked => { let mut r = String::new(); push_all(&mut r, s.status_track_disliked); r }
            StatusMsg::NoMixTracks => { let mut r = String::new(); push_all(&mut r, s.status_no_mix_tracks); r }
            StatusMsg::NoRadioTracks => { let mut r = String::new(); push_all(&mut r, s.status_no_radio_tracks); r }
            StatusMsg::ConnectedAs(name) => s.fmt_connected_as(name.as_str()),
            StatusMsg::Results(n) => s.fmt_results(*n),
            StatusMsg::Loaded(n) => s.fmt_loaded(*n),
            StatusMsg::PlaylistsLoaded(n) => s.fmt_playlists_loaded(*n),
            StatusMsg::RadiosLoaded(n) => s.fmt_radios_loaded(*n),
            StatusMsg::MixTracks(n) => s.fmt_mix_tracks(*n),
            StatusMsg::RadioTracks(n) => s.fmt_radio_tracks(*n),
            StatusMsg::AlbumTracks(title, n) => s.fmt_album_tracks_status(title.as_str(), *n),
            StatusMsg::PlaylistTracks(title, n) => s.fmt_playlist_tracks_status(title.as_str(), *n),
            StatusMsg::Error(k, err) => {
                let prefix = match k {
                    ErrorKind::AudioInit => s.status_audio_init_error,
                    ErrorKind::Key => s.status_key_error,
                    ErrorKind::Search => s.status_search_error,
                    ErrorKind::Favorites => s.status_favorites_error,
                    ErrorKind::Favorite => s.status_favorite_error,
                    ErrorKind::Playlists => s.status_playlists_error,
                    ErrorKind::AddToPlaylist => s.status_add_to_playlist_error,
                    ErrorKind::Dislike => s.status_dislike_error,
                    ErrorKind::Mix => s.status_mix_error,
                    ErrorKind::Album => s.status_album_error,
                    ErrorKind::Playlist => s.status_playlist_error,
                    ErrorKind::Radios => s.status_radios_error,
                    ErrorKind::RadioTracks => s.status_radio_tracks_error,
                    ErrorKind::OfflineDownload => s.status_offline_download_error,
                    ErrorKind::Playback => s.status_playback_error,
                    ErrorKind::Track => s.status_track_error,
                };
                s.fmt_error(prefix, err.as_str())
            }
        }
    }
}

/// Outside work that the daemon asks its host to perform. Each one that
/// finishes later is answered with an `AsyncResult`.
#[derive(Debug)]
pub enum Effect {
    /// Persist the configuration (the ARL token and the quality).
    SaveConfig,
    /// Log in with an ARL token (`LoginSuccess` / `LoginError`).
    Login { arl: String },
    /// Fetch the stream decryption key (`MasterKeyReady` / `MasterKeyError`).
    FetchMasterKey,
    /// Track search (`SearchResults` / `SearchError`).
    SearchTracks { query: String },
    /// Search of another category (`SearchDisplayResults` / `SearchError`).
    SearchCategory { query: String, category: SearchCategory },
    /// Load the favorite tracks (`FavoritesLoaded` / `FavoritesError`).
    LoadFavorites,
    /// Load one favorites category (`FavoritesLoaded`,
    /// `FavoritesDisplayLoaded` / `FavoritesError`).
    LoadFavoritesCategory { category: FavoritesCategory },
    AddFavorite { track_id: String },
    RemoveFavorite { track_id: String },
    LoadPlaylists,
    AddToPlaylist { playlist_id: String, track_id: String },
    DislikeTrack { track_id: String },
    LoadMix { track_id: String },
    LoadAlbumDetail { album_id: String },
    LoadPlaylistDetail { playlist_id: String },
    LoadRadios,
    LoadRadioTracks { radio_id: u64 },
    /// Fetch, download and decrypt a track (`TrackReady` / `TrackFetchError`).
    FetchTrack { track: TrackData, generation: u64, quality: AudioQuality, master_key: [u8; 16] },
    /// Read an offline track from disk (`TrackReady` / `TrackFetchError`).
    LoadOfflineTrack { track: TrackData, generation: u64 },
    /// Download a track for offline use (`OfflineTrackSaved` / `OfflineTrackSaveError`).
    DownloadTrack { track: TrackData, quality: AudioQuality, master_key: [u8; 16] },
    /// Download an album for offline use (`OfflineAlbumSaved` / `OfflineAlbumSaveError`).
    DownloadAlbum { album_id: String, quality: AudioQuality, master_key: [u8; 16] },
    /// Delete the audio file of an offline track.
    DeleteTrackFile { track_id: String },
    /// Persist the offline index.
    SaveOfflineIndex,
    /// Pause the audio sink.
    EnginePause,
    /// Resume the audio sink.
    EngineResume,
    /// Drop the audio engine.
    DropEngine,
    /// Play the decoded audio of the current fetch; answered by
    /// `Daemon::playback_started` or `Daemon::playback_failed`.
    PlayDecoded { track: TrackData, quality: AudioQuality },
}

/// Outcomes of background work, as the host reports them.
#[derive(Debug)]
pub enum AsyncResult {
    LoginSuccess(String),
    LoginError(String),
    /// The key arrived; `engine` tells whether the host could open the audio
    /// engine with it (and the error text if not).
    MasterKeyReady { key: [u8; 16], engine: Result<(), String> },
    MasterKeyError(String),
    SearchResults(Vec<TrackData>),
    SearchError(String),
    SearchDisplayResults(Vec<DisplayItem>),
    FavoritesLoaded(Vec<TrackData>),
    FavoritesError(String),
    FavoritesDisplayLoaded(Vec<DisplayItem>),
    /// Audio for a fetch is decoded and held by the host.
    TrackReady { track: TrackData, quality: AudioQuality, generation: u64 },
    TrackFetchError { err: String, generation: u64 },
    FavoriteAdded(String),
    FavoriteRemoved(String),
    FavoriteError(String),
    PlaylistsReady(Vec<PlaylistData>),
    PlaylistsError(String),
    AddedToPlaylist(String),
    AddToPlaylistError(String),
    DislikeOk,
    DislikeError(String),
    MixReady(Vec<TrackData>),
    MixError(String),
    AlbumDetailReady(AlbumDetail),
    AlbumDetailError(String),
    PlaylistDetailReady(PlaylistDetail),
    PlaylistDetailError(String),
    RadiosReady(Vec<RadioItem>),
    RadiosError(String),
    RadioTracksReady(Vec<TrackData>),
    RadioTracksError(String),
    OfflineTrackSaved { track: TrackData, quality: AudioQuality },
    OfflineTrackSaveError(String),
    OfflineAlbumSaved { album: AlbumDetail },
    OfflineAlbumSaveError(String),
}

/// Consecutive failed fetches after which playback stops instead of skipping.
pub const MAX_CONSECUTIVE_SKIPS: u32 = 5;

/// Nanoseconds per second of the host's monotonic clock.
pub const NANOS_PER_SEC: u64 = 1_000_000_000;

/// State of the daemon.
#[derive(Debug)]
pub struct Daemon {
    /// Saved ARL token of the configuration.
    pub arl: Option<String>,
    /// Requested streaming quality of the configuration.
    pub quality: AudioQuality,
    pub screen: Screen,
    pub active_tab: ActiveTab,
    pub status_msg: Option<StatusMsg>,

    pub login_error: Option<String>,
    pub login_loading: bool,
    pub user_name: Option<String>,

    pub search_results: Vec<TrackData>,
    pub search_selected: usize,
    pub search_loading: bool,
    pub search_category: SearchCategory,
    pub search_display: Vec<DisplayItem>,
    pub last_search_query: String,

    pub favorites: Vec<TrackData>,
    pub favorites_selected: usize,
    pub favorites_loading: bool,
    pub favorites_category: FavoritesCategory,
    pub favorites_display: Vec<DisplayItem>,

    pub radios: Vec<RadioItem>,
    pub radios_selected: usize,
    pub radios_loading: bool,

    pub offline_index: OfflineIndex,
    pub offline_category: OfflineCategory,
    pub offline_selected: usize,
    pub offline_loading: bool,

    pub playlists: Vec<PlaylistData>,

    pub album_detail: Option<AlbumDetail>,
    pub album_detail_selected: usize,
    pub album_detail_loading: bool,

    pub playlist_detail: Option<PlaylistDetail>,
    pub playlist_detail_selected: usize,
    pub playlist_detail_loading: bool,

    pub player: PlayerState,
    /// The host holds an audio engine.
    pub has_engine: bool,
    pub master_key: Option<[u8; 16]>,

    /// No network connectivity at start.
    pub is_offline: bool,

    /// Host clock (nanoseconds) when playback last (re)started.
    pub playback_started_at: Option<u64>,
    /// Seconds played before the last pause.
    pub playback_offset_secs: u64,

    /// Generation of the latest track request; older results are ignored.
    pub track_generation: u64,
    /// Consecutive failed track fetches.
    pub consecutive_skip_count: u32,
}

/// Whole seconds elapsed from `since` to `now` (zero if the clock went back).
pub open spec fn elapsed_secs(since: u64, now: u64) -> u64 {
    if now >= since { ((now - since) / NANOS_PER_SEC as int) as u64 } else { 0 }
}

pub(crate) fn elapsed(since: u64, now: u64) -> (r: u64)
    ensures
        r == elapsed_secs(since, now),
{
    if now >= since { (now - since) / NANOS_PER_SEC } else { 0 }
}

/// The playable tracks among display rows, in order.
pub open spec fn playable(items: Seq<DisplayItem>) -> Seq<TrackData>
    decreases items.len(),
{
    if items.len() == 0 {
        seq![]
    } else {
        match items.last().track {
            Some(t) => playable(items.drop_last()).push(t),
            None => playable(items.drop_last()),
        }
    }
}

/// Index of the first track with this id, or 0 when there is none.
pub open spec fn position_of_id(tracks: Seq<TrackData>, id: Seq<char>) -> int
    decreases tracks.len(),
{
    if tracks.len() == 0 {
        0
    } else if tracks[0].track_id@ == id {
        0
    } else if exists|i: int| 0 < i < tracks.len() && (#[trigger] tracks[i]).track_id@ == id {
        position_of_id(tracks.drop_first(), id) + 1
    } else {
        0
    }
}

impl Daemon {
    /// The daemon's invariant.
    pub open spec fn wf(&self) -> bool {
        &&& self.player.queue_index == 0 || self.player.queue_index < self.player.queue@.len()
        &&& self.consecutive_skip_count <= MAX_CONSECUTIVE_SKIPS
        &&& self.search_selected < usize::MAX
        &&& self.favorites_selected < usize::MAX
        &&& self.radios_selected < usize::MAX
        &&& self.offline_selected < usize::MAX
    }
}


} // verus!
