//! How each finished background task, and the clock, change the daemon.

use vstd::prelude::*;
use crate::models::{AudioQuality, TrackData, DisplayItem, AlbumDetail, track_row_ok, track_rows};
use crate::offline::{OfflineIndex, OfflineTrack, has_track_id, has_album_id};
use crate::player::{PlaybackStatus, RepeatMode, PlayerState, is_initial_player};
use crate::protocol::Screen;
use crate::daemon::{Daemon, Effect, StatusMsg, ErrorKind, AsyncResult, MAX_CONSECUTIVE_SKIPS, elapsed, elapsed_secs};
use crate::daemon::playback::{plays, advances, with_queue};
use crate::daemon::commands::{category_load_started, radios_load_started, favorites_load_started};

verus! {

/// `rows` are the table rows of `tracks`, one per track.
pub open spec fn rows_of(rows: Seq<DisplayItem>, tracks: Seq<TrackData>) -> bool {
    &&& rows.len() == tracks.len()
    &&& forall|i: int| 0 <= i < tracks.len() ==> track_row_ok(#[trigger] rows[i], tracks[i])
}

/// `pre` with only the status line changed.
pub open spec fn with_status(pre: Daemon, m: StatusMsg) -> Daemon {
    Daemon { status_msg: Some(m), ..pre }
}

/// Offline entries after adding each of `new` that is not yet present.
pub open spec fn add_all(tracks: Seq<OfflineTrack>, new: Seq<TrackData>, q: AudioQuality) -> Seq<OfflineTrack>
    decreases new.len(),
{
    if new.len() == 0 {
        tracks
    } else {
        let r = add_all(tracks, new.drop_last(), q);
        if has_track_id(r, new.last().track_id@) {
            r
        } else {
            r.push(OfflineTrack { track: new.last(), quality: q })
        }
    }
}

/// A received list of tracks becomes the queue and its first track starts;
/// an empty list only sets the status `none`.
pub open spec fn plays_received(
    pre: Daemon,
    post: Daemon,
    tracks: Seq<TrackData>,
    none: StatusMsg,
    some: StatusMsg,
    eff: Seq<Effect>,
) -> bool {
    if tracks.len() == 0 {
        post == with_status(pre, none) && eff == Seq::<Effect>::empty()
    } else {
        &&& post.player.queue@ == tracks
        &&& plays(with_queue(with_status(pre, some), post, 0), post, tracks[0], eff)
    }
}

/// Login, key, search and favorites results.
#[verifier::opaque]
pub open spec fn handles_account_result(pre: Daemon, post: Daemon, r: AsyncResult, eff: Seq<Effect>) -> bool {
    match r {
        AsyncResult::LoginSuccess(name) => {
            &&& post == Daemon {
                login_loading: false,
                screen: Screen::Main,
                user_name: Some(name),
                status_msg: Some(StatusMsg::FetchingKey),
                ..pre
            }
            &&& eff == seq![Effect::FetchMasterKey]
        }
        AsyncResult::LoginError(err) => {
            post == Daemon { login_loading: false, screen: Screen::Login, login_error: Some(err), ..pre }
                && eff == Seq::<Effect>::empty()
        }
        AsyncResult::MasterKeyReady { key, engine } => {
            let mid = match engine {
                Ok(_) => Daemon {
                    master_key: Some(key),
                    status_msg: Some(StatusMsg::Ready),
                    has_engine: true,
                    player: post.player,
                    ..pre
                },
                Err(e) => Daemon {
                    master_key: Some(key),
                    status_msg: Some(StatusMsg::Error(ErrorKind::AudioInit, e)),
                    ..pre
                },
            };
            &&& (engine is Ok ==> is_initial_player(post.player))
            &&& exists|mid2: Daemon, e1: Seq<Effect>, e2: Seq<Effect>|
                category_load_started(mid, mid2, e1) && radios_load_started(mid2, post, e2) && eff == e1 + e2
        }
        AsyncResult::MasterKeyError(err) => {
            post == with_status(pre, StatusMsg::Error(ErrorKind::Key, err)) && eff == Seq::<Effect>::empty()
        }
        AsyncResult::SearchResults(tracks) => {
            &&& rows_of(post.search_display@, tracks@)
            &&& post == Daemon {
                search_loading: false,
                status_msg: Some(StatusMsg::Results(tracks@.len() as usize)),
                search_display: post.search_display,
                search_results: tracks,
                search_selected: 0,
                ..pre
            }
            &&& eff == Seq::<Effect>::empty()
        }
        AsyncResult::SearchDisplayResults(items) => {
            &&& post.search_results@.len() == 0
            &&& post == Daemon {
                search_loading: false,
                status_msg: Some(StatusMsg::Results(items@.len() as usize)),
                search_results: post.search_results,
                search_display: items,
                search_selected: 0,
                ..pre
            }
            &&& eff == Seq::<Effect>::empty()
        }
        AsyncResult::SearchError(err) => {
            post == Daemon { search_loading: false, status_msg: Some(StatusMsg::Error(ErrorKind::Search, err)), ..pre }
                && eff == Seq::<Effect>::empty()
        }
        AsyncResult::FavoritesLoaded(tracks) => {
            &&& rows_of(post.favorites_display@, tracks@)
            &&& post == Daemon {
                favorites_loading: false,
                status_msg: Some(StatusMsg::Loaded(tracks@.len() as usize)),
                favorites_display: post.favorites_display,
                favorites: tracks,
                favorites_selected: 0,
                ..pre
            }
            &&& eff == Seq::<Effect>::empty()
        }
        AsyncResult::FavoritesDisplayLoaded(items) => {
            &&& post.favorites@.len() == 0
            &&& post == Daemon {
                favorites_loading: false,
                status_msg: Some(StatusMsg::Loaded(items@.len() as usize)),
                favorites: post.favorites,
                favorites_display: items,
                favorites_selected: 0,
                ..pre
            }
            &&& eff == Seq::<Effect>::empty()
        }
        AsyncResult::FavoritesError(err) => {
            &&& post.favorites@.len() == 0
            &&& post.favorites_display@.len() == 0
            &&& post == Daemon {
                favorites_loading: false,
                favorites: post.favorites,
                favorites_display: post.favorites_display,
                favorites_selected: 0,
                status_msg: Some(StatusMsg::Error(ErrorKind::Favorites, err)),
                ..pre
            }
            &&& eff == Seq::<Effect>::empty()
        }
        AsyncResult::FavoriteAdded(_) => favorites_load_started(with_status(pre, StatusMsg::AddedToFavorites), post, eff),
        AsyncResult::FavoriteRemoved(_) => favorites_load_started(with_status(pre, StatusMsg::RemovedFromFavorites), post, eff),
        AsyncResult::FavoriteError(err) => {
            post == with_status(pre, StatusMsg::Error(ErrorKind::Favorite, err)) && eff == Seq::<Effect>::empty()
        }
        _ => false,
    }
}

/// Playlist, mix, album and playlist-detail results.
#[verifier::opaque]
pub open spec fn handles_content_result(pre: Daemon, post: Daemon, r: AsyncResult, eff: Seq<Effect>) -> bool {
    match r {
        AsyncResult::PlaylistsReady(playlists) => {
            post == Daemon { playlists, status_msg: Some(StatusMsg::PlaylistsLoaded(playlists@.len() as usize)), ..pre }
                && eff == Seq::<Effect>::empty()
        }
        AsyncResult::PlaylistsError(err) => {
            post == with_status(pre, StatusMsg::Error(ErrorKind::Playlists, err)) && eff == Seq::<Effect>::empty()
        }
        AsyncResult::AddedToPlaylist(_) => post == with_status(pre, StatusMsg::AddedToPlaylist) && eff == Seq::<Effect>::empty(),
        AsyncResult::AddToPlaylistError(err) => {
            post == with_status(pre, StatusMsg::Error(ErrorKind::AddToPlaylist, err)) && eff == Seq::<Effect>::empty()
        }
        AsyncResult::DislikeOk => post == with_status(pre, StatusMsg::TrackDisliked) && eff == Seq::<Effect>::empty(),
        AsyncResult::DislikeError(err) => {
            post == with_status(pre, StatusMsg::Error(ErrorKind::Dislike, err)) && eff == Seq::<Effect>::empty()
        }
        AsyncResult::MixReady(tracks) => {
            plays_received(pre, post, tracks@, StatusMsg::NoMixTracks, StatusMsg::MixTracks(tracks@.len() as usize), eff)
        }
        AsyncResult::MixError(err) => post == with_status(pre, StatusMsg::Error(ErrorKind::Mix, err)) && eff == Seq::<Effect>::empty(),
        AsyncResult::AlbumDetailReady(detail) => {
            post == Daemon {
                album_detail_loading: false,
                status_msg: Some(StatusMsg::AlbumTracks(detail.title, detail.tracks@.len() as usize)),
                album_detail: Some(detail),
                album_detail_selected: 0,
                ..pre
            } && eff == Seq::<Effect>::empty()
        }
        AsyncResult::AlbumDetailError(err) => {
            post == Daemon { album_detail_loading: false, status_msg: Some(StatusMsg::Error(ErrorKind::Album, err)), ..pre }
                && eff == Seq::<Effect>::empty()
        }
        AsyncResult::PlaylistDetailReady(detail) => {
            post == Daemon {
                playlist_detail_loading: false,
                status_msg: Some(StatusMsg::PlaylistTracks(detail.title, detail.tracks@.len() as usize)),
                playlist_detail: Some(detail),
                playlist_detail_selected: 0,
                ..pre
            } && eff == Seq::<Effect>::empty()
        }
        AsyncResult::PlaylistDetailError(err) => {
            post == Daemon { playlist_detail_loading: false, status_msg: Some(StatusMsg::Error(ErrorKind::Playlist, err)), ..pre }
                && eff == Seq::<Effect>::empty()
        }
        _ => false,
    }
}

/// Radio, offline and track results.
#[verifier::opaque]
pub open spec fn handles_media_result(pre: Daemon, post: Daemon, r: AsyncResult, now: u64, random: u64, eff: Seq<Effect>) -> bool {
    match r {
        AsyncResult::RadiosReady(items) => {
            post == Daemon {
                radios_loading: false,
                status_msg: Some(StatusMsg::RadiosLoaded(items@.len() as usize)),
                radios: items,
                radios_selected: 0,
                ..pre
            } && eff == Seq::<Effect>::empty()
        }
        AsyncResult::RadiosError(err) => {
            post == Daemon { radios_loading: false, status_msg: Some(StatusMsg::Error(ErrorKind::Radios, err)), ..pre }
                && eff == Seq::<Effect>::empty()
        }
        AsyncResult::RadioTracksReady(tracks) => {
            plays_received(pre, post, tracks@, StatusMsg::NoRadioTracks, StatusMsg::RadioTracks(tracks@.len() as usize), eff)
        }
        AsyncResult::RadioTracksError(err) => {
            post == with_status(pre, StatusMsg::Error(ErrorKind::RadioTracks, err)) && eff == Seq::<Effect>::empty()
        }
        AsyncResult::OfflineTrackSaved { track, quality } => {
            let t = pre.offline_index.tracks@;
            &&& post.offline_index.tracks@ == (if has_track_id(t, track.track_id@) { t } else { t.push(OfflineTrack { track, quality }) })
            &&& post == Daemon {
                offline_loading: false,
                offline_index: OfflineIndex { tracks: post.offline_index.tracks, ..pre.offline_index },
                status_msg: Some(StatusMsg::TrackSavedOffline),
                ..pre
            }
            &&& eff == seq![Effect::SaveOfflineIndex]
        }
        AsyncResult::OfflineTrackSaveError(err) | AsyncResult::OfflineAlbumSaveError(err) => {
            post == Daemon { offline_loading: false, status_msg: Some(StatusMsg::Error(ErrorKind::OfflineDownload, err)), ..pre }
                && eff == Seq::<Effect>::empty()
        }
        AsyncResult::OfflineAlbumSaved { album } => {
            let a = pre.offline_index.albums@;
            &&& post.offline_index.tracks@ == add_all(pre.offline_index.tracks@, album.tracks@, pre.quality)
            &&& post.offline_index.albums@ == (if has_album_id(a, album.album_id@) { a } else { a.push(album) })
            &&& post == Daemon {
                offline_loading: false,
                offline_index: post.offline_index,
                status_msg: Some(StatusMsg::AlbumSavedOffline),
                ..pre
            }
            &&& eff == seq![Effect::SaveOfflineIndex]
        }
        AsyncResult::TrackReady { track, quality, generation } => {
            &&& post == pre
            &&& eff == (if generation == pre.track_generation && pre.has_engine {
                seq![Effect::PlayDecoded { track, quality }]
            } else {
                Seq::<Effect>::empty()
            })
        }
        AsyncResult::TrackFetchError { err, generation } => {
            if generation != pre.track_generation {
                post == pre && eff == Seq::<Effect>::empty()
            } else if pre.consecutive_skip_count + 1 <= MAX_CONSECUTIVE_SKIPS {
                advances(
                    Daemon {
                        status_msg: Some(StatusMsg::Error(ErrorKind::Track, err)),
                        consecutive_skip_count: (pre.consecutive_skip_count + 1) as u32,
                        ..pre
                    },
                    post,
                    now,
                    random,
                    eff,
                )
            } else {
                &&& post == Daemon {
                    status_msg: Some(StatusMsg::Error(ErrorKind::Track, err)),
                    consecutive_skip_count: 0,
                    player: PlayerState { status: PlaybackStatus::Stopped, ..pre.player },
                    ..pre
                }
                &&& eff == Seq::<Effect>::empty()
            }
        }
        _ => false,
    }
}

pub open spec fn is_account_result(r: AsyncResult) -> bool {
    r is LoginSuccess || r is LoginError || r is MasterKeyReady || r is MasterKeyError || r is SearchResults
        || r is SearchDisplayResults || r is SearchError || r is FavoritesLoaded || r is FavoritesDisplayLoaded
        || r is FavoritesError || r is FavoriteAdded || r is FavoriteRemoved || r is FavoriteError
}

pub open spec fn is_content_result(r: AsyncResult) -> bool {
    r is PlaylistsReady || r is PlaylistsError || r is AddedToPlaylist || r is AddToPlaylistError || r is DislikeOk
        || r is DislikeError || r is MixReady || r is MixError || r is AlbumDetailReady || r is AlbumDetailError
        || r is PlaylistDetailReady || r is PlaylistDetailError
}

/// How a finished background task changes the daemon.
pub open spec fn handles_result(pre: Daemon, post: Daemon, r: AsyncResult, now: u64, random: u64, eff: Seq<Effect>) -> bool {
    if is_account_result(r) {
        handles_account_result(pre, post, r, eff)
    } else if is_content_result(r) {
        handles_content_result(pre, post, r, eff)
    } else {
        handles_media_result(pre, post, r, now, random, eff)
    }
}

impl Daemon {
    /// Apply the outcome of a background task. `now` is the host's clock in
    /// nanoseconds; `random` picks the next track when shuffling.
    pub fn process_result(&mut self, r: AsyncResult, now: u64, random: u64) -> (eff: Vec<Effect>)
        requires
            old(self).wf(),
        ensures
            final(self).wf(),
            handles_result(*old(self), *final(self), r, now, random, eff@),
    {
        match r {
            AsyncResult::LoginSuccess(_) | AsyncResult::LoginError(_) | AsyncResult::MasterKeyReady { .. }
                | AsyncResult::MasterKeyError(_) | AsyncResult::SearchResults(_) | AsyncResult::SearchDisplayResults(_)
                | AsyncResult::SearchError(_) | AsyncResult::FavoritesLoaded(_) | AsyncResult::FavoritesDisplayLoaded(_)
                | AsyncResult::FavoritesError(_) | AsyncResult::FavoriteAdded(_) | AsyncResult::FavoriteRemoved(_)
                | AsyncResult::FavoriteError(_) => self.account_result(r),
            AsyncResult::PlaylistsReady(_) | AsyncResult::PlaylistsError(_) | AsyncResult::AddedToPlaylist(_)
                | AsyncResult::AddToPlaylistError(_) | AsyncResult::DislikeOk | AsyncResult::DislikeError(_)
                | AsyncResult::MixReady(_) | AsyncResult::MixError(_) | AsyncResult::AlbumDetailReady(_)
                | AsyncResult::AlbumDetailError(_) | AsyncResult::PlaylistDetailReady(_)
                | AsyncResult::PlaylistDetailError(_) => self.content_result(r),
            _ => self.media_result(r, now, random),
        }
    }

    fn set_status(&mut self, m: StatusMsg)
        requires
            old(self).wf(),
        ensures
            final(self).wf(),
            *final(self) == with_status(*old(self), m),
    {
        self.status_msg = Some(m);
    }

    fn key_ready(&mut self, key: [u8; 16], engine: Result<(), String>) -> (eff: Vec<Effect>)
        requires
            old(self).wf(),
        ensures
            final(self).wf(),
            handles_account_result(*old(self), *final(self), AsyncResult::MasterKeyReady { key, engine }, eff@),
    {
        reveal(handles_account_result);
        self.master_key = Some(key);
        self.status_msg = Some(StatusMsg::Ready);
        match engine {
            Ok(_) => {
                self.has_engine = true;
                self.player = PlayerState::new();
            }
            Err(e) => {
                self.status_msg = Some(StatusMsg::Error(ErrorKind::AudioInit, e));
            }
        }
        let ghost mid = *self;
        let mut eff = self.start_load_favorites_category();
        let ghost mid2 = *self;
        let ghost e1 = eff@;
        let mut e2 = self.start_load_radios();
        let ghost e2v = e2@;
        eff.append(&mut e2);
        proof {
            reveal(category_load_started);
            reveal(radios_load_started);
            assert(category_load_started(mid, mid2, e1) && radios_load_started(mid2, *self, e2v) && eff@ == e1 + e2v);
        }
        eff
    }

    fn on_login_success(&mut self, name: String) -> (eff: Vec<Effect>)
        requires
            old(self).wf(),
        ensures
            final(self).wf(),
            handles_account_result(*old(self), *final(self), AsyncResult::LoginSuccess(name), eff@),
    {
        reveal(handles_account_result);
        self.login_loading = false;
        self.screen = Screen::Main;
        self.user_name = Some(name);
        // The "connected as" line is replaced at once by the key fetch.
        self.status_msg = Some(StatusMsg::FetchingKey);
        let mut eff: Vec<Effect> = Vec::new();
        eff.push(Effect::FetchMasterKey);
        eff
    
    }

    fn on_login_error(&mut self, err: String) -> (eff: Vec<Effect>)
        requires
            old(self).wf(),
        ensures
            final(self).wf(),
            handles_account_result(*old(self), *final(self), AsyncResult::LoginError(err), eff@),
    {
        reveal(handles_account_result);
        self.login_loading = false;
        self.screen = Screen::Login;
        self.login_error = Some(err);
        Vec::new()
    
    }

    fn on_master_key_error(&mut self, err: String) -> (eff: Vec<Effect>)
        requires
            old(self).wf(),
        ensures
            final(self).wf(),
            handles_account_result(*old(self), *final(self), AsyncResult::MasterKeyError(err), eff@),
    {
        reveal(handles_account_result);
        self.set_status(StatusMsg::Error(ErrorKind::Key, err));
        Vec::new()
    
    }

    fn on_search_results(&mut self, tracks: Vec<TrackData>) -> (eff: Vec<Effect>)
        requires
            old(self).wf(),
        ensures
            final(self).wf(),
            handles_account_result(*old(self), *final(self), AsyncResult::SearchResults(tracks), eff@),
    {
        reveal(handles_account_result);
        self.search_loading = false;
        self.status_msg = Some(StatusMsg::Results(tracks.len()));
        self.search_display = track_rows(&tracks);
        self.search_results = tracks;
        self.search_selected = 0;
        Vec::new()
    
    }

    fn on_search_display_results(&mut self, items: Vec<DisplayItem>) -> (eff: Vec<Effect>)
        requires
            old(self).wf(),
        ensures
            final(self).wf(),
            handles_account_result(*old(self), *final(self), AsyncResult::SearchDisplayResults(items), eff@),
    {
        reveal(handles_account_result);
        self.search_loading = false;
        self.status_msg = Some(StatusMsg::Results(items.len()));
        self.search_results = Vec::new();
        self.search_display = items;
        self.search_selected = 0;
        Vec::new()
    
    }

    fn on_search_error(&mut self, err: String) -> (eff: Vec<Effect>)
        requires
            old(self).wf(),
        ensures
            final(self).wf(),
            handles_account_result(*old(self), *final(self), AsyncResult::SearchError(err), eff@),
    {
        reveal(handles_account_result);
        self.search_loading = false;
        self.status_msg = Some(StatusMsg::Error(ErrorKind::Search, err));
        Vec::new()
    
    }

    fn on_favorites_loaded(&mut self, tracks: Vec<TrackData>) -> (eff: Vec<Effect>)
        requires
            old(self).wf(),
        ensures
            final(self).wf(),
            handles_account_result(*old(self), *final(self), AsyncResult::FavoritesLoaded(tracks), eff@),
    {
        reveal(handles_account_result);
        self.favorites_loading = false;
        self.status_msg = Some(StatusMsg::Loaded(tracks.len()));
        self.favorites_display = track_rows(&tracks);
        self.favorites = tracks;
        self.favorites_selected = 0;
        Vec::new()
    
    }

    fn on_favorites_display_loaded(&mut self, items: Vec<DisplayItem>) -> (eff: Vec<Effect>)
        requires
            old(self).wf(),
        ensures
            final(self).wf(),
            handles_account_result(*old(self), *final(self), AsyncResult::FavoritesDisplayLoaded(items), eff@),
    {
        reveal(handles_account_result);
        self.favorites_loading = false;
        self.status_msg = Some(StatusMsg::Loaded(items.len()));
        self.favorites = Vec::new();
        self.favorites_display = items;
        self.favorites_selected = 0;
        Vec::new()
    
    }

    fn on_favorites_error(&mut self, err: String) -> (eff: Vec<Effect>)
        requires
            old(self).wf(),
        ensures
            final(self).wf(),
            handles_account_result(*old(self), *final(self), AsyncResult::FavoritesError(err), eff@),
    {
        reveal(handles_account_result);
        self.favorites_loading = false;
        self.favorites_display = Vec::new();
        self.favorites = Vec::new();
        self.favorites_selected = 0;
        self.status_msg = Some(StatusMsg::Error(ErrorKind::Favorites, err));
        Vec::new()
    
    }

    fn on_favorite_added(&mut self, id: String) -> (eff: Vec<Effect>)
        requires
            old(self).wf(),
        ensures
            final(self).wf(),
            handles_account_result(*old(self), *final(self), AsyncResult::FavoriteAdded(id), eff@),
    {
        reveal(handles_account_result);
        self.set_status(StatusMsg::AddedToFavorites);
        self.start_load_favorites()
    
    }

    fn on_favorite_removed(&mut self, id: String) -> (eff: Vec<Effect>)
        requires
            old(self).wf(),
        ensures
            final(self).wf(),
            handles_account_result(*old(self), *final(self), AsyncResult::FavoriteRemoved(id), eff@),
    {
        reveal(handles_account_result);
        self.set_status(StatusMsg::RemovedFromFavorites);
        self.start_load_favorites()
    
    }

    fn on_favorite_error(&mut self, err: String) -> (eff: Vec<Effect>)
        requires
            old(self).wf(),
        ensures
            final(self).wf(),
            handles_account_result(*old(self), *final(self), AsyncResult::FavoriteError(err), eff@),
    {
        reveal(handles_account_result);
        self.set_status(StatusMsg::Error(ErrorKind::Favorite, err));
        Vec::new()
    
    }

    fn account_result(&mut self, r: AsyncResult) -> (eff: Vec<Effect>)
        requires
            old(self).wf(),
            is_account_result(r),
        ensures
            final(self).wf(),
            handles_account_result(*old(self), *final(self), r, eff@),
    {
        match r {
            AsyncResult::LoginSuccess(name) => self.on_login_success(name),
            AsyncResult::LoginError(err) => self.on_login_error(err),
            AsyncResult::MasterKeyReady { key, engine } => self.key_ready(key, engine),
            AsyncResult::MasterKeyError(err) => self.on_master_key_error(err),
            AsyncResult::SearchResults(tracks) => self.on_search_results(tracks),
            AsyncResult::SearchDisplayResults(items) => self.on_search_display_results(items),
            AsyncResult::SearchError(err) => self.on_search_error(err),
            AsyncResult::FavoritesLoaded(tracks) => self.on_favorites_loaded(tracks),
            AsyncResult::FavoritesDisplayLoaded(items) => self.on_favorites_display_loaded(items),
            AsyncResult::FavoritesError(err) => self.on_favorites_error(err),
            AsyncResult::FavoriteAdded(id) => self.on_favorite_added(id),
            AsyncResult::FavoriteRemoved(id) => self.on_favorite_removed(id),
            AsyncResult::FavoriteError(err) => self.on_favorite_error(err),
            _ => Vec::new(),
        }
    }

    /// Make a received list the queue and start its first track.
    fn play_received(&mut self, tracks: Vec<TrackData>, none: StatusMsg, some: StatusMsg) -> (eff: Vec<Effect>)
        requires
            old(self).wf(),
        ensures
            final(self).wf(),
            plays_received(*old(self), *final(self), tracks@, none, some, eff@),
    {
        if tracks.len() == 0 {
            self.set_status(none);
            return Vec::new();
        }
        self.set_status(some);
        let first = tracks[0].clone();
        self.play_new_queue(tracks, 0, first)
    }

    fn on_playlists_ready(&mut self, playlists: Vec<crate::models::PlaylistData>) -> (eff: Vec<Effect>)
        requires
            old(self).wf(),
        ensures
            final(self).wf(),
            handles_content_result(*old(self), *final(self), AsyncResult::PlaylistsReady(playlists), eff@),
    {
        reveal(handles_content_result);
        let n = playlists.len();
        self.playlists = playlists;
        self.status_msg = Some(StatusMsg::PlaylistsLoaded(n));
        Vec::new()
    
    }

    fn on_playlists_error(&mut self, err: String) -> (eff: Vec<Effect>)
        requires
            old(self).wf(),
        ensures
            final(self).wf(),
            handles_content_result(*old(self), *final(self), AsyncResult::PlaylistsError(err), eff@),
    {
        reveal(handles_content_result);
        self.set_status(StatusMsg::Error(ErrorKind::Playlists, err));
        Vec::new()
    
    }

    fn on_added_to_playlist(&mut self, id: String) -> (eff: Vec<Effect>)
        requires
            old(self).wf(),
        ensures
            final(self).wf(),
            handles_content_result(*old(self), *final(self), AsyncResult::AddedToPlaylist(id), eff@),
    {
        reveal(handles_content_result);
        self.set_status(StatusMsg::AddedToPlaylist);
        Vec::new()
    
    }

    fn on_add_to_playlist_error(&mut self, err: String) -> (eff: Vec<Effect>)
        requires
            old(self).wf(),
        ensures
            final(self).wf(),
            handles_content_result(*old(self), *final(self), AsyncResult::AddToPlaylistError(err), eff@),
    {
        reveal(handles_content_result);
        self.set_status(StatusMsg::Error(ErrorKind::AddToPlaylist, err));
        Vec::new()
    
    }

    fn on_dislike_ok(&mut self) -> (eff: Vec<Effect>)
        requires
            old(self).wf(),
        ensures
            final(self).wf(),
            handles_content_result(*old(self), *final(self), AsyncResult::DislikeOk, eff@),
    {
        reveal(handles_content_result);
        self.set_status(StatusMsg::TrackDisliked);
        Vec::new()
    
    }

    fn on_dislike_error(&mut self, err: String) -> (eff: Vec<Effect>)
        requires
            old(self).wf(),
        ensures
            final(self).wf(),
            handles_content_result(*old(self), *final(self), AsyncResult::DislikeError(err), eff@),
    {
        reveal(handles_content_result);
        self.set_status(StatusMsg::Error(ErrorKind::Dislike, err));
        Vec::new()
    
    }

    fn on_mix_ready(&mut self, tracks: Vec<TrackData>) -> (eff: Vec<Effect>)
        requires
            old(self).wf(),
        ensures
            final(self).wf(),
            handles_content_result(*old(self), *final(self), AsyncResult::MixReady(tracks), eff@),
    {
        reveal(handles_content_result);
        let n = tracks.len();
        self.play_received(tracks, StatusMsg::NoMixTracks, StatusMsg::MixTracks(n))
    
    }

    fn on_mix_error(&mut self, err: String) -> (eff: Vec<Effect>)
        requires
            old(self).wf(),
        ensures
            final(self).wf(),
            handles_content_result(*old(self), *final(self), AsyncResult::MixError(err), eff@),
    {
        reveal(handles_content_result);
        self.set_status(StatusMsg::Error(ErrorKind::Mix, err));
        Vec::new()
    
    }

    fn on_album_detail_ready(&mut self, detail: AlbumDetail) -> (eff: Vec<Effect>)
        requires
            old(self).wf(),
        ensures
            final(self).wf(),
            handles_content_result(*old(self), *final(self), AsyncResult::AlbumDetailReady(detail), eff@),
    {
        reveal(handles_content_result);
        self.album_detail_loading = false;
        self.status_msg = Some(StatusMsg::AlbumTracks(detail.title.clone(), detail.tracks.len()));
        self.album_detail = Some(detail);
        self.album_detail_selected = 0;
        Vec::new()
    
    }

    fn on_album_detail_error(&mut self, err: String) -> (eff: Vec<Effect>)
        requires
            old(self).wf(),
        ensures
            final(self).wf(),
            handles_content_result(*old(self), *final(self), AsyncResult::AlbumDetailError(err), eff@),
    {
        reveal(handles_content_result);
        self.album_detail_loading = false;
        self.status_msg = Some(StatusMsg::Error(ErrorKind::Album, err));
        Vec::new()
    
    }

    fn on_playlist_detail_ready(&mut self, detail: crate::models::PlaylistDetail) -> (eff: Vec<Effect>)
        requires
            old(self).wf(),
        ensures
            final(self).wf(),
            handles_content_result(*old(self), *final(self), AsyncResult::PlaylistDetailReady(detail), eff@),
    {
        reveal(handles_content_result);
        self.playlist_detail_loading = false;
        self.status_msg = Some(StatusMsg::PlaylistTracks(detail.title.clone(), detail.tracks.len()));
        self.playlist_detail = Some(detail);
        self.playlist_detail_selected = 0;
        Vec::new()
    
    }

    fn on_playlist_detail_error(&mut self, err: String) -> (eff: Vec<Effect>)
        requires
            old(self).wf(),
        ensures
            final(self).wf(),
            handles_content_result(*old(self), *final(self), AsyncResult::PlaylistDetailError(err), eff@),
    {
        reveal(handles_content_result);
        self.playlist_detail_loading = false;
        self.status_msg = Some(StatusMsg::Error(ErrorKind::Playlist, err));
        Vec::new()
    
    }

    fn content_result(&mut self, r: AsyncResult) -> (eff: Vec<Effect>)
        requires
            old(self).wf(),
            is_content_result(r),
        ensures
            final(self).wf(),
            handles_content_result(*old(self), *final(self), r, eff@),
    {
        match r {
            AsyncResult::PlaylistsReady(playlists) => self.on_playlists_ready(playlists),
            AsyncResult::PlaylistsError(err) => self.on_playlists_error(err),
            AsyncResult::AddedToPlaylist(id) => self.on_added_to_playlist(id),
            AsyncResult::AddToPlaylistError(err) => self.on_add_to_playlist_error(err),
            AsyncResult::DislikeOk => self.on_dislike_ok(),
            AsyncResult::DislikeError(err) => self.on_dislike_error(err),
            AsyncResult::MixReady(tracks) => self.on_mix_ready(tracks),
            AsyncResult::MixError(err) => self.on_mix_error(err),
            AsyncResult::AlbumDetailReady(detail) => self.on_album_detail_ready(detail),
            AsyncResult::AlbumDetailError(err) => self.on_album_detail_error(err),
            AsyncResult::PlaylistDetailReady(detail) => self.on_playlist_detail_ready(detail),
            AsyncResult::PlaylistDetailError(err) => self.on_playlist_detail_error(err),
            _ => Vec::new(),
        }
    }

    fn album_saved(&mut self, album: AlbumDetail, now: u64, random: u64) -> (eff: Vec<Effect>)
        requires
            old(self).wf(),
        ensures
            final(self).wf(),
            handles_media_result(*old(self), *final(self), AsyncResult::OfflineAlbumSaved { album }, now, random, eff@),
    {
        reveal(handles_media_result);
        self.offline_loading = false;
        let n = album.tracks.len();
        let mut i: usize = 0;
        while i < n
            invariant
                n == album.tracks@.len(),
                i <= n,
                self.offline_index.albums == old(self).offline_index.albums,
                self.offline_index.tracks@ == add_all(old(self).offline_index.tracks@, album.tracks@.take(i as int), old(self).quality),
                *self == (Daemon { offline_loading: false, offline_index: self.offline_index, ..*old(self) }),
            decreases n - i,
        {
            let t = album.tracks[i].clone();
            assert(album.tracks@.take(i + 1).drop_last() == album.tracks@.take(i as int));
            if !self.offline_index.has_track(t.track_id.as_str()) {
                self.offline_index.add_track(t, self.quality);
            }
            i += 1;
        }
        assert(album.tracks@.take(n as int) == album.tracks@);
        self.offline_index.add_album(album);
        self.status_msg = Some(StatusMsg::AlbumSavedOffline);
        let mut eff: Vec<Effect> = Vec::new();
        eff.push(Effect::SaveOfflineIndex);
        eff
    }

    fn fetch_failed(&mut self, err: String, generation: u64, now: u64, random: u64) -> (eff: Vec<Effect>)
        requires
            old(self).wf(),
        ensures
            final(self).wf(),
            handles_media_result(*old(self), *final(self), AsyncResult::TrackFetchError { err, generation }, now, random, eff@),
    {
        reveal(handles_media_result);
        if generation != self.track_generation {
            return Vec::new();
        }
        self.status_msg = Some(StatusMsg::Error(ErrorKind::Track, err));
        // Skip to the next track, but not forever.
        self.consecutive_skip_count = self.consecutive_skip_count + 1;
        if self.consecutive_skip_count <= MAX_CONSECUTIVE_SKIPS {
            return self.play_next(now, random);
        }
        self.consecutive_skip_count = 0;
        self.player.status = PlaybackStatus::Stopped;
        Vec::new()
    }

    fn on_radios_ready(&mut self, items: Vec<crate::protocol::RadioItem>, now: u64, random: u64) -> (eff: Vec<Effect>)
        requires
            old(self).wf(),
        ensures
            final(self).wf(),
            handles_media_result(*old(self), *final(self), AsyncResult::RadiosReady(items), now, random, eff@),
    {
        reveal(handles_media_result);
        self.radios_loading = false;
        self.status_msg = Some(StatusMsg::RadiosLoaded(items.len()));
        self.radios = items;
        self.radios_selected = 0;
        Vec::new()
    
    }

    fn on_radios_error(&mut self, err: String, now: u64, random: u64) -> (eff: Vec<Effect>)
        requires
            old(self).wf(),
        ensures
            final(self).wf(),
            handles_media_result(*old(self), *final(self), AsyncResult::RadiosError(err), now, random, eff@),
    {
        reveal(handles_media_result);
        self.radios_loading = false;
        self.status_msg = Some(StatusMsg::Error(ErrorKind::Radios, err));
        Vec::new()
    
    }

    fn on_radio_tracks_ready(&mut self, tracks: Vec<TrackData>, now: u64, random: u64) -> (eff: Vec<Effect>)
        requires
            old(self).wf(),
        ensures
            final(self).wf(),
            handles_media_result(*old(self), *final(self), AsyncResult::RadioTracksReady(tracks), now, random, eff@),
    {
        reveal(handles_media_result);
        let n = tracks.len();
        self.play_received(tracks, StatusMsg::NoRadioTracks, StatusMsg::RadioTracks(n))
    
    }

    fn on_radio_tracks_error(&mut self, err: String, now: u64, random: u64) -> (eff: Vec<Effect>)
        requires
            old(self).wf(),
        ensures
            final(self).wf(),
            handles_media_result(*old(self), *final(self), AsyncResult::RadioTracksError(err), now, random, eff@),
    {
        reveal(handles_media_result);
        self.set_status(StatusMsg::Error(ErrorKind::RadioTracks, err));
        Vec::new()
    
    }

    fn on_offline_track_saved(&mut self, track: TrackData, quality: AudioQuality, now: u64, random: u64) -> (eff: Vec<Effect>)
        requires
            old(self).wf(),
        ensures
            final(self).wf(),
            handles_media_result(*old(self), *final(self), AsyncResult::OfflineTrackSaved { track, quality }, now, random, eff@),
    {
        reveal(handles_media_result);
        self.offline_loading = false;
        self.offline_index.add_track(track, quality);
        self.status_msg = Some(StatusMsg::TrackSavedOffline);
        let mut eff: Vec<Effect> = Vec::new();
        eff.push(Effect::SaveOfflineIndex);
        eff
    
    }

    fn on_offline_track_save_error(&mut self, err: String, now: u64, random: u64) -> (eff: Vec<Effect>)
        requires
            old(self).wf(),
        ensures
            final(self).wf(),
            handles_media_result(*old(self), *final(self), AsyncResult::OfflineTrackSaveError(err), now, random, eff@),
    {
        reveal(handles_media_result);
        self.offline_loading = false;
        self.status_msg = Some(StatusMsg::Error(ErrorKind::OfflineDownload, err));
        Vec::new()
    
    }

    fn on_offline_album_save_error(&mut self, err: String, now: u64, random: u64) -> (eff: Vec<Effect>)
        requires
            old(self).wf(),
        ensures
            final(self).wf(),
            handles_media_result(*old(self), *final(self), AsyncResult::OfflineAlbumSaveError(err), now, random, eff@),
    {
        reveal(handles_media_result);
        self.offline_loading = false;
        self.status_msg = Some(StatusMsg::Error(ErrorKind::OfflineDownload, err));
        Vec::new()
    
    }

    fn on_track_ready(&mut self, track: TrackData, quality: AudioQuality, generation: u64, now: u64, random: u64) -> (eff: Vec<Effect>)
        requires
            old(self).wf(),
        ensures
            final(self).wf(),
            handles_media_result(*old(self), *final(self), AsyncResult::TrackReady { track, quality, generation }, now, random, eff@),
    {
        reveal(handles_media_result);
        let mut eff: Vec<Effect> = Vec::new();
        // Results of an older request are stale.
        if generation == self.track_generation && self.has_engine {
            eff.push(Effect::PlayDecoded { track, quality });
        }
        eff
    
    }

    fn media_result(&mut self, r: AsyncResult, now: u64, random: u64) -> (eff: Vec<Effect>)
        requires
            old(self).wf(),
            !is_account_result(r),
            !is_content_result(r),
        ensures
            final(self).wf(),
            handles_media_result(*old(self), *final(self), r, now, random, eff@),
    {
        match r {
            AsyncResult::RadiosReady(items) => self.on_radios_ready(items, now, random),
            AsyncResult::RadiosError(err) => self.on_radios_error(err, now, random),
            AsyncResult::RadioTracksReady(tracks) => self.on_radio_tracks_ready(tracks, now, random),
            AsyncResult::RadioTracksError(err) => self.on_radio_tracks_error(err, now, random),
            AsyncResult::OfflineTrackSaved { track, quality } => self.on_offline_track_saved(track, quality, now, random),
            AsyncResult::OfflineTrackSaveError(err) => self.on_offline_track_save_error(err, now, random),
            AsyncResult::OfflineAlbumSaveError(err) => self.on_offline_album_save_error(err, now, random),
            AsyncResult::OfflineAlbumSaved { album } => self.album_saved(album, now, random),
            AsyncResult::TrackReady { track, quality, generation } => self.on_track_ready(track, quality, generation, now, random),
            AsyncResult::TrackFetchError { err, generation } => self.fetch_failed(err, generation, now, random),

            _ => Vec::new(),
        }
    }

    /// The host started playing the decoded audio of the current fetch.
    pub fn playback_started(&mut self, track: TrackData, quality: AudioQuality, now: u64)
        requires
            old(self).wf(),
        ensures
            final(self).wf(),
            *final(self) == (Daemon {
                player: PlayerState {
                    status: PlaybackStatus::Playing,
                    current_track: Some(track),
                    duration_secs: crate::models::track_duration(track),
                    position_secs: 0,
                    quality,
                    ..old(self).player
                },
                consecutive_skip_count: 0,
                playback_started_at: Some(now),
                playback_offset_secs: 0,
                status_msg: None,
                ..*old(self)
            }),
    {
        self.player.start_playing(track, quality);
        self.consecutive_skip_count = 0;
        self.playback_started_at = Some(now);
        self.playback_offset_secs = 0;
        self.status_msg = None;
    }

    /// The host could not play the decoded audio.
    pub fn playback_failed(&mut self, err: String)
        requires
            old(self).wf(),
        ensures
            final(self).wf(),
            *final(self) == with_status(*old(self), StatusMsg::Error(ErrorKind::Playback, err)),
    {
        self.set_status(StatusMsg::Error(ErrorKind::Playback, err));
    }
}

} // verus!
