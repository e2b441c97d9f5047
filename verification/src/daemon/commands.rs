//! How each client command changes the daemon.

use vstd::prelude::*;
use crate::models::{TrackData, DisplayItem, AlbumDetail, clone_tracks};
use crate::offline::{OfflineIndex, OfflineTrack, has_track_id, has_album_id, first_album, without_ids};
use crate::player::{PlaybackStatus, PlayerState, next_repeat, cycle_repeat};
use crate::protocol::{Screen, ActiveTab, SearchCategory, FavoritesCategory, OfflineCategory, Command,
    next_tab, prev_tab, search_category_at, search_category_index, favorites_category_at,
    favorites_category_index, other_offline_category};
use crate::daemon::{Daemon, Effect, StatusMsg, elapsed, elapsed_secs, playable, position_of_id};
use crate::daemon::playback::{plays, plays_offline, advances, goes_back, with_queue};

verus! {

/// Starting a search for `query` in the current category.
#[verifier::opaque]
pub open spec fn search_started(pre: Daemon, post: Daemon, query: String, eff: Seq<Effect>) -> bool {
    if pre.is_offline {
        post == Daemon { status_msg: Some(StatusMsg::NoInternet), ..pre } && eff == Seq::<Effect>::empty()
    } else {
        &&& post == Daemon { search_loading: true, ..pre }
        &&& eff == if pre.search_category == SearchCategory::Track {
            seq![Effect::SearchTracks { query }]
        } else {
            seq![Effect::SearchCategory { query, category: pre.search_category }]
        }
    }
}

/// Starting to load the favorite tracks.
#[verifier::opaque]
pub open spec fn favorites_load_started(pre: Daemon, post: Daemon, eff: Seq<Effect>) -> bool {
    if pre.is_offline {
        post == Daemon { status_msg: Some(StatusMsg::NoInternet), ..pre } && eff == Seq::<Effect>::empty()
    } else {
        post == Daemon { favorites_loading: true, ..pre } && eff == seq![Effect::LoadFavorites]
    }
}

/// Starting to load the current favorites category.
#[verifier::opaque]
pub open spec fn category_load_started(pre: Daemon, post: Daemon, eff: Seq<Effect>) -> bool {
    if pre.is_offline {
        post == Daemon { status_msg: Some(StatusMsg::NoInternet), ..pre } && eff == Seq::<Effect>::empty()
    } else {
        &&& post == Daemon { favorites_loading: true, ..pre }
        &&& eff == seq![Effect::LoadFavoritesCategory { category: pre.favorites_category }]
    }
}

/// Starting to load the radio stations (nothing happens offline).
#[verifier::opaque]
pub open spec fn radios_load_started(pre: Daemon, post: Daemon, eff: Seq<Effect>) -> bool {
    if pre.is_offline {
        post == pre && eff == Seq::<Effect>::empty()
    } else {
        post == Daemon { radios_loading: true, ..pre } && eff == seq![Effect::LoadRadios]
    }
}

/// Playing row `index` of a list of display rows: the playable rows become
/// the queue, positioned on the chosen track, which starts.
pub open spec fn plays_from_rows(pre: Daemon, post: Daemon, rows: Seq<DisplayItem>, index: usize, eff: Seq<Effect>) -> bool {
    if index < rows.len() && rows[index as int].track is Some {
        let track = rows[index as int].track->0;
        let q = playable(rows);
        &&& post.player.queue@ == q
        &&& plays(with_queue(pre, post, position_of_id(q, track.track_id@)), post, track, eff)
    } else {
        post == pre && eff == Seq::<Effect>::empty()
    }
}

/// Playing track `index` of a list: the list becomes the queue.
pub open spec fn plays_from_list(pre: Daemon, post: Daemon, tracks: Seq<TrackData>, index: usize, eff: Seq<Effect>) -> bool {
    if index < tracks.len() {
        &&& post.player.queue@ == tracks
        &&& plays(with_queue(pre, post, index as int), post, tracks[index as int], eff)
    } else {
        post == pre && eff == Seq::<Effect>::empty()
    }
}

/// Playing offline track `index` of a list: the list becomes the queue.
pub open spec fn plays_offline_from_list(pre: Daemon, post: Daemon, tracks: Seq<TrackData>, index: usize, eff: Seq<Effect>) -> bool {
    if index < tracks.len() {
        &&& post.player.queue@ == tracks
        &&& plays_offline(with_queue(pre, post, index as int), post, tracks[index as int], eff)
    } else {
        post == pre && eff == Seq::<Effect>::empty()
    }
}

/// Pausing or resuming: the position clock stops (adding the elapsed time)
/// or restarts; with no engine, or neither playing nor paused, nothing.
pub open spec fn toggles_pause(pre: Daemon, post: Daemon, now: u64, eff: Seq<Effect>) -> bool {
    if pre.has_engine && pre.player.status == PlaybackStatus::Playing {
        &&& post == Daemon {
            player: PlayerState { status: PlaybackStatus::Paused, ..pre.player },
            playback_started_at: None,
            playback_offset_secs: match pre.playback_started_at {
                Some(s) => pre.playback_offset_secs.wrapping_add(elapsed_secs(s, now)),
                None => pre.playback_offset_secs,
            },
            ..pre
        }
        &&& eff == seq![Effect::EnginePause]
    } else if pre.has_engine && pre.player.status == PlaybackStatus::Paused {
        &&& post == Daemon {
            player: PlayerState { status: PlaybackStatus::Playing, ..pre.player },
            playback_started_at: Some(now),
            ..pre
        }
        &&& eff == seq![Effect::EngineResume]
    } else {
        post == pre && eff == Seq::<Effect>::empty()
    }
}

/// Tracks of the offline index, in order.
pub open spec fn offline_track_list(tracks: Seq<OfflineTrack>) -> Seq<TrackData> {
    tracks.map_values(|t: OfflineTrack| t.track)
}

/// Number of rows of the current offline category.
pub open spec fn offline_len(d: Daemon) -> int {
    match d.offline_category {
        OfflineCategory::Tracks => d.offline_index.tracks@.len() as int,
        OfflineCategory::Albums => d.offline_index.albums@.len() as int,
    }
}

/// Moving the selection of the active tab one row up.
pub open spec fn selects_up(pre: Daemon, post: Daemon) -> bool {
    match pre.active_tab {
        ActiveTab::Search => post == Daemon { search_selected: if pre.search_selected == 0 { 0 } else { (pre.search_selected - 1) as usize }, ..pre },
        ActiveTab::Favorites => post == Daemon { favorites_selected: if pre.favorites_selected == 0 { 0 } else { (pre.favorites_selected - 1) as usize }, ..pre },
        ActiveTab::Radio => post == Daemon { radios_selected: if pre.radios_selected == 0 { 0 } else { (pre.radios_selected - 1) as usize }, ..pre },
        ActiveTab::Downloads => post == Daemon { offline_selected: if pre.offline_selected == 0 { 0 } else { (pre.offline_selected - 1) as usize }, ..pre },
    }
}

/// One row down, but not past the last row of a non-empty list.
pub open spec fn step_down(sel: usize, len: int) -> usize {
    if len == 0 { sel } else if sel + 1 <= len - 1 { (sel + 1) as usize } else { (len - 1) as usize }
}

/// Moving the selection of the active tab one row down.
pub open spec fn selects_down(pre: Daemon, post: Daemon) -> bool {
    match pre.active_tab {
        ActiveTab::Search => post == Daemon { search_selected: step_down(pre.search_selected, pre.search_display@.len() as int), ..pre },
        ActiveTab::Favorites => post == Daemon { favorites_selected: step_down(pre.favorites_selected, pre.favorites_display@.len() as int), ..pre },
        ActiveTab::Radio => post == Daemon { radios_selected: step_down(pre.radios_selected, pre.radios@.len() as int), ..pre },
        ActiveTab::Downloads => post == Daemon { offline_selected: step_down(pre.offline_selected, offline_len(pre)), ..pre },
    }
}

/// Switching the active tab's category to `search`/`favorites`/`offline`,
/// back to the first row, reloading what the category shows.
pub open spec fn switches_category(
    pre: Daemon,
    post: Daemon,
    search: SearchCategory,
    favorites: FavoritesCategory,
    offline: OfflineCategory,
    eff: Seq<Effect>,
) -> bool {
    match pre.active_tab {
        ActiveTab::Search => {
            let mid = Daemon { search_category: search, search_selected: 0, ..pre };
            if pre.last_search_query@.len() > 0 {
                search_started(mid, post, pre.last_search_query, eff)
            } else {
                post == mid && eff == Seq::<Effect>::empty()
            }
        }
        ActiveTab::Favorites => {
            category_load_started(Daemon { favorites_category: favorites, favorites_selected: 0, ..pre }, post, eff)
        }
        ActiveTab::Downloads => {
            post == Daemon { offline_category: offline, offline_selected: 0, ..pre } && eff == Seq::<Effect>::empty()
        }
        ActiveTab::Radio => post == pre && eff == Seq::<Effect>::empty(),
    }
}

/// Logging out: the token is forgotten, playback stops, lists empty, back
/// to the login screen.
pub open spec fn logs_out(pre: Daemon, post: Daemon, eff: Seq<Effect>) -> bool {
    &&& post == Daemon {
        arl: None,
        screen: Screen::Login,
        user_name: None,
        master_key: None,
        has_engine: false,
        player: PlayerState {
            status: PlaybackStatus::Stopped,
            current_track: None,
            queue: post.player.queue,
            queue_index: 0,
            ..pre.player
        },
        search_results: post.search_results,
        search_display: post.search_display,
        favorites: post.favorites,
        favorites_display: post.favorites_display,
        radios: post.radios,
        playlists: post.playlists,
        status_msg: None,
        login_error: None,
        login_loading: false,
        ..pre
    }
    &&& post.player.queue@.len() == 0
    &&& post.search_results@.len() == 0
    &&& post.search_display@.len() == 0
    &&& post.favorites@.len() == 0
    &&& post.favorites_display@.len() == 0
    &&& post.radios@.len() == 0
    &&& post.playlists@.len() == 0
    &&& eff == seq![Effect::SaveConfig, Effect::DropEngine]
}

/// Starting to download a track for offline use.
pub open spec fn download_started(pre: Daemon, post: Daemon, track: TrackData, eff: Seq<Effect>) -> bool {
    if pre.is_offline {
        post == Daemon { status_msg: Some(StatusMsg::NoInternet), ..pre } && eff == Seq::<Effect>::empty()
    } else if has_track_id(pre.offline_index.tracks@, track.track_id@) {
        post == Daemon { status_msg: Some(StatusMsg::TrackSavedOffline), ..pre } && eff == Seq::<Effect>::empty()
    } else if pre.master_key is None {
        post == Daemon { status_msg: Some(StatusMsg::PlayerNotReady), ..pre } && eff == Seq::<Effect>::empty()
    } else {
        &&& post == Daemon { offline_loading: true, status_msg: Some(StatusMsg::DownloadingTrack), ..pre }
        &&& eff == seq![Effect::DownloadTrack { track, quality: pre.quality, master_key: pre.master_key->0 }]
    }
}

/// Starting to download an album for offline use.
pub open spec fn album_download_started(pre: Daemon, post: Daemon, album_id: String, eff: Seq<Effect>) -> bool {
    if pre.is_offline {
        post == Daemon { status_msg: Some(StatusMsg::NoInternet), ..pre } && eff == Seq::<Effect>::empty()
    } else if has_album_id(pre.offline_index.albums@, album_id@) {
        post == Daemon { status_msg: Some(StatusMsg::AlbumSavedOffline), ..pre } && eff == Seq::<Effect>::empty()
    } else if pre.master_key is None {
        post == Daemon { status_msg: Some(StatusMsg::PlayerNotReady), ..pre } && eff == Seq::<Effect>::empty()
    } else {
        &&& post == Daemon { offline_loading: true, status_msg: Some(StatusMsg::DownloadingTrack), ..pre }
        &&& eff == seq![Effect::DownloadAlbum { album_id, quality: pre.quality, master_key: pre.master_key->0 }]
    }
}

/// Deleting the audio files of tracks, then saving the index.
pub open spec fn deletes_files(tracks: Seq<TrackData>, eff: Seq<Effect>) -> bool {
    &&& eff.len() == tracks.len() + 1
    &&& forall|i: int| 0 <= i < tracks.len() ==> eff[i] == (Effect::DeleteTrackFile { track_id: (#[trigger] tracks[i]).track_id })
    &&& eff.last() == Effect::SaveOfflineIndex
}

/// Commands that pause, skip or edit the queue.
#[verifier::opaque]
pub open spec fn handles_queue(pre: Daemon, post: Daemon, cmd: Command, now: u64, random: u64, eff: Seq<Effect>) -> bool {
    match cmd {
        Command::TogglePause => toggles_pause(pre, post, now, eff),
        Command::NextTrack => advances(pre, post, now, random, eff),
        Command::PrevTrack => goes_back(pre, post, now, eff),
        Command::ToggleShuffle => {
            post == Daemon { player: PlayerState { shuffle: !pre.player.shuffle, ..pre.player }, ..pre }
                && eff == Seq::<Effect>::empty()
        }
        Command::CycleRepeat => {
            post == Daemon { player: PlayerState { repeat: next_repeat(pre.player.repeat), ..pre.player }, ..pre }
                && eff == Seq::<Effect>::empty()
        }
        Command::PlayNext { track } => {
            let q = pre.player.queue@;
            let at = pre.player.queue_index + 1;
            &&& post.player.queue@ == (if at <= q.len() { q.insert(at, track) } else { q.push(track) })
            &&& post == Daemon { player: PlayerState { queue: post.player.queue, ..pre.player }, status_msg: Some(StatusMsg::PlayNext), ..pre }
            &&& eff == Seq::<Effect>::empty()
        }
        Command::AddToQueue { track } => {
            &&& post.player.queue@ == pre.player.queue@.push(track)
            &&& post == Daemon { player: PlayerState { queue: post.player.queue, ..pre.player }, status_msg: Some(StatusMsg::AddedToQueue), ..pre }
            &&& eff == Seq::<Effect>::empty()
        }
        Command::RemoveFromQueue { index } => {
            let q = pre.player.queue@;
            let qi = pre.player.queue_index;
            if index < q.len() && index != qi {
                &&& post.player.queue@ == q.remove(index as int)
                &&& post == Daemon {
                    player: PlayerState {
                        queue: post.player.queue,
                        queue_index: if index < qi { (qi - 1) as usize } else { qi },
                        ..pre.player
                    },
                    ..pre
                }
                &&& eff == Seq::<Effect>::empty()
            } else {
                post == pre && eff == Seq::<Effect>::empty()
            }
        }
        _ => false,
    }
}

/// Commands that start playing a list.
#[verifier::opaque]
pub open spec fn handles_start(pre: Daemon, post: Daemon, cmd: Command, now: u64, random: u64, eff: Seq<Effect>) -> bool {
    match cmd {
        Command::PlayFromSearch { index } => plays_from_rows(pre, post, pre.search_display@, index, eff),
        Command::PlayFromFavorites { index } => plays_from_rows(pre, post, pre.favorites_display@, index, eff),
        Command::ShuffleFavorites => {
            if pre.favorites@.len() > 0 {
                let i = (random as int) % (pre.favorites@.len() as int);
                &&& post.player.queue@ == pre.favorites@
                &&& plays(
                    Daemon { player: PlayerState { queue: post.player.queue, shuffle: true, queue_index: i as usize, ..pre.player }, ..pre },
                    post,
                    pre.favorites@[i],
                    eff,
                )
            } else {
                post == pre && eff == Seq::<Effect>::empty()
            }
        }
        Command::PlayFromAlbum { index } => match pre.album_detail {
            Some(d) => plays_from_list(pre, post, d.tracks@, index, eff),
            None => post == pre && eff == Seq::<Effect>::empty(),
        },
        Command::PlayFromPlaylist { index } => match pre.playlist_detail {
            Some(d) => plays_from_list(pre, post, d.tracks@, index, eff),
            None => post == pre && eff == Seq::<Effect>::empty(),
        },
        Command::PlayFromOffline { index } => {
            plays_offline_from_list(pre, post, offline_track_list(pre.offline_index.tracks@), index, eff)
        }
        Command::PlayOfflineAlbum { album_id, track_index } => {
            let albums = pre.offline_index.albums@;
            if has_album_id(albums, album_id@) {
                plays_offline_from_list(pre, post, albums[first_album(albums, album_id@)].tracks@, track_index, eff)
            } else {
                post == pre && eff == Seq::<Effect>::empty()
            }
        }
        _ => false,
    }
}

/// Commands that move through tabs, categories and rows.
#[verifier::opaque]
pub open spec fn handles_navigation(pre: Daemon, post: Daemon, cmd: Command, now: u64, random: u64, eff: Seq<Effect>) -> bool {
    match cmd {
        Command::SelectUp => selects_up(pre, post) && eff == Seq::<Effect>::empty(),
        Command::SelectDown => selects_down(pre, post) && eff == Seq::<Effect>::empty(),
        Command::NextTab => post == Daemon { active_tab: next_tab(pre.active_tab), ..pre } && eff == Seq::<Effect>::empty(),
        Command::PrevTab => post == Daemon { active_tab: prev_tab(pre.active_tab), ..pre } && eff == Seq::<Effect>::empty(),
        Command::NextCategory => switches_category(
            pre,
            post,
            search_category_at((search_category_index(pre.search_category) + 1) % 7),
            favorites_category_at((favorites_category_index(pre.favorites_category) + 1) % 6),
            other_offline_category(pre.offline_category),
            eff,
        ),
        Command::PrevCategory => switches_category(
            pre,
            post,
            search_category_at((search_category_index(pre.search_category) + 6) % 7),
            favorites_category_at((favorites_category_index(pre.favorites_category) + 5) % 6),
            other_offline_category(pre.offline_category),
            eff,
        ),
        _ => false,
    }
}

/// Commands that ask the Deezer service for something.
#[verifier::opaque]
pub open spec fn handles_remote(pre: Daemon, post: Daemon, cmd: Command, now: u64, random: u64, eff: Seq<Effect>) -> bool {
    match cmd {
        Command::Login { arl } => {
            &&& post == Daemon { arl: Some(arl), login_loading: true, login_error: None, ..pre }
            &&& eff == seq![Effect::SaveConfig, Effect::Login { arl }]
        }
        Command::Search { query } => search_started(Daemon { last_search_query: query, ..pre }, post, query, eff),
        Command::LoadFavorites => favorites_load_started(pre, post, eff),
        Command::AddFavorite { track_id } => post == pre && eff == seq![Effect::AddFavorite { track_id }],
        Command::RemoveFavorite { track_id } => post == pre && eff == seq![Effect::RemoveFavorite { track_id }],
        Command::RequestPlaylists => post == pre && eff == (if pre.is_offline { Seq::<Effect>::empty() } else { seq![Effect::LoadPlaylists] }),
        Command::AddToPlaylist { playlist_id, track_id } => post == pre && eff == seq![Effect::AddToPlaylist { playlist_id, track_id }],
        Command::DislikeTrack { track_id } => post == pre && eff == seq![Effect::DislikeTrack { track_id }],
        Command::StartMix { track_id } => {
            post == Daemon { status_msg: Some(StatusMsg::LoadingMix), ..pre } && eff == seq![Effect::LoadMix { track_id }]
        }
        Command::GetAlbumDetail { album_id } => {
            if pre.is_offline {
                post == Daemon { status_msg: Some(StatusMsg::NoInternet), ..pre } && eff == Seq::<Effect>::empty()
            } else {
                &&& post == Daemon {
                    album_detail_loading: true,
                    album_detail: None,
                    album_detail_selected: 0,
                    status_msg: Some(StatusMsg::LoadingAlbum),
                    ..pre
                }
                &&& eff == seq![Effect::LoadAlbumDetail { album_id }]
            }
        }
        Command::GetPlaylistDetail { playlist_id } => {
            if pre.is_offline {
                post == Daemon { status_msg: Some(StatusMsg::NoInternet), ..pre } && eff == Seq::<Effect>::empty()
            } else {
                &&& post == Daemon {
                    playlist_detail_loading: true,
                    playlist_detail: None,
                    playlist_detail_selected: 0,
                    status_msg: Some(StatusMsg::LoadingPlaylist),
                    ..pre
                }
                &&& eff == seq![Effect::LoadPlaylistDetail { playlist_id }]
            }
        }
        Command::Logout => logs_out(pre, post, eff),
        Command::LoadRadios => radios_load_started(pre, post, eff),
        Command::PlayFromRadio { index } => {
            if index < pre.radios@.len() {
                if pre.is_offline {
                    post == Daemon { status_msg: Some(StatusMsg::NoInternet), ..pre } && eff == Seq::<Effect>::empty()
                } else {
                    &&& post == Daemon { status_msg: Some(StatusMsg::LoadingRadioTracks), ..pre }
                    &&& eff == seq![Effect::LoadRadioTracks { radio_id: pre.radios@[index as int].id }]
                }
            } else {
                post == pre && eff == Seq::<Effect>::empty()
            }
        }
        _ => false,
    }
}

/// Commands on the offline index.
#[verifier::opaque]
pub open spec fn handles_offline(pre: Daemon, post: Daemon, cmd: Command, now: u64, random: u64, eff: Seq<Effect>) -> bool {
    match cmd {
        Command::DownloadOffline { track } => download_started(pre, post, track, eff),
        Command::DownloadAlbumOffline { album_id } => album_download_started(pre, post, album_id, eff),
        Command::RemoveOfflineTrack { track_id } => {
            &&& post.offline_index.tracks@ == pre.offline_index.tracks@.filter(|t: OfflineTrack| t.track.track_id@ != track_id@)
            &&& post == Daemon {
                offline_index: OfflineIndex { tracks: post.offline_index.tracks, ..pre.offline_index },
                status_msg: Some(StatusMsg::RemovedOffline),
                ..pre
            }
            &&& eff == seq![Effect::DeleteTrackFile { track_id }, Effect::SaveOfflineIndex]
        }
        Command::RemoveOfflineAlbum { album_id } => {
            let albums = pre.offline_index.albums@;
            &&& post.offline_index.albums@ == albums.filter(|a: AlbumDetail| a.album_id@ != album_id@)
            &&& post == Daemon { offline_index: post.offline_index, status_msg: Some(StatusMsg::RemovedOffline), ..pre }
            &&& if has_album_id(albums, album_id@) {
                let gone = albums[first_album(albums, album_id@)].tracks@;
                &&& post.offline_index.tracks@ == without_ids(pre.offline_index.tracks@, gone)
                &&& deletes_files(gone, eff)
            } else {
                &&& post.offline_index.tracks@ == pre.offline_index.tracks@
                &&& eff == seq![Effect::SaveOfflineIndex]
            }
        }
        _ => false,
    }
}

/// The command is one of the navigation commands.
pub open spec fn handles_navigation_kind(cmd: Command) -> bool {
    cmd is SelectUp || cmd is SelectDown || cmd is NextTab || cmd is PrevTab || cmd is NextCategory
        || cmd is PrevCategory
}

/// The command is one on the offline index.
pub open spec fn handles_offline_kind(cmd: Command) -> bool {
    cmd is DownloadOffline || cmd is DownloadAlbumOffline || cmd is RemoveOfflineTrack || cmd is RemoveOfflineAlbum
}

/// The command asks the Deezer service for something.
pub open spec fn handles_remote_kind(cmd: Command) -> bool {
    cmd is Login || cmd is Search || cmd is LoadFavorites || cmd is AddFavorite || cmd is RemoveFavorite
        || cmd is RequestPlaylists || cmd is AddToPlaylist || cmd is DislikeTrack || cmd is StartMix
        || cmd is GetAlbumDetail || cmd is GetPlaylistDetail || cmd is Logout || cmd is LoadRadios
        || cmd is PlayFromRadio
}

/// The command pauses, skips or edits the queue.
pub open spec fn handles_queue_kind(cmd: Command) -> bool {
    cmd is TogglePause || cmd is NextTrack || cmd is PrevTrack || cmd is ToggleShuffle || cmd is CycleRepeat
        || cmd is PlayNext || cmd is AddToQueue || cmd is RemoveFromQueue
}

/// The command starts playing a list.
pub open spec fn handles_start_kind(cmd: Command) -> bool {
    cmd is PlayFromSearch || cmd is PlayFromFavorites || cmd is ShuffleFavorites || cmd is PlayFromAlbum
        || cmd is PlayFromPlaylist || cmd is PlayFromOffline || cmd is PlayOfflineAlbum
}

/// How each command changes the daemon and what outside work it asks for.
pub open spec fn handles_command(pre: Daemon, post: Daemon, cmd: Command, now: u64, random: u64, eff: Seq<Effect>) -> bool {
    match cmd {
        Command::GetSnapshot | Command::Shutdown => post == pre && eff == Seq::<Effect>::empty(),
        Command::GetArtistDetail { .. } | Command::AddFavoriteArtist { .. } | Command::RemoveFavoriteArtist { .. }
            | Command::AddFavoriteAlbum { .. } | Command::RemoveFavoriteAlbum { .. }
            | Command::RemoveFromPlaylist { .. } | Command::RenamePlaylist { .. } | Command::DeletePlaylist { .. }
            | Command::CreatePlaylistAndAdd { .. } | Command::StartFlow | Command::PlayFromQueue { .. }
            | Command::PlayFromArtist { .. } | Command::SeekForward { .. } | Command::SeekBackward { .. }
            => post == pre && eff == Seq::<Effect>::empty(),
        Command::SelectUp | Command::SelectDown | Command::NextTab | Command::PrevTab | Command::NextCategory
            | Command::PrevCategory => handles_navigation(pre, post, cmd, now, random, eff),
        Command::DownloadOffline { .. } | Command::DownloadAlbumOffline { .. } | Command::RemoveOfflineTrack { .. }
            | Command::RemoveOfflineAlbum { .. } => handles_offline(pre, post, cmd, now, random, eff),
        Command::Login { .. } | Command::Search { .. } | Command::LoadFavorites | Command::AddFavorite { .. }
            | Command::RemoveFavorite { .. } | Command::RequestPlaylists | Command::AddToPlaylist { .. }
            | Command::DislikeTrack { .. } | Command::StartMix { .. } | Command::GetAlbumDetail { .. }
            | Command::GetPlaylistDetail { .. } | Command::Logout | Command::LoadRadios
            | Command::PlayFromRadio { .. } => handles_remote(pre, post, cmd, now, random, eff),
        Command::TogglePause | Command::NextTrack | Command::PrevTrack | Command::ToggleShuffle
            | Command::CycleRepeat | Command::PlayNext { .. } | Command::AddToQueue { .. }
            | Command::RemoveFromQueue { .. } => handles_queue(pre, post, cmd, now, random, eff),
        _ => handles_start(pre, post, cmd, now, random, eff),
    }
}

/// The playable tracks of display rows, in order.
pub fn queue_from_rows(rows: &Vec<DisplayItem>) -> (q: Vec<TrackData>)
    ensures
        q@ == playable(rows@),
{
    let mut q: Vec<TrackData> = Vec::new();
    for i in 0..rows.len()
        invariant
            q@ == playable(rows@.take(i as int)),
    {
        assert(rows@.take(i + 1).drop_last() == rows@.take(i as int));
        match &rows[i].track {
            Some(t) => q.push(t.clone()),
            None => {}
        }
    }
    assert(rows@.take(rows@.len() as int) == rows@);
    q
}

/// Index of the first track with this id, or 0 when there is none.
pub fn position_of(tracks: &Vec<TrackData>, id: &str) -> (i: usize)
    ensures
        i as int == position_of_id(tracks@, id@),
        tracks@.len() > 0 ==> i < tracks@.len(),
{
    let mut i: usize = 0;
    while i < tracks.len()
        invariant
            i <= tracks@.len(),
            forall|k: int| 0 <= k < i ==> (#[trigger] tracks@[k]).track_id@ != id@,
        decreases tracks.len() - i,
    {
        if crate::offline::str_eq(tracks[i].track_id.as_str(), id) {
            proof { lemma_position_of_id(tracks@, id@, i as int); }
            return i;
        }
        i += 1;
    }
    proof { lemma_position_of_id_absent(tracks@, id@); }
    0
}

proof fn lemma_position_of_id(tracks: Seq<TrackData>, id: Seq<char>, i: int)
    requires
        0 <= i < tracks.len(),
        tracks[i].track_id@ == id,
        forall|k: int| 0 <= k < i ==> (#[trigger] tracks[k]).track_id@ != id,
    ensures
        position_of_id(tracks, id) == i,
    decreases i,
{
    if i > 0 {
        let t = tracks.drop_first();
        assert(t[i - 1] == tracks[i]);
        assert forall|k: int| 0 <= k < i - 1 implies (#[trigger] t[k]).track_id@ != id by {
            assert(t[k] == tracks[k + 1]);
        }
        lemma_position_of_id(t, id, i - 1);
        assert(exists|j: int| 0 < j < tracks.len() && (#[trigger] tracks[j]).track_id@ == id);
    }
}

proof fn lemma_position_of_id_absent(tracks: Seq<TrackData>, id: Seq<char>)
    requires
        forall|k: int| 0 <= k < tracks.len() ==> (#[trigger] tracks[k]).track_id@ != id,
    ensures
        position_of_id(tracks, id) == 0,
{
    if tracks.len() > 0 {
        assert(tracks[0].track_id@ != id);
    }
}

impl Daemon {
    pub(crate) fn start_search(&mut self, query: String) -> (eff: Vec<Effect>)
        requires
            old(self).wf(),
        ensures
            final(self).wf(),
            search_started(*old(self), *final(self), query, eff@),
    {
        reveal(search_started);
        let mut eff: Vec<Effect> = Vec::new();
        if self.is_offline {
            self.status_msg = Some(StatusMsg::NoInternet);
            return eff;
        }
        self.search_loading = true;
        if self.search_category == SearchCategory::Track {
            eff.push(Effect::SearchTracks { query });
        } else {
            eff.push(Effect::SearchCategory { query, category: self.search_category });
        }
        eff
    }

    pub(crate) fn start_load_favorites(&mut self) -> (eff: Vec<Effect>)
        requires
            old(self).wf(),
        ensures
            final(self).wf(),
            favorites_load_started(*old(self), *final(self), eff@),
    {
        reveal(favorites_load_started);
        let mut eff: Vec<Effect> = Vec::new();
        if self.is_offline {
            self.status_msg = Some(StatusMsg::NoInternet);
            return eff;
        }
        self.favorites_loading = true;
        eff.push(Effect::LoadFavorites);
        eff
    }

    pub(crate) fn start_load_favorites_category(&mut self) -> (eff: Vec<Effect>)
        requires
            old(self).wf(),
        ensures
            final(self).wf(),
            category_load_started(*old(self), *final(self), eff@),
    {
        reveal(category_load_started);
        let mut eff: Vec<Effect> = Vec::new();
        if self.is_offline {
            self.status_msg = Some(StatusMsg::NoInternet);
            return eff;
        }
        self.favorites_loading = true;
        eff.push(Effect::LoadFavoritesCategory { category: self.favorites_category });
        eff
    }

    pub(crate) fn start_load_radios(&mut self) -> (eff: Vec<Effect>)
        requires
            old(self).wf(),
        ensures
            final(self).wf(),
            radios_load_started(*old(self), *final(self), eff@),
    {
        reveal(radios_load_started);
        let mut eff: Vec<Effect> = Vec::new();
        if self.is_offline {
            return eff;
        }
        self.radios_loading = true;
        eff.push(Effect::LoadRadios);
        eff
    }

    pub(crate) fn play_from_search(&mut self, index: usize) -> (eff: Vec<Effect>)
        requires
            old(self).wf(),
        ensures
            final(self).wf(),
            plays_from_rows(*old(self), *final(self), old(self).search_display@, index, eff@),
    {
        if index < self.search_display.len() {
            if let Some(track) = &self.search_display[index].track {
                let track = track.clone();
                let playable = queue_from_rows(&self.search_display);
                proof { lemma_playable_contains(self.search_display@, index as int); }
                let qi = position_of(&playable, track.track_id.as_str());
                return self.play_new_queue(playable, qi, track);
            }
        }
        Vec::new()
    }

    pub(crate) fn play_from_favorites(&mut self, index: usize) -> (eff: Vec<Effect>)
        requires
            old(self).wf(),
        ensures
            final(self).wf(),
            plays_from_rows(*old(self), *final(self), old(self).favorites_display@, index, eff@),
    {
        if index < self.favorites_display.len() {
            if let Some(track) = &self.favorites_display[index].track {
                let track = track.clone();
                let playable = queue_from_rows(&self.favorites_display);
                proof { lemma_playable_contains(self.favorites_display@, index as int); }
                let qi = position_of(&playable, track.track_id.as_str());
                return self.play_new_queue(playable, qi, track);
            }
        }
        Vec::new()
    }
}

/// A row with a track makes the playable list non-empty.
proof fn lemma_playable_contains(rows: Seq<DisplayItem>, i: int)
    requires
        0 <= i < rows.len(),
        rows[i].track is Some,
    ensures
        playable(rows).len() > 0,
    decreases rows.len(),
{
    if i < rows.len() - 1 {
        lemma_playable_contains(rows.drop_last(), i);
    }
}


impl Daemon {
    fn pause_clock(&mut self, now: u64)
        requires
            old(self).wf(),
        ensures
            final(self).wf(),
            *final(self) == (Daemon {
                player: PlayerState { status: PlaybackStatus::Paused, ..old(self).player },
                playback_started_at: None,
                playback_offset_secs: match old(self).playback_started_at {
                    Some(s) => old(self).playback_offset_secs.wrapping_add(elapsed_secs(s, now)),
                    None => old(self).playback_offset_secs,
                },
                ..*old(self)
            }),
    {
        self.player.status = PlaybackStatus::Paused;
        if let Some(started) = self.playback_started_at {
            self.playback_offset_secs = self.playback_offset_secs.wrapping_add(elapsed(started, now));
        }
        self.playback_started_at = None;
    }

    fn restart_clock(&mut self, now: u64)
        requires
            old(self).wf(),
        ensures
            final(self).wf(),
            *final(self) == (Daemon {
                player: PlayerState { status: PlaybackStatus::Playing, ..old(self).player },
                playback_started_at: Some(now),
                ..*old(self)
            }),
    {
        self.player.status = PlaybackStatus::Playing;
        self.playback_started_at = Some(now);
    }

    pub(crate) fn toggle_pause(&mut self, now: u64) -> (eff: Vec<Effect>)
        requires
            old(self).wf(),
        ensures
            final(self).wf(),
            toggles_pause(*old(self), *final(self), now, eff@),
    {
        let mut eff: Vec<Effect> = Vec::new();
        if self.has_engine && self.player.status == PlaybackStatus::Playing {
            self.pause_clock(now);
            eff.push(Effect::EnginePause);
        } else if self.has_engine && self.player.status == PlaybackStatus::Paused {
            self.restart_clock(now);
            eff.push(Effect::EngineResume);
        }
        eff
    }

    pub(crate) fn select_up(&mut self)
        requires
            old(self).wf(),
        ensures
            final(self).wf(),
            selects_up(*old(self), *final(self)),
    {
        match self.active_tab {
            ActiveTab::Search => { self.search_selected = self.search_selected.saturating_sub(1); }
            ActiveTab::Favorites => { self.favorites_selected = self.favorites_selected.saturating_sub(1); }
            ActiveTab::Radio => { self.radios_selected = self.radios_selected.saturating_sub(1); }
            ActiveTab::Downloads => { self.offline_selected = self.offline_selected.saturating_sub(1); }
        }
    }

    pub(crate) fn select_down(&mut self)
        requires
            old(self).wf(),
        ensures
            final(self).wf(),
            selects_down(*old(self), *final(self)),
    {
        match self.active_tab {
            ActiveTab::Search => {
                let len = self.search_display.len();
                if len > 0 {
                    let n = self.search_selected + 1;
                    self.search_selected = if n < len - 1 { n } else { len - 1 };
                }
            }
            ActiveTab::Favorites => {
                let len = self.favorites_display.len();
                if len > 0 {
                    let n = self.favorites_selected + 1;
                    self.favorites_selected = if n < len - 1 { n } else { len - 1 };
                }
            }
            ActiveTab::Radio => {
                let len = self.radios.len();
                if len > 0 {
                    let n = self.radios_selected + 1;
                    self.radios_selected = if n < len - 1 { n } else { len - 1 };
                }
            }
            ActiveTab::Downloads => {
                let len = match self.offline_category {
                    OfflineCategory::Tracks => self.offline_index.tracks.len(),
                    OfflineCategory::Albums => self.offline_index.albums.len(),
                };
                if len > 0 {
                    let n = self.offline_selected + 1;
                    self.offline_selected = if n < len - 1 { n } else { len - 1 };
                }
            }
        }
    }

    fn switch_search_category(&mut self, search: SearchCategory) -> (eff: Vec<Effect>)
        requires
            old(self).wf(),
        ensures
            final(self).wf(),
            ({
                let mid = Daemon { search_category: search, search_selected: 0, ..*old(self) };
                if old(self).last_search_query@.len() > 0 {
                    search_started(mid, *final(self), old(self).last_search_query, eff@)
                } else {
                    *final(self) == mid && eff@ == Seq::<Effect>::empty()
                }
            }),
    {
        self.search_category = search;
        self.search_selected = 0;
        if self.last_search_query.as_str().unicode_len() > 0 {
            let q = self.last_search_query.clone();
            return self.start_search(q);
        }
        Vec::new()
    }

    fn switch_favorites_category(&mut self, favorites: FavoritesCategory) -> (eff: Vec<Effect>)
        requires
            old(self).wf(),
        ensures
            final(self).wf(),
            category_load_started(
                Daemon { favorites_category: favorites, favorites_selected: 0, ..*old(self) },
                *final(self),
                eff@,
            ),
    {
        self.favorites_category = favorites;
        self.favorites_selected = 0;
        self.start_load_favorites_category()
    }

    pub(crate) fn switch_category(
        &mut self,
        search: SearchCategory,
        favorites: FavoritesCategory,
        offline: OfflineCategory,
    ) -> (eff: Vec<Effect>)
        requires
            old(self).wf(),
        ensures
            final(self).wf(),
            switches_category(*old(self), *final(self), search, favorites, offline, eff@),
    {
        match self.active_tab {
            ActiveTab::Search => self.switch_search_category(search),
            ActiveTab::Favorites => self.switch_favorites_category(favorites),
            ActiveTab::Downloads => {
                self.offline_category = offline;
                self.offline_selected = 0;
                Vec::new()
            }
            ActiveTab::Radio => Vec::new(),
        }
    }

    pub(crate) fn shuffle_favorites(&mut self, random: u64) -> (eff: Vec<Effect>)
        requires
            old(self).wf(),
        ensures
            final(self).wf(),
            old(self).favorites@.len() > 0 ==> ({
                let i = (random as int) % (old(self).favorites@.len() as int);
                &&& final(self).player.queue@ == old(self).favorites@
                &&& plays(
                    Daemon { player: PlayerState { queue: final(self).player.queue, shuffle: true, queue_index: i as usize, ..old(self).player }, ..*old(self) },
                    *final(self),
                    old(self).favorites@[i],
                    eff@,
                )
            }),
            old(self).favorites@.len() == 0 ==> *final(self) == *old(self) && eff@ == Seq::<Effect>::empty(),
    {
        let len = self.favorites.len();
        if len == 0 {
            return Vec::new();
        }
        let i = (random % (len as u64)) as usize;
        let track = self.favorites[i].clone();
        self.player.queue = clone_tracks(&self.favorites);
        self.player.shuffle = true;
        self.player.queue_index = i;
        let ghost mid = *self;
        let eff = self.start_play_track(track);
        proof {
            reveal(plays);
        }
        eff
    }

    pub(crate) fn play_next_in_queue(&mut self, track: TrackData)
        requires
            old(self).wf(),
        ensures
            final(self).wf(),
            ({
                let q = old(self).player.queue@;
                let at = old(self).player.queue_index + 1;
                &&& final(self).player.queue@ == (if at <= q.len() { q.insert(at, track) } else { q.push(track) })
                &&& *final(self) == Daemon {
                    player: PlayerState { queue: final(self).player.queue, ..old(self).player },
                    status_msg: Some(StatusMsg::PlayNext),
                    ..*old(self)
                }
            }),
    {
        self.player.insert_after_current(track);
        self.status_msg = Some(StatusMsg::PlayNext);
    }

    pub(crate) fn remove_from_queue(&mut self, index: usize)
        requires
            old(self).wf(),
        ensures
            final(self).wf(),
            ({
                let q = old(self).player.queue@;
                let qi = old(self).player.queue_index;
                if index < q.len() && index != qi {
                    &&& final(self).player.queue@ == q.remove(index as int)
                    &&& *final(self) == Daemon {
                        player: PlayerState {
                            queue: final(self).player.queue,
                            queue_index: if index < qi { (qi - 1) as usize } else { qi },
                            ..old(self).player
                        },
                        ..*old(self)
                    }
                } else {
                    *final(self) == *old(self)
                }
            }),
    {
        self.player.remove_queued(index);
    }

    pub(crate) fn logout(&mut self) -> (eff: Vec<Effect>)
        requires
            old(self).wf(),
        ensures
            final(self).wf(),
            logs_out(*old(self), *final(self), eff@),
    {
        self.arl = None;
        self.screen = Screen::Login;
        self.user_name = None;
        self.master_key = None;
        self.has_engine = false;
        self.player.status = PlaybackStatus::Stopped;
        self.player.current_track = None;
        self.player.queue = Vec::new();
        self.player.queue_index = 0;
        self.search_results = Vec::new();
        self.search_display = Vec::new();
        self.favorites = Vec::new();
        self.favorites_display = Vec::new();
        self.radios = Vec::new();
        self.playlists = Vec::new();
        self.status_msg = None;
        self.login_error = None;
        self.login_loading = false;
        let mut eff: Vec<Effect> = Vec::new();
        eff.push(Effect::SaveConfig);
        eff.push(Effect::DropEngine);
        assert(eff@ =~= seq![Effect::SaveConfig, Effect::DropEngine]);
        eff
    }

    pub(crate) fn start_download_offline(&mut self, track: TrackData) -> (eff: Vec<Effect>)
        requires
            old(self).wf(),
        ensures
            final(self).wf(),
            download_started(*old(self), *final(self), track, eff@),
    {
        let mut eff: Vec<Effect> = Vec::new();
        if self.is_offline {
            self.status_msg = Some(StatusMsg::NoInternet);
            return eff;
        }
        if self.offline_index.has_track(track.track_id.as_str()) {
            self.status_msg = Some(StatusMsg::TrackSavedOffline);
            return eff;
        }
        let master_key = match self.master_key {
            Some(k) => k,
            None => {
                self.status_msg = Some(StatusMsg::PlayerNotReady);
                return eff;
            }
        };
        self.offline_loading = true;
        self.status_msg = Some(StatusMsg::DownloadingTrack);
        eff.push(Effect::DownloadTrack { track, quality: self.quality, master_key });
        eff
    }

    pub(crate) fn start_download_album_offline(&mut self, album_id: String) -> (eff: Vec<Effect>)
        requires
            old(self).wf(),
        ensures
            final(self).wf(),
            album_download_started(*old(self), *final(self), album_id, eff@),
    {
        let mut eff: Vec<Effect> = Vec::new();
        if self.is_offline {
            self.status_msg = Some(StatusMsg::NoInternet);
            return eff;
        }
        if self.offline_index.has_album(album_id.as_str()) {
            self.status_msg = Some(StatusMsg::AlbumSavedOffline);
            return eff;
        }
        let master_key = match self.master_key {
            Some(k) => k,
            None => {
                self.status_msg = Some(StatusMsg::PlayerNotReady);
                return eff;
            }
        };
        self.offline_loading = true;
        self.status_msg = Some(StatusMsg::DownloadingTrack);
        eff.push(Effect::DownloadAlbum { album_id, quality: self.quality, master_key });
        eff
    }

    pub(crate) fn remove_offline_album(&mut self, album_id: String) -> (eff: Vec<Effect>)
        requires
            old(self).wf(),
        ensures
            final(self).wf(),
            ({
                let albums = old(self).offline_index.albums@;
                &&& final(self).offline_index.albums@ == albums.filter(|a: AlbumDetail| a.album_id@ != album_id@)
                &&& *final(self) == Daemon { offline_index: final(self).offline_index, status_msg: Some(StatusMsg::RemovedOffline), ..*old(self) }
                &&& if has_album_id(albums, album_id@) {
                    let gone = albums[first_album(albums, album_id@)].tracks@;
                    &&& final(self).offline_index.tracks@ == without_ids(old(self).offline_index.tracks@, gone)
                    &&& deletes_files(gone, eff@)
                } else {
                    &&& final(self).offline_index.tracks@ == old(self).offline_index.tracks@
                    &&& eff@ == seq![Effect::SaveOfflineIndex]
                }
            }),
    {
        let mut eff: Vec<Effect> = Vec::new();
        if let Some(k) = self.offline_index.find_album(album_id.as_str()) {
            let n = self.offline_index.albums[k].tracks.len();
            let mut i: usize = 0;
            while i < n
                invariant
                    *self == *old(self),
                    k < self.offline_index.albums@.len(),
                    n == self.offline_index.albums@[k as int].tracks@.len(),
                    i <= n,
                    eff@.len() == i,
                    forall|j: int| 0 <= j < i ==> eff@[j] == (Effect::DeleteTrackFile {
                        track_id: (#[trigger] self.offline_index.albums@[k as int].tracks@[j]).track_id,
                    }),
                decreases n - i,
            {
                let id = self.offline_index.albums[k].tracks[i].track_id.clone();
                eff.push(Effect::DeleteTrackFile { track_id: id });
                i += 1;
            }
        }
        self.offline_index.remove_album(album_id.as_str());
        self.status_msg = Some(StatusMsg::RemovedOffline);
        eff.push(Effect::SaveOfflineIndex);
        eff
    }
}

/// The tracks of offline entries, in order.
pub fn offline_tracks_of(entries: &Vec<OfflineTrack>) -> (r: Vec<TrackData>)
    ensures
        r@ == offline_track_list(entries@),
{
    let mut r: Vec<TrackData> = Vec::new();
    for i in 0..entries.len()
        invariant
            r@ == offline_track_list(entries@.take(i as int)),
    {
        r.push(entries[i].track.clone());
        assert(offline_track_list(entries@.take(i + 1)) =~= offline_track_list(entries@.take(i as int)).push(entries@[i as int].track));
    }
    assert(entries@.take(entries@.len() as int) == entries@);
    r
}


impl Daemon {
    /// Apply one command from the client. `now` is the host's monotonic
    /// clock in nanoseconds; `random` picks tracks when shuffling.
    pub fn handle_command(&mut self, cmd: Command, now: u64, random: u64) -> (eff: Vec<Effect>)
        requires
            old(self).wf(),
        ensures
            final(self).wf(),
            handles_command(*old(self), *final(self), cmd, now, random, eff@),
    {
        match cmd {
            Command::GetSnapshot | Command::Shutdown => Vec::new(),
            // Requests of newer clients that this daemon does not serve.
            Command::GetArtistDetail { .. } | Command::AddFavoriteArtist { .. } | Command::RemoveFavoriteArtist { .. }
                | Command::AddFavoriteAlbum { .. } | Command::RemoveFavoriteAlbum { .. }
                | Command::RemoveFromPlaylist { .. } | Command::RenamePlaylist { .. } | Command::DeletePlaylist { .. }
                | Command::CreatePlaylistAndAdd { .. } | Command::StartFlow | Command::PlayFromQueue { .. }
                | Command::PlayFromArtist { .. } | Command::SeekForward { .. } | Command::SeekBackward { .. }
                => Vec::new(),
            Command::SelectUp | Command::SelectDown | Command::NextTab | Command::PrevTab | Command::NextCategory
                | Command::PrevCategory => self.handle_navigation(cmd, now, random),
            Command::DownloadOffline { .. } | Command::DownloadAlbumOffline { .. } | Command::RemoveOfflineTrack { .. }
                | Command::RemoveOfflineAlbum { .. } => self.handle_offline(cmd, now, random),
            Command::Login { .. } | Command::Search { .. } | Command::LoadFavorites | Command::AddFavorite { .. }
                | Command::RemoveFavorite { .. } | Command::RequestPlaylists | Command::AddToPlaylist { .. }
                | Command::DislikeTrack { .. } | Command::StartMix { .. } | Command::GetAlbumDetail { .. }
                | Command::GetPlaylistDetail { .. } | Command::Logout | Command::LoadRadios
                | Command::PlayFromRadio { .. } => self.handle_remote(cmd, now, random),
            Command::TogglePause | Command::NextTrack | Command::PrevTrack | Command::ToggleShuffle
                | Command::CycleRepeat | Command::PlayNext { .. } | Command::AddToQueue { .. }
                | Command::RemoveFromQueue { .. } => self.handle_queue(cmd, now, random),
            _ => self.handle_start(cmd, now, random),
        }
    }

    fn toggle_shuffle(&mut self)
        requires
            old(self).wf(),
        ensures
            final(self).wf(),
            *final(self) == (Daemon { player: PlayerState { shuffle: !old(self).player.shuffle, ..old(self).player }, ..*old(self) }),
    {
        self.player.shuffle = !self.player.shuffle;
    }

    fn next_repeat_mode(&mut self)
        requires
            old(self).wf(),
        ensures
            final(self).wf(),
            *final(self) == (Daemon { player: PlayerState { repeat: next_repeat(old(self).player.repeat), ..old(self).player }, ..*old(self) }),
    {
        self.player.repeat = cycle_repeat(self.player.repeat);
    }

    fn add_to_queue(&mut self, track: TrackData)
        requires
            old(self).wf(),
        ensures
            final(self).wf(),
            final(self).player.queue@ == old(self).player.queue@.push(track),
            *final(self) == (Daemon {
                player: PlayerState { queue: final(self).player.queue, ..old(self).player },
                status_msg: Some(StatusMsg::AddedToQueue),
                ..*old(self)
            }),
    {
        self.player.queue.push(track);
        self.status_msg = Some(StatusMsg::AddedToQueue);
    }

    fn handle_queue(&mut self, cmd: Command, now: u64, random: u64) -> (eff: Vec<Effect>)
        requires
            old(self).wf(),
            handles_queue_kind(cmd),
        ensures
            final(self).wf(),
            handles_queue(*old(self), *final(self), cmd, now, random, eff@),
    {
        reveal(handles_queue);
        match cmd {
            Command::TogglePause => self.toggle_pause(now),
            Command::NextTrack => self.play_next(now, random),
            Command::PrevTrack => self.play_prev(now),
            Command::ToggleShuffle => {
                self.toggle_shuffle();
                Vec::new()
            }
            Command::CycleRepeat => {
                self.next_repeat_mode();
                Vec::new()
            }
            Command::PlayNext { track } => {
                self.play_next_in_queue(track);
                Vec::new()
            }
            Command::AddToQueue { track } => {
                self.add_to_queue(track);
                Vec::new()
            }
            Command::RemoveFromQueue { index } => {
                self.remove_from_queue(index);
                Vec::new()
            }
            _ => Vec::new(),
        }
    }

    fn handle_start(&mut self, cmd: Command, now: u64, random: u64) -> (eff: Vec<Effect>)
        requires
            old(self).wf(),
            handles_start_kind(cmd),
        ensures
            final(self).wf(),
            handles_start(*old(self), *final(self), cmd, now, random, eff@),
    {
        reveal(handles_start);
        match cmd {
            Command::PlayFromSearch { index } => self.play_from_search(index),
            Command::PlayFromFavorites { index } => self.play_from_favorites(index),
            Command::ShuffleFavorites => self.shuffle_favorites(random),
            Command::PlayFromAlbum { index } => self.play_from_album(index),
            Command::PlayFromPlaylist { index } => self.play_from_playlist(index),
            Command::PlayFromOffline { index } => self.play_from_offline(index),
            Command::PlayOfflineAlbum { album_id, track_index } => self.play_offline_album(album_id, track_index),
            _ => Vec::new(),
        }
    }

    fn handle_navigation(&mut self, cmd: Command, now: u64, random: u64) -> (eff: Vec<Effect>)
        requires
            old(self).wf(),
            handles_navigation_kind(cmd),
        ensures
            final(self).wf(),
            handles_navigation(*old(self), *final(self), cmd, now, random, eff@),
    {
        reveal(handles_navigation);
        match cmd {
            Command::SelectUp => {
                self.select_up();
                Vec::new()
            }
            Command::SelectDown => {
                self.select_down();
                Vec::new()
            }
            Command::NextTab => {
                self.active_tab = self.active_tab.next();
                Vec::new()
            }
            Command::PrevTab => {
                self.active_tab = self.active_tab.prev();
                Vec::new()
            }
            Command::NextCategory => {
                let s = self.search_category.next();
                let f = self.favorites_category.next();
                let o = self.offline_category.next();
                self.switch_category(s, f, o)
            }
            Command::PrevCategory => {
                let s = self.search_category.prev();
                let f = self.favorites_category.prev();
                let o = self.offline_category.prev();
                self.switch_category(s, f, o)
            }
            _ => Vec::new(),
        }
    }

    fn handle_remote(&mut self, cmd: Command, now: u64, random: u64) -> (eff: Vec<Effect>)
        requires
            old(self).wf(),
            handles_remote_kind(cmd),
        ensures
            final(self).wf(),
            handles_remote(*old(self), *final(self), cmd, now, random, eff@),
    {
        reveal(handles_remote);
        match cmd {
            Command::Login { arl } => {
                self.arl = Some(arl.clone());
                self.login_loading = true;
                self.login_error = None;
                let mut eff: Vec<Effect> = Vec::new();
                eff.push(Effect::SaveConfig);
                eff.push(Effect::Login { arl });
                assert(eff@ =~= seq![Effect::SaveConfig, Effect::Login { arl }]);
                eff
            }
            Command::Search { query } => {
                self.last_search_query = query.clone();
                self.start_search(query)
            }
            Command::LoadFavorites => self.start_load_favorites(),
            Command::AddFavorite { track_id } => {
                let mut eff: Vec<Effect> = Vec::new();
                eff.push(Effect::AddFavorite { track_id });
                eff
            }
            Command::RemoveFavorite { track_id } => {
                let mut eff: Vec<Effect> = Vec::new();
                eff.push(Effect::RemoveFavorite { track_id });
                eff
            }
            Command::RequestPlaylists => {
                let mut eff: Vec<Effect> = Vec::new();
                if !self.is_offline {
                    eff.push(Effect::LoadPlaylists);
                }
                eff
            }
            Command::AddToPlaylist { playlist_id, track_id } => {
                let mut eff: Vec<Effect> = Vec::new();
                eff.push(Effect::AddToPlaylist { playlist_id, track_id });
                eff
            }
            Command::DislikeTrack { track_id } => {
                let mut eff: Vec<Effect> = Vec::new();
                eff.push(Effect::DislikeTrack { track_id });
                eff
            }
            Command::StartMix { track_id } => {
                self.status_msg = Some(StatusMsg::LoadingMix);
                let mut eff: Vec<Effect> = Vec::new();
                eff.push(Effect::LoadMix { track_id });
                eff
            }
            Command::GetAlbumDetail { album_id } => self.start_load_album_detail(album_id),
            Command::GetPlaylistDetail { playlist_id } => self.start_load_playlist_detail(playlist_id),
            Command::Logout => self.logout(),
            Command::LoadRadios => self.start_load_radios(),
            Command::PlayFromRadio { index } => self.play_from_radio(index),
            _ => Vec::new(),
        }
    }

    fn handle_offline(&mut self, cmd: Command, now: u64, random: u64) -> (eff: Vec<Effect>)
        requires
            old(self).wf(),
            handles_offline_kind(cmd),
        ensures
            final(self).wf(),
            handles_offline(*old(self), *final(self), cmd, now, random, eff@),
    {
        reveal(handles_offline);
        match cmd {
            Command::DownloadOffline { track } => self.start_download_offline(track),
            Command::DownloadAlbumOffline { album_id } => self.start_download_album_offline(album_id),
            Command::RemoveOfflineTrack { track_id } => {
                self.offline_index.remove_track(track_id.as_str());
                self.status_msg = Some(StatusMsg::RemovedOffline);
                let mut eff: Vec<Effect> = Vec::new();
                eff.push(Effect::DeleteTrackFile { track_id });
                eff.push(Effect::SaveOfflineIndex);
                assert(eff@ =~= seq![Effect::DeleteTrackFile { track_id }, Effect::SaveOfflineIndex]);
                eff
            }
            Command::RemoveOfflineAlbum { album_id } => self.remove_offline_album(album_id),
            _ => Vec::new(),
        }
    }

    fn start_load_album_detail(&mut self, album_id: String) -> (eff: Vec<Effect>)
        requires
            old(self).wf(),
        ensures
            final(self).wf(),
            if old(self).is_offline {
                *final(self) == (Daemon { status_msg: Some(StatusMsg::NoInternet), ..*old(self) }) && eff@ == Seq::<Effect>::empty()
            } else {
                &&& *final(self) == (Daemon {
                    album_detail_loading: true,
                    album_detail: None,
                    album_detail_selected: 0,
                    status_msg: Some(StatusMsg::LoadingAlbum),
                    ..*old(self)
                })
                &&& eff@ == seq![Effect::LoadAlbumDetail { album_id }]
            },
    {
        let mut eff: Vec<Effect> = Vec::new();
        if self.is_offline {
            self.status_msg = Some(StatusMsg::NoInternet);
            return eff;
        }
        self.album_detail_loading = true;
        self.album_detail = None;
        self.album_detail_selected = 0;
        self.status_msg = Some(StatusMsg::LoadingAlbum);
        eff.push(Effect::LoadAlbumDetail { album_id });
        eff
    }

    fn start_load_playlist_detail(&mut self, playlist_id: String) -> (eff: Vec<Effect>)
        requires
            old(self).wf(),
        ensures
            final(self).wf(),
            if old(self).is_offline {
                *final(self) == (Daemon { status_msg: Some(StatusMsg::NoInternet), ..*old(self) }) && eff@ == Seq::<Effect>::empty()
            } else {
                &&& *final(self) == (Daemon {
                    playlist_detail_loading: true,
                    playlist_detail: None,
                    playlist_detail_selected: 0,
                    status_msg: Some(StatusMsg::LoadingPlaylist),
                    ..*old(self)
                })
                &&& eff@ == seq![Effect::LoadPlaylistDetail { playlist_id }]
            },
    {
        let mut eff: Vec<Effect> = Vec::new();
        if self.is_offline {
            self.status_msg = Some(StatusMsg::NoInternet);
            return eff;
        }
        self.playlist_detail_loading = true;
        self.playlist_detail = None;
        self.playlist_detail_selected = 0;
        self.status_msg = Some(StatusMsg::LoadingPlaylist);
        eff.push(Effect::LoadPlaylistDetail { playlist_id });
        eff
    }

    fn play_from_album(&mut self, index: usize) -> (eff: Vec<Effect>)
        requires
            old(self).wf(),
        ensures
            final(self).wf(),
            match old(self).album_detail {
                Some(d) => plays_from_list(*old(self), *final(self), d.tracks@, index, eff@),
                None => *final(self) == *old(self) && eff@ == Seq::<Effect>::empty(),
            },
    {
        match &self.album_detail {
            Some(d) => {
                if index < d.tracks.len() {
                    let tracks = clone_tracks(&d.tracks);
                    let track = tracks[index].clone();
                    return self.play_new_queue(tracks, index, track);
                }
                Vec::new()
            }
            None => Vec::new(),
        }
    }

    fn play_from_playlist(&mut self, index: usize) -> (eff: Vec<Effect>)
        requires
            old(self).wf(),
        ensures
            final(self).wf(),
            match old(self).playlist_detail {
                Some(d) => plays_from_list(*old(self), *final(self), d.tracks@, index, eff@),
                None => *final(self) == *old(self) && eff@ == Seq::<Effect>::empty(),
            },
    {
        match &self.playlist_detail {
            Some(d) => {
                if index < d.tracks.len() {
                    let tracks = clone_tracks(&d.tracks);
                    let track = tracks[index].clone();
                    return self.play_new_queue(tracks, index, track);
                }
                Vec::new()
            }
            None => Vec::new(),
        }
    }

    fn play_from_radio(&mut self, index: usize) -> (eff: Vec<Effect>)
        requires
            old(self).wf(),
        ensures
            final(self).wf(),
            if index < old(self).radios@.len() {
                if old(self).is_offline {
                    *final(self) == (Daemon { status_msg: Some(StatusMsg::NoInternet), ..*old(self) }) && eff@ == Seq::<Effect>::empty()
                } else {
                    &&& *final(self) == (Daemon { status_msg: Some(StatusMsg::LoadingRadioTracks), ..*old(self) })
                    &&& eff@ == seq![Effect::LoadRadioTracks { radio_id: old(self).radios@[index as int].id }]
                }
            } else {
                *final(self) == *old(self) && eff@ == Seq::<Effect>::empty()
            },
    {
        let mut eff: Vec<Effect> = Vec::new();
        if index < self.radios.len() {
            let radio_id = self.radios[index].id;
            if self.is_offline {
                self.status_msg = Some(StatusMsg::NoInternet);
                return eff;
            }
            self.status_msg = Some(StatusMsg::LoadingRadioTracks);
            eff.push(Effect::LoadRadioTracks { radio_id });
        }
        eff
    }

    fn play_from_offline(&mut self, index: usize) -> (eff: Vec<Effect>)
        requires
            old(self).wf(),
        ensures
            final(self).wf(),
            plays_offline_from_list(*old(self), *final(self), offline_track_list(old(self).offline_index.tracks@), index, eff@),
    {
        let tracks = offline_tracks_of(&self.offline_index.tracks);
        if index < tracks.len() {
            return self.play_new_offline_queue(tracks, index);
        }
        Vec::new()
    }

    fn play_offline_album(&mut self, album_id: String, track_index: usize) -> (eff: Vec<Effect>)
        requires
            old(self).wf(),
        ensures
            final(self).wf(),
            ({
                let albums = old(self).offline_index.albums@;
                if has_album_id(albums, album_id@) {
                    plays_offline_from_list(*old(self), *final(self), albums[first_album(albums, album_id@)].tracks@, track_index, eff@)
                } else {
                    *final(self) == *old(self) && eff@ == Seq::<Effect>::empty()
                }
            }),
    {
        match self.offline_index.find_album(album_id.as_str()) {
            Some(k) => {
                let tracks = clone_tracks(&self.offline_index.albums[k].tracks);
                if track_index < tracks.len() {
                    return self.play_new_offline_queue(tracks, track_index);
                }
                Vec::new()
            }
            None => Vec::new(),
        }
    }
}

} // verus!
