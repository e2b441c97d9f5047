//! Start-up, the periodic tick, and the snapshot sent to the client.

use vstd::prelude::*;
use crate::i18n::Strings;
use crate::models::{
    AudioQuality, same_album, same_playlist_detail, clone_tracks, clone_albums, clone_opt_album,
    clone_opt_playlist_detail, clone_playlists, clone_display_items, clone_opt_string,
};
use crate::offline::{OfflineIndex, OfflineTrack, albums_have_track};
use crate::player::{PlaybackStatus, RepeatMode, PlayerState, is_initial_player};
use crate::protocol::{Screen, ActiveTab, SearchCategory, FavoritesCategory, OfflineCategory, Snapshot, clone_radios};
use crate::daemon::{Daemon, Effect, StatusMsg, status_text, elapsed_secs, elapsed};
use crate::daemon::playback::{plays, advances};

verus! {

/// The player position after a tick at `now`: while playing, the time
/// played so far, capped at the track's duration when that is known.
pub open spec fn tick_position(pre: Daemon, now: u64) -> u64 {
    if pre.player.status == PlaybackStatus::Playing && pre.playback_started_at is Some {
        let p = pre.playback_offset_secs.wrapping_add(elapsed_secs(pre.playback_started_at->0, now));
        if pre.player.duration_secs > 0 && p >= pre.player.duration_secs { pre.player.duration_secs } else { p }
    } else {
        pre.player.position_secs
    }
}

/// `pre` with the position of a tick at `now`.
pub open spec fn with_tick_position(pre: Daemon, now: u64) -> Daemon {
    Daemon { player: PlayerState { position_secs: tick_position(pre, now), ..pre.player }, ..pre }
}

/// A tick: the position moves on; when the engine has finished the track
/// that was playing, the same track starts again under repeat-track, or the
/// queue moves on.
pub open spec fn ticks(pre: Daemon, post: Daemon, now: u64, engine_finished: bool, random: u64, eff: Seq<Effect>) -> bool {
    let mid = with_tick_position(pre, now);
    if pre.has_engine && engine_finished && mid.player.status == PlaybackStatus::Playing {
        if mid.player.repeat == RepeatMode::Track {
            match mid.player.current_track {
                Some(t) => plays(mid, post, t, eff),
                None => post == mid && eff == Seq::<Effect>::empty(),
            }
        } else {
            advances(mid, post, now, random, eff)
        }
    } else {
        post == mid && eff == Seq::<Effect>::empty()
    }
}

/// A freshly started daemon, before any command.
pub open spec fn is_fresh(d: Daemon, arl: Option<String>, quality: AudioQuality, is_offline: bool, index: OfflineIndex) -> bool {
    &&& d.arl == arl
    &&& d.quality == quality
    &&& d.screen == (if is_offline || arl is Some { Screen::Main } else { Screen::Login })
    &&& d.active_tab == (if is_offline { ActiveTab::Downloads } else { ActiveTab::Search })
    &&& d.status_msg is None
    &&& d.login_error is None
    &&& !d.login_loading
    &&& d.user_name is None
    &&& d.search_results@.len() == 0
    &&& d.search_selected == 0
    &&& !d.search_loading
    &&& d.search_category == SearchCategory::Track
    &&& d.search_display@.len() == 0
    &&& d.last_search_query@.len() == 0
    &&& d.favorites@.len() == 0
    &&& d.favorites_selected == 0
    &&& !d.favorites_loading
    &&& d.favorites_category == FavoritesCategory::RecentlyPlayed
    &&& d.favorites_display@.len() == 0
    &&& d.radios@.len() == 0
    &&& d.radios_selected == 0
    &&& !d.radios_loading
    &&& d.offline_index == index
    &&& d.offline_category == OfflineCategory::Tracks
    &&& d.offline_selected == 0
    &&& !d.offline_loading
    &&& d.playlists@.len() == 0
    &&& d.album_detail is None
    &&& d.album_detail_selected == 0
    &&& !d.album_detail_loading
    &&& d.playlist_detail is None
    &&& d.playlist_detail_selected == 0
    &&& !d.playlist_detail_loading
    &&& is_initial_player(d.player)
    &&& !d.has_engine
    &&& d.master_key is None
    &&& d.is_offline == is_offline
    &&& d.playback_started_at is None
    &&& d.playback_offset_secs == 0
    &&& d.track_generation == 0
    &&& d.consecutive_skip_count == 0
}

/// What the snapshot of `d` shows, with status text in the language of `s`.
pub open spec fn shows(d: Daemon, s: Strings, snap: Snapshot) -> bool {
    &&& snap.screen == d.screen
    &&& snap.active_tab == d.active_tab
    &&& snap.status == d.player.status
    &&& snap.current_track == d.player.current_track
    &&& snap.quality == d.player.quality
    &&& snap.position_secs == d.player.position_secs
    &&& snap.duration_secs == d.player.duration_secs
    &&& snap.shuffle == d.player.shuffle
    &&& snap.repeat == d.player.repeat
    &&& snap.queue@ == d.player.queue@
    &&& snap.queue_index == d.player.queue_index
    &&& snap.search_results@ == d.search_results@
    &&& snap.search_selected == d.search_selected
    &&& snap.search_loading == d.search_loading
    &&& snap.search_category == d.search_category
    &&& snap.search_display@ == d.search_display@
    &&& snap.favorites@ == d.favorites@
    &&& snap.favorites_selected == d.favorites_selected
    &&& snap.favorites_loading == d.favorites_loading
    &&& snap.favorites_category == d.favorites_category
    &&& snap.favorites_display@ == d.favorites_display@
    &&& snap.offline_category == d.offline_category
    &&& snap.offline_tracks@ == d.offline_index.tracks@.filter(
        |t: OfflineTrack| !albums_have_track(d.offline_index.albums@, t.track.track_id@))
    &&& snap.offline_albums@.len() == d.offline_index.albums@.len()
    &&& forall|i: int| 0 <= i < snap.offline_albums@.len()
        ==> same_album(#[trigger] snap.offline_albums@[i], d.offline_index.albums@[i])
    &&& snap.offline_selected == d.offline_selected
    &&& snap.offline_loading == d.offline_loading
    &&& snap.offline_track_ids@.len() == d.offline_index.tracks@.len()
    &&& forall|i: int| 0 <= i < snap.offline_track_ids@.len()
        ==> (#[trigger] snap.offline_track_ids@[i])@ == d.offline_index.tracks@[i].track.track_id@
    &&& snap.radios@ == d.radios@
    &&& snap.radios_selected == d.radios_selected
    &&& snap.radios_loading == d.radios_loading
    &&& snap.playlists@ == d.playlists@
    &&& snap.album_detail is Some == d.album_detail is Some
    &&& snap.album_detail is Some ==> same_album(snap.album_detail->0, d.album_detail->0)
    &&& snap.album_detail_selected == d.album_detail_selected
    &&& snap.album_detail_loading == d.album_detail_loading
    &&& snap.playlist_detail is Some == d.playlist_detail is Some
    &&& snap.playlist_detail is Some ==> same_playlist_detail(snap.playlist_detail->0, d.playlist_detail->0)
    &&& snap.playlist_detail_selected == d.playlist_detail_selected
    &&& snap.playlist_detail_loading == d.playlist_detail_loading
    &&& snap.status_msg is Some == d.status_msg is Some
    &&& snap.status_msg is Some ==> snap.status_msg->0@ == status_text(s, d.status_msg->0)
    &&& snap.login_error == d.login_error
    &&& snap.login_loading == d.login_loading
    &&& snap.user_name == d.user_name
    &&& snap.is_offline == d.is_offline
}

impl Daemon {
    /// A daemon for the saved configuration (`arl`, `quality`), the
    /// connectivity found at start and the offline index read from disk.
    pub fn new(arl: Option<String>, quality: AudioQuality, is_offline: bool, offline_index: OfflineIndex) -> (d: Self)
        ensures
            d.wf(),
            is_fresh(d, arl, quality, is_offline, offline_index),
    {
        let screen = if is_offline {
            Screen::Main
        } else if arl.is_some() {
            Screen::Main
        } else {
            Screen::Login
        };
        Daemon {
            arl,
            quality,
            screen,
            active_tab: if is_offline { ActiveTab::Downloads } else { ActiveTab::Search },
            status_msg: None,
            login_error: None,
            login_loading: false,
            user_name: None,
            search_results: Vec::new(),
            search_selected: 0,
            search_loading: false,
            search_category: SearchCategory::default(),
            search_display: Vec::new(),
            last_search_query: String::new(),
            favorites: Vec::new(),
            favorites_selected: 0,
            favorites_loading: false,
            favorites_category: FavoritesCategory::default(),
            favorites_display: Vec::new(),
            radios: Vec::new(),
            radios_selected: 0,
            radios_loading: false,
            offline_index,
            offline_category: OfflineCategory::default(),
            offline_selected: 0,
            offline_loading: false,
            playlists: Vec::new(),
            album_detail: None,
            album_detail_selected: 0,
            album_detail_loading: false,
            playlist_detail: None,
            playlist_detail_selected: 0,
            playlist_detail_loading: false,
            player: PlayerState::new(),
            has_engine: false,
            master_key: None,
            is_offline,
            playback_started_at: None,
            playback_offset_secs: 0,
            track_generation: 0,
            consecutive_skip_count: 0,
        }
    }

    /// First steps once the daemon listens. Offline, the host has tried to
    /// open the audio engine (no key is needed for local files) and reports
    /// whether it could; online with a saved token, the login starts.
    pub fn startup(&mut self, engine_opened: bool) -> (eff: Vec<Effect>)
        requires
            old(self).wf(),
        ensures
            final(self).wf(),
            old(self).is_offline ==> *final(self) == (Daemon { has_engine: engine_opened, ..*old(self) })
                && eff@.len() == 0,
            !old(self).is_offline && old(self).arl is Some ==> *final(self) == (Daemon {
                status_msg: Some(StatusMsg::LoginConnecting),
                login_loading: true,
                login_error: None,
                ..*old(self)
            }) && eff@ == seq![Effect::Login { arl: old(self).arl->0 }],
            !old(self).is_offline && old(self).arl is None ==> *final(self) == *old(self) && eff@.len() == 0,
    {
        let mut eff: Vec<Effect> = Vec::new();
        if self.is_offline {
            self.has_engine = engine_opened;
        } else {
            match &self.arl {
                Some(arl) => {
                    let arl = arl.clone();
                    self.status_msg = Some(StatusMsg::LoginConnecting);
                    self.login_loading = true;
                    self.login_error = None;
                    eff.push(Effect::Login { arl });
                }
                None => {}
            }
        }
        eff
    }

    /// The periodic tick at host time `now`. `engine_finished` tells whether
    /// the audio engine has played its track to the end; `random` picks the
    /// next track under shuffle.
    pub fn on_tick(&mut self, now: u64, engine_finished: bool, random: u64) -> (eff: Vec<Effect>)
        requires
            old(self).wf(),
        ensures
            final(self).wf(),
            ticks(*old(self), *final(self), now, engine_finished, random, eff@),
    {
        if self.player.status == PlaybackStatus::Playing {
            if let Some(started) = self.playback_started_at {
                let mut p = self.playback_offset_secs.wrapping_add(elapsed(started, now));
                if self.player.duration_secs > 0 && p >= self.player.duration_secs {
                    p = self.player.duration_secs;
                }
                self.player.position_secs = p;
            }
        }
        assert(*self == with_tick_position(*old(self), now));
        if self.has_engine && engine_finished && self.player.status == PlaybackStatus::Playing {
            if self.player.repeat == RepeatMode::Track {
                match &self.player.current_track {
                    Some(t) => {
                        let track = t.clone();
                        return self.start_play_track(track);
                    }
                    None => {
                        return Vec::new();
                    }
                }
            } else {
                return self.play_next(now, random);
            }
        }
        Vec::new()
    }

    /// The state sent to the client, with the status line in the language
    /// of `s`.
    pub fn snapshot(&self, s: &Strings) -> (snap: Snapshot)
        ensures
            shows(*self, *s, snap),
    {
        let status_msg = match &self.status_msg {
            Some(m) => Some(m.render(s)),
            None => None,
        };
        Snapshot {
            screen: self.screen,
            active_tab: self.active_tab,
            status: self.player.status,
            current_track: match &self.player.current_track {
                Some(t) => Some(t.clone()),
                None => None,
            },
            quality: self.player.quality,
            position_secs: self.player.position_secs,
            duration_secs: self.player.duration_secs,
            shuffle: self.player.shuffle,
            repeat: self.player.repeat,
            queue: clone_tracks(&self.player.queue),
            queue_index: self.player.queue_index,
            search_results: clone_tracks(&self.search_results),
            search_selected: self.search_selected,
            search_loading: self.search_loading,
            search_category: self.search_category,
            search_display: clone_display_items(&self.search_display),
            favorites: clone_tracks(&self.favorites),
            favorites_selected: self.favorites_selected,
            favorites_loading: self.favorites_loading,
            favorites_category: self.favorites_category,
            favorites_display: clone_display_items(&self.favorites_display),
            offline_category: self.offline_category,
            offline_tracks: self.offline_index.single_tracks(),
            offline_albums: clone_albums(&self.offline_index.albums),
            offline_selected: self.offline_selected,
            offline_loading: self.offline_loading,
            offline_track_ids: self.offline_index.track_ids(),
            radios: clone_radios(&self.radios),
            radios_selected: self.radios_selected,
            radios_loading: self.radios_loading,
            playlists: clone_playlists(&self.playlists),
            album_detail: clone_opt_album(&self.album_detail),
            album_detail_selected: self.album_detail_selected,
            album_detail_loading: self.album_detail_loading,
            playlist_detail: clone_opt_playlist_detail(&self.playlist_detail),
            playlist_detail_selected: self.playlist_detail_selected,
            playlist_detail_loading: self.playlist_detail_loading,
            status_msg,
            login_error: clone_opt_string(&self.login_error),
            login_loading: self.login_loading,
            user_name: clone_opt_string(&self.user_name),
            is_offline: self.is_offline,
        }
    }
}

} // verus!
