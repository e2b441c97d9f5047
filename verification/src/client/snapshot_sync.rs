//! Taking in a snapshot of the daemon while keeping what only the client
//! knows: filters, selections on pages, open dialogs.

use vstd::prelude::*;
use crate::models::PlaylistData;
use crate::protocol::{Snapshot, Screen, RadioItem};
use crate::client::{
    LoginView, LoginMode, TextField, favorites_filtered, radios_filtered, clamped, same_overlays,
};
use crate::client::keys::{ClientView, InputMode};
use crate::client::popup::{MenuView, PopupMenu, SubMenu};

verus! {

/// A playlist picker that waits for the playlists gets them.
pub open spec fn picker_synced(pre: Option<PopupMenu>, post: Option<PopupMenu>, playlists: Seq<PlaylistData>) -> bool {
    match pre {
        Some(p) => match p.sub_menu {
            Some(SubMenu::PlaylistPicker { selected, loading, .. }) => if loading {
                &&& post is Some
                &&& post->0 == (PopupMenu { sub_menu: post->0.sub_menu, ..p })
                &&& post->0.sub_menu matches Some(SubMenu::PlaylistPicker { playlists: pl, selected: s2, loading: l2 })
                    && pl@ == playlists && s2 == selected && !l2
            } else {
                post == pre
            },
            _ => post == pre,
        },
        None => post == pre,
    }
}

/// The filter text of the favorites once the snapshot is in: cleared when
/// the category changed.
pub open spec fn kept_favorites_filter(pre: ClientView, snap: Snapshot) -> Seq<char> {
    if pre.favorites_category != snap.favorites_category { seq![] } else { pre.favorites_filter_input@ }
}

/// The radio list changed in length or in loading state.
pub open spec fn radios_changed(pre: ClientView, snap: Snapshot) -> bool {
    pre.radios@.len() != snap.radios@.len() || pre.radios_loading != snap.radios_loading
}

/// The snapshot takes the client from the main screen to the login screen.
pub open spec fn logs_out(pre: ClientView, snap: Snapshot) -> bool {
    pre.screen == Screen::Main && snap.screen == Screen::Login
}

/// The snapshot takes the client from the login screen to the main screen.
pub open spec fn logs_in(pre: ClientView, snap: Snapshot) -> bool {
    pre.screen == Screen::Login && snap.screen == Screen::Main
}

/// `post` and `lpost` are `pre` and `lpre` once `snap` is in.
pub open spec fn takes_snapshot(pre: ClientView, post: ClientView, lpre: LoginView, lpost: LoginView, snap: Snapshot) -> bool {
    let out = logs_out(pre, snap);
    let fav_input = kept_favorites_filter(pre, snap);
    &&& post == (ClientView {
        screen: snap.screen,
        active_tab: snap.active_tab,
        is_offline: snap.is_offline,
        current_track: snap.current_track,
        favorites: snap.favorites,
        search_display: snap.search_display,
        search_selected: snap.search_selected,
        favorites_display: snap.favorites_display,
        favorites_selected: snap.favorites_selected,
        favorites_category: snap.favorites_category,
        offline_category: snap.offline_category,
        offline_tracks: snap.offline_tracks,
        offline_albums: snap.offline_albums,
        offline_selected: snap.offline_selected,
        radios: post.radios,
        radios_loading: post.radios_loading,
        input_mode: post.input_mode,
        favorites_filter_input: post.favorites_filter_input,
        favorites_filter_typing: post.favorites_filter_typing,
        favorites_filtered: post.favorites_filtered,
        favorites_filter_selected: post.favorites_filter_selected,
        radio_filter_input: post.radio_filter_input,
        radio_filter_typing: post.radio_filter_typing,
        radios_filtered: post.radios_filtered,
        radios_selected: post.radios_selected,
        menu: MenuView {
            popup: post.menu.popup,
            playlists: post.menu.playlists,
            overlays: post.menu.overlays,
            ..pre.menu
        },
        queue: snap.queue,
        queue_index: snap.queue_index,
        album_detail: snap.album_detail,
        playlist_detail: snap.playlist_detail,
        ..pre
    })
    &&& post.favorites_filtered@.map_values(|x: usize| x as int) == favorites_filtered(fav_input, snap.favorites_display@)
    &&& post.favorites_filter_selected as int
        == clamped(pre.favorites_filter_selected as int, post.favorites_filtered@.len() as int)
    &&& post.favorites_filter_input@ == (if out { seq![] } else { fav_input })
    &&& post.favorites_filter_typing == (!out && pre.favorites_category == snap.favorites_category
        && pre.favorites_filter_typing)
    &&& if radios_changed(pre, snap) {
        &&& post.radios == snap.radios && post.radios_loading == snap.radios_loading
        &&& post.radios_filtered@ == radios_filtered(pre.radio_filter_input@, snap.radios@)
        &&& post.radios_selected == 0
    } else {
        &&& post.radios == pre.radios && post.radios_loading == pre.radios_loading
        &&& post.radios_filtered == pre.radios_filtered && post.radios_selected == pre.radios_selected
    }
    &&& post.radio_filter_input@ == (if out { seq![] } else { pre.radio_filter_input@ })
    &&& post.radio_filter_typing == (!out && pre.radio_filter_typing)
    &&& post.input_mode == (if out || logs_in(pre, snap) { InputMode::Normal } else { pre.input_mode })
    &&& post.menu.playlists == (if snap.playlists@.len() > 0 { snap.playlists } else { pre.menu.playlists })
    &&& if out {
        &&& post.menu.popup is None
        &&& post.menu.overlays.overlay is None && post.menu.overlays.stack@.len() == 0
        &&& post.menu.overlays.nav_changes == pre.menu.overlays.nav_changes
        &&& lpost.mode == LoginMode::Button && lpost.input.text@.len() == 0 && lpost.input.cursor == 0
    } else {
        &&& if snap.playlists@.len() > 0 {
            picker_synced(pre.menu.popup, post.menu.popup, snap.playlists@)
        } else {
            post.menu.popup == pre.menu.popup
        }
        &&& post.menu.overlays == pre.menu.overlays
        &&& lpost.mode == lpre.mode && lpost.input == lpre.input
    }
    &&& lpost.loading == snap.login_loading
}

fn sync_picker(popup: Option<PopupMenu>, playlists: &Vec<PlaylistData>) -> (r: Option<PopupMenu>)
    ensures
        picker_synced(popup, r, playlists@),
{
    match popup {
        Some(mut p) => {
            let waiting = match &p.sub_menu {
                Some(SubMenu::PlaylistPicker { loading, .. }) => *loading,
                _ => false,
            };
            if waiting {
                let selected = match &p.sub_menu {
                    Some(SubMenu::PlaylistPicker { selected, .. }) => *selected,
                    _ => 0,
                };
                p.sub_menu = Some(SubMenu::PlaylistPicker {
                    playlists: crate::models::clone_playlists(playlists),
                    selected,
                    loading: false,
                });
            }
            Some(p)
        }
        None => None,
    }
}

/// The favorites filter once the category `cat` is in: its text cleared
/// when the category changed, and applied again to the rows.
#[verifier::opaque]
pub open spec fn favorites_refreshed(pre: ClientView, post: ClientView, cat: crate::protocol::FavoritesCategory) -> bool {
    let changed = pre.favorites_category != cat;
    let input = if changed { seq![] } else { pre.favorites_filter_input@ };
    &&& post.favorites_filter_input@ == input
    &&& post.favorites_filter_typing == (!changed && pre.favorites_filter_typing)
    &&& post.favorites_filtered@.map_values(|x: usize| x as int) == favorites_filtered(input, pre.favorites_display@)
    &&& post.favorites_filter_selected as int
        == clamped(pre.favorites_filter_selected as int, post.favorites_filtered@.len() as int)
    &&& post == (ClientView {
        favorites_category: cat,
        favorites_filter_input: post.favorites_filter_input,
        favorites_filter_typing: post.favorites_filter_typing,
        favorites_filtered: post.favorites_filtered,
        favorites_filter_selected: post.favorites_filter_selected,
        ..pre
    })
}

/// The radio list once `radios` and `loading` are in.
#[verifier::opaque]
pub open spec fn radios_refreshed(pre: ClientView, post: ClientView, radios: Vec<RadioItem>, loading: bool) -> bool {
    if pre.radios@.len() != radios@.len() || pre.radios_loading != loading {
        &&& post.radios_filtered@ == radios_filtered(pre.radio_filter_input@, radios@)
        &&& post == (ClientView {
            radios,
            radios_loading: loading,
            radios_filtered: post.radios_filtered,
            radios_selected: 0,
            ..pre
        })
    } else {
        post == pre
    }
}

/// The user's playlists once `playlists` are in (an empty list changes
/// nothing).
#[verifier::opaque]
pub open spec fn playlists_refreshed(pre: ClientView, post: ClientView, playlists: Vec<PlaylistData>) -> bool {
    if playlists@.len() > 0 {
        &&& picker_synced(pre.menu.popup, post.menu.popup, playlists@)
        &&& post == (ClientView {
            menu: MenuView { playlists, popup: post.menu.popup, ..pre.menu },
            ..pre
        })
    } else {
        post == pre
    }
}

/// The local state after the screen changed from `prev`.
#[verifier::opaque]
pub open spec fn screen_settled(pre: ClientView, post: ClientView, lpre: LoginView, lpost: LoginView, prev: Screen) -> bool {
    if prev == Screen::Main && pre.screen == Screen::Login {
        &&& post.radio_filter_input@.len() == 0 && post.favorites_filter_input@.len() == 0
        &&& post.menu.overlays.overlay is None && post.menu.overlays.stack@.len() == 0
        &&& post == (ClientView {
            input_mode: InputMode::Normal,
            radio_filter_input: post.radio_filter_input,
            radio_filter_typing: false,
            favorites_filter_input: post.favorites_filter_input,
            favorites_filter_typing: false,
            menu: MenuView {
                popup: None,
                overlays: crate::client::OverlayStack {
                    overlay: None,
                    stack: post.menu.overlays.stack,
                    ..pre.menu.overlays
                },
                ..pre.menu
            },
            ..pre
        })
        &&& lpost.mode == LoginMode::Button && lpost.input.text@.len() == 0 && lpost.input.cursor == 0
        &&& lpost.loading == lpre.loading
    } else if prev == Screen::Login && pre.screen == Screen::Main {
        post == (ClientView { input_mode: InputMode::Normal, ..pre }) && lpost == lpre
    } else {
        post == pre && lpost == lpre
    }
}

/// `pre` with the fields that the snapshot simply replaces.
pub open spec fn copied(pre: ClientView, snap: Snapshot) -> ClientView {
    ClientView {
        screen: snap.screen,
        active_tab: snap.active_tab,
        is_offline: snap.is_offline,
        current_track: snap.current_track,
        favorites: snap.favorites,
        search_display: snap.search_display,
        search_selected: snap.search_selected,
        favorites_display: snap.favorites_display,
        favorites_selected: snap.favorites_selected,
        offline_category: snap.offline_category,
        offline_tracks: snap.offline_tracks,
        offline_albums: snap.offline_albums,
        offline_selected: snap.offline_selected,
        queue: snap.queue,
        queue_index: snap.queue_index,
        album_detail: snap.album_detail,
        playlist_detail: snap.playlist_detail,
        ..pre
    }
}

#[verifier::rlimit(100)]
#[verifier::spinoff_prover]
proof fn lemma_snapshot_stages(
    pre: ClientView,
    s1: ClientView,
    s2: ClientView,
    s3: ClientView,
    s4: ClientView,
    post: ClientView,
    lpre: LoginView,
    lmid: LoginView,
    lpost: LoginView,
    snap: Snapshot,
)
    requires
        s1 == copied(pre, snap),
        favorites_refreshed(s1, s2, snap.favorites_category),
        radios_refreshed(s2, s3, snap.radios, snap.radios_loading),
        playlists_refreshed(s3, s4, snap.playlists),
        lmid == (LoginView { loading: snap.login_loading, ..lpre }),
        screen_settled(s4, post, lmid, lpost, pre.screen),
    ensures
        takes_snapshot(pre, post, lpre, lpost, snap),
{
    reveal(favorites_refreshed);
    reveal(radios_refreshed);
    reveal(playlists_refreshed);
    reveal(screen_settled);
    if logs_out(pre, snap) {
        assert(post.radio_filter_input@ =~= Seq::<char>::empty());
        assert(post.favorites_filter_input@ =~= Seq::<char>::empty());
    }
}

impl ClientView {
    fn refresh_favorites(&mut self, cat: crate::protocol::FavoritesCategory)
        ensures
            favorites_refreshed(*old(self), *final(self), cat),
    {
        reveal(favorites_refreshed);
        if self.favorites_category != cat {
            self.favorites_filter_input = Vec::new();
            self.favorites_filter_typing = false;
        }
        self.favorites_category = cat;
        self.apply_favorites_filter();
    }

    fn refresh_radios(&mut self, radios: Vec<RadioItem>, loading: bool)
        ensures
            radios_refreshed(*old(self), *final(self), radios, loading),
    {
        reveal(radios_refreshed);
        if self.radios.len() != radios.len() || self.radios_loading != loading {
            self.radios = radios;
            self.radios_loading = loading;
            self.apply_radio_filter();
        }
    }

    fn refresh_playlists(&mut self, playlists: Vec<PlaylistData>)
        ensures
            playlists_refreshed(*old(self), *final(self), playlists),
    {
        reveal(playlists_refreshed);
        if playlists.len() > 0 {
            let popup = self.menu.popup.take();
            self.menu.popup = sync_picker(popup, &playlists);
            self.menu.playlists = playlists;
        }
    }

    fn settle_screen(&mut self, login: &mut LoginView, prev: Screen)
        ensures
            screen_settled(*old(self), *final(self), *old(login), *final(login), prev),
    {
        reveal(screen_settled);
        if prev == Screen::Main && self.screen == Screen::Login {
            self.input_mode = InputMode::Normal;
            login.mode = LoginMode::Button;
            login.input = TextField::new();
            self.menu.overlays.overlay = None;
            self.menu.overlays.stack = Vec::new();
            self.menu.popup = None;
            self.radio_filter_input = Vec::new();
            self.radio_filter_typing = false;
            self.favorites_filter_input = Vec::new();
            self.favorites_filter_typing = false;
        } else if prev == Screen::Login && self.screen == Screen::Main {
            self.input_mode = InputMode::Normal;
        }
    }

    /// Take the fields that the snapshot simply replaces; hand back the
    /// others.
    fn take_plain(&mut self, snap: Snapshot) -> (r: (crate::protocol::FavoritesCategory, Vec<RadioItem>, bool, Vec<PlaylistData>, bool))
        ensures
            *final(self) == copied(*old(self), snap),
            r == (snap.favorites_category, snap.radios, snap.radios_loading, snap.playlists, snap.login_loading),
    {
        let Snapshot {
            screen, active_tab, current_track, queue, queue_index, search_selected, search_display, favorites,
            favorites_selected, favorites_category, favorites_display, offline_category, offline_tracks,
            offline_albums, offline_selected, radios, radios_loading, playlists, album_detail, playlist_detail,
            login_loading, is_offline, ..
        } = snap;
        self.screen = screen;
        self.active_tab = active_tab;
        self.current_track = current_track;
        self.queue = queue;
        self.queue_index = queue_index;
        self.search_selected = search_selected;
        self.search_display = search_display;
        self.favorites = favorites;
        self.favorites_selected = favorites_selected;
        self.favorites_display = favorites_display;
        self.offline_category = offline_category;
        self.offline_tracks = offline_tracks;
        self.offline_albums = offline_albums;
        self.offline_selected = offline_selected;
        self.album_detail = album_detail;
        self.playlist_detail = playlist_detail;
        self.is_offline = is_offline;
        (favorites_category, radios, radios_loading, playlists, login_loading)
    }

    /// Take in a snapshot of the daemon. What only the client knows stays:
    /// the filters (the favorites one is cleared when the category changes),
    /// the radio list unless its length or loading state changed, the pages'
    /// selections and the open overlays. Logging out resets the text being
    /// typed, the overlays, the menu and the login screen.
    pub fn apply_snapshot(&mut self, login: &mut LoginView, snap: Snapshot)
        ensures
            takes_snapshot(*old(self), *final(self), *old(login), *final(login), snap),
    {
        let ghost pre = *self;
        let ghost s0 = snap;
        let prev_screen = self.screen;
        let (favorites_category, radios, radios_loading, playlists, login_loading) = self.take_plain(snap);
        let ghost s1 = *self;
        self.refresh_favorites(favorites_category);
        let ghost s2 = *self;
        self.refresh_radios(radios, radios_loading);
        let ghost s3 = *self;
        self.refresh_playlists(playlists);
        let ghost s4 = *self;
        let ghost lpre = *login;
        login.loading = login_loading;
        let ghost lmid = *login;
        self.settle_screen(login, prev_screen);
        proof {
            lemma_snapshot_stages(pre, s1, s2, s3, s4, *self, lpre, lmid, *login, s0);
        }
    }
}

/// The client's first view of a snapshot: no filter, no text typed, no
/// menu, no overlay, every favorites row and every radio shown.
pub open spec fn first_view(snap: Snapshot, v: ClientView, login: LoginView) -> bool {
    &&& v == (ClientView {
        screen: snap.screen,
        active_tab: snap.active_tab,
        is_offline: snap.is_offline,
        current_track: snap.current_track,
        favorites: snap.favorites,
        search_display: snap.search_display,
        search_selected: snap.search_selected,
        favorites_display: snap.favorites_display,
        favorites_selected: snap.favorites_selected,
        favorites_category: snap.favorites_category,
        offline_category: snap.offline_category,
        offline_tracks: snap.offline_tracks,
        offline_albums: snap.offline_albums,
        offline_selected: snap.offline_selected,
        radios: snap.radios,
        radios_loading: snap.radios_loading,
        queue: snap.queue,
        queue_index: snap.queue_index,
        album_detail: snap.album_detail,
        playlist_detail: snap.playlist_detail,
        radios_selected: snap.radios_selected,
        input_mode: InputMode::Normal,
        favorites_filter_typing: false,
        favorites_filter_selected: 0,
        radio_filter_typing: false,
        offline_tree_selected: 0,
        menu: MenuView {
            popup: None,
            playlists: snap.playlists,
            album_detail_selected: snap.album_detail_selected,
            artist_detail_selected: 0,
            toast: None,
            overlays: v.menu.overlays,
        },
        album_detail_left_scroll: 0,
        album_detail_left_focused: false,
        album_detail_left_scrollable: false,
        artist_detail: None,
        artist_detail_sub_tab: crate::models::ArtistSubTab::TopTracks,
        artist_detail_left_scroll: 0,
        artist_detail_left_focused: false,
        artist_detail_left_scrollable: false,
        ..v
    })
    &&& v.search_input@.len() == 0 && v.favorites_filter_input@.len() == 0 && v.radio_filter_input@.len() == 0
    &&& v.favorites_filtered@.map_values(|x: usize| x as int) == favorites_filtered(seq![], snap.favorites_display@)
    &&& v.radios_filtered@ == snap.radios@
    &&& v.offline_expanded@.len() == 0 && v.favorite_artist_ids@.len() == 0 && v.favorite_album_ids@.len() == 0
    &&& v.menu.overlays.overlay is None && v.menu.overlays.stack@.len() == 0 && v.menu.overlays.nav_changes@.len() == 0
    &&& login.mode == LoginMode::Button && login.input.text@.len() == 0 && login.input.cursor == 0
    &&& login.loading == snap.login_loading
}

impl ClientView {
    /// The client's first view, from the daemon's first snapshot.
    pub fn from_snapshot(snap: Snapshot) -> (r: (ClientView, LoginView))
        ensures
            first_view(snap, r.0, r.1),
    {
        let radios_filtered = crate::protocol::clone_radios(&snap.radios);
        let Snapshot {
            screen, active_tab, current_track, queue, queue_index, search_selected, search_display, favorites,
            favorites_selected, favorites_category, favorites_display, offline_category, offline_tracks,
            offline_albums, offline_selected, radios, radios_loading, radios_selected, playlists, album_detail,
            album_detail_selected, playlist_detail, login_loading, is_offline, ..
        } = snap;
        let mut v = ClientView {
            screen,
            active_tab,
            is_offline,
            current_track,
            favorites,
            favorite_artist_ids: Vec::new(),
            favorite_album_ids: Vec::new(),
            search_display,
            search_selected,
            favorites_display,
            favorites_selected,
            favorites_category,
            offline_category,
            offline_tracks,
            offline_albums,
            offline_selected,
            radios,
            radios_loading,
            input_mode: InputMode::Normal,
            search_input: Vec::new(),
            favorites_filter_input: Vec::new(),
            favorites_filter_typing: false,
            favorites_filtered: Vec::new(),
            favorites_filter_selected: 0,
            radio_filter_input: Vec::new(),
            radio_filter_typing: false,
            radios_filtered,
            radios_selected,
            offline_tree_selected: 0,
            offline_expanded: Vec::new(),
            menu: MenuView {
                popup: None,
                playlists,
                overlays: crate::client::OverlayStack::new(),
                toast: None,
                album_detail_selected,
                artist_detail_selected: 0,
            },
            queue,
            queue_index,
            album_detail,
            album_detail_left_scroll: 0,
            album_detail_left_focused: false,
            album_detail_left_scrollable: false,
            artist_detail: None,
            artist_detail_sub_tab: crate::models::ArtistSubTab::TopTracks,
            artist_detail_left_scroll: 0,
            artist_detail_left_focused: false,
            artist_detail_left_scrollable: false,
            playlist_detail,
        };
        v.apply_favorites_filter();
        let mut login = LoginView::new();
        login.loading = login_loading;
        (v, login)
    }
}

} // verus!
