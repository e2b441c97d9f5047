//! Keys of the main screen, from the global ones down to the list keys.

use vstd::prelude::*;
use crate::i18n::{Strings, Locale};
use crate::theme::ThemeId;
use crate::protocol::{Command, ActiveTab, OfflineCategory, RadioItem, Screen};
use crate::client::{
    LoginView, login_key, popped, Key, KeyCode, KeyAction, Overlay, is_up, is_down, stepped_up, stepped_down, step_up, step_down, up_key,
    down_key, favorites_filtered, radios_filtered, clamped, tree_rows, offline_tree_items, pushed, top_set,
};
use crate::client::keys::{
    ClientView, InputMode, filter_active, favorites_index, selected_item, opens_album, opens_artist,
    tree_toggle, tree_enter, item_popup, track_favorite, only_popup_changed, entered_page,
};
use crate::client::overlay_keys::{overlay_key, with_overlays, picker_in_range};
use crate::client::popup::{MenuView, PopupMenu, SubMenu, popup_key, is_manage_menu};
use crate::text::string_of;

verus! {

// ----- typing into the search field and the filters -----

/// A key while the search query is typed.
pub open spec fn typing_key(pre: ClientView, post: ClientView, key: Key, action: KeyAction) -> bool {
    let c = key.code;
    if c == KeyCode::Esc {
        post == (ClientView { input_mode: InputMode::Normal, ..pre }) && action is Continue
    } else if c == KeyCode::Enter {
        &&& post == (ClientView { input_mode: InputMode::Normal, ..pre })
        &&& if pre.search_input@.len() > 0 {
            action matches KeyAction::SendCommand(Command::Search { query }) && query@ == pre.search_input@
        } else {
            action is Continue
        }
    } else if c is Char {
        &&& post.search_input@ == pre.search_input@.push(c->Char_0)
        &&& post == (ClientView { search_input: post.search_input, ..pre })
        &&& action is Continue
    } else if c == KeyCode::Backspace {
        &&& post.search_input@ == (if pre.search_input@.len() > 0 { pre.search_input@.drop_last() } else { pre.search_input@ })
        &&& post == (ClientView { search_input: post.search_input, ..pre })
        &&& action is Continue
    } else {
        post == pre && action is Continue
    }
}

/// `post` is `pre` with the favorites filter set to `input` and applied
/// again.
pub open spec fn favorites_refiltered(pre: ClientView, post: ClientView, input: Seq<char>) -> bool {
    &&& post.favorites_filter_input@ == input
    &&& post.favorites_filtered@.map_values(|x: usize| x as int) == favorites_filtered(input, pre.favorites_display@)
    &&& post.favorites_filter_selected as int
        == clamped(pre.favorites_filter_selected as int, post.favorites_filtered@.len() as int)
    &&& post == (ClientView {
        favorites_filter_input: post.favorites_filter_input,
        favorites_filtered: post.favorites_filtered,
        favorites_filter_selected: post.favorites_filter_selected,
        ..pre
    })
}

/// `post` is `pre` with the radio filter set to `input` and applied again.
pub open spec fn radios_refiltered(pre: ClientView, post: ClientView, input: Seq<char>) -> bool {
    &&& post.radio_filter_input@ == input
    &&& post.radios_filtered@ == radios_filtered(input, pre.radios@)
    &&& post == (ClientView {
        radio_filter_input: post.radio_filter_input,
        radios_filtered: post.radios_filtered,
        radios_selected: 0,
        ..pre
    })
}

/// The text after a key that edits a filter: one more character, or one
/// less.
pub open spec fn filter_edit(input: Seq<char>, c: KeyCode) -> Seq<char> {
    if c is Char {
        input.push(c->Char_0)
    } else if input.len() > 0 {
        input.drop_last()
    } else {
        input
    }
}

/// A key while the favorites filter is typed.
pub open spec fn favorites_filter_key(pre: ClientView, post: ClientView, key: Key) -> bool {
    let c = key.code;
    if c == KeyCode::Esc || c == KeyCode::Enter {
        post == (ClientView { favorites_filter_typing: false, ..pre })
    } else if c is Char || c == KeyCode::Backspace {
        favorites_refiltered(pre, post, filter_edit(pre.favorites_filter_input@, c))
    } else {
        post == pre
    }
}

/// A key while the radio filter is typed.
pub open spec fn radio_filter_key(pre: ClientView, post: ClientView, key: Key) -> bool {
    let c = key.code;
    if c == KeyCode::Esc || c == KeyCode::Enter {
        post == (ClientView { radio_filter_typing: false, ..pre })
    } else if c is Char || c == KeyCode::Backspace {
        radios_refiltered(pre, post, filter_edit(pre.radio_filter_input@, c))
    } else {
        post == pre
    }
}

fn edit_chars(v: &mut Vec<char>, c: KeyCode)
    ensures
        final(v)@ == filter_edit(old(v)@, c),
{
    match c {
        KeyCode::Char(ch) => {
            v.push(ch);
        }
        _ => {
            if v.len() > 0 {
                v.pop();
            }
        }
    }
}

impl ClientView {
    fn typing_key(&mut self, key: Key) -> (action: KeyAction)
        ensures
            typing_key(*old(self), *final(self), key, action),
    {
        let c = key.code;
        if c == KeyCode::Esc {
            self.input_mode = InputMode::Normal;
            KeyAction::Continue
        } else if c == KeyCode::Enter {
            self.input_mode = InputMode::Normal;
            if self.search_input.len() > 0 {
                let query = string_of(self.search_input.as_slice());
                KeyAction::SendCommand(Command::Search { query })
            } else {
                KeyAction::Continue
            }
        } else if let KeyCode::Char(ch) = c {
            self.search_input.push(ch);
            KeyAction::Continue
        } else if c == KeyCode::Backspace {
            if self.search_input.len() > 0 {
                self.search_input.pop();
            }
            KeyAction::Continue
        } else {
            KeyAction::Continue
        }
    }

    fn favorites_filter_key(&mut self, key: Key)
        ensures
            favorites_filter_key(*old(self), *final(self), key),
    {
        let c = key.code;
        if c == KeyCode::Esc || c == KeyCode::Enter {
            self.favorites_filter_typing = false;
        } else if matches!(c, KeyCode::Char(_)) || c == KeyCode::Backspace {
            edit_chars(&mut self.favorites_filter_input, c);
            self.apply_favorites_filter();
        }
    }

    fn radio_filter_key(&mut self, key: Key)
        ensures
            radio_filter_key(*old(self), *final(self), key),
    {
        let c = key.code;
        if c == KeyCode::Esc || c == KeyCode::Enter {
            self.radio_filter_typing = false;
        } else if matches!(c, KeyCode::Char(_)) || c == KeyCode::Backspace {
            edit_chars(&mut self.radio_filter_input, c);
            self.apply_radio_filter();
        }
    }
}

// ----- the list keys -----

/// The main-screen keys that only send a command or change the volume.
pub open spec fn command_key(c: KeyCode) -> Option<KeyAction> {
    if c == KeyCode::Char('h') || c == KeyCode::Left {
        Some(KeyAction::SendCommand(Command::PrevCategory))
    } else if c == KeyCode::Char('f') {
        Some(KeyAction::SendCommand(Command::StartFlow))
    } else if c == KeyCode::Char(' ') {
        Some(KeyAction::SendCommand(Command::TogglePause))
    } else if c == KeyCode::Char('n') {
        Some(KeyAction::SendCommand(Command::NextTrack))
    } else if c == KeyCode::Char('b') {
        Some(KeyAction::SendCommand(Command::PrevTrack))
    } else if c == KeyCode::Char('s') {
        Some(KeyAction::SendCommand(Command::ToggleShuffle))
    } else if c == KeyCode::Char('r') {
        Some(KeyAction::SendCommand(Command::CycleRepeat))
    } else if c == KeyCode::Char('+') || c == KeyCode::Char('=') {
        Some(KeyAction::ChangeVolume { up: true })
    } else if c == KeyCode::Char('-') {
        Some(KeyAction::ChangeVolume { up: false })
    } else {
        None
    }
}

fn command_key_of(c: KeyCode) -> (r: Option<KeyAction>)
    ensures
        r == command_key(c),
{
    if c == KeyCode::Char('h') || c == KeyCode::Left {
        Some(KeyAction::SendCommand(Command::PrevCategory))
    } else if c == KeyCode::Char('f') {
        Some(KeyAction::SendCommand(Command::StartFlow))
    } else if c == KeyCode::Char(' ') {
        Some(KeyAction::SendCommand(Command::TogglePause))
    } else if c == KeyCode::Char('n') {
        Some(KeyAction::SendCommand(Command::NextTrack))
    } else if c == KeyCode::Char('b') {
        Some(KeyAction::SendCommand(Command::PrevTrack))
    } else if c == KeyCode::Char('s') {
        Some(KeyAction::SendCommand(Command::ToggleShuffle))
    } else if c == KeyCode::Char('r') {
        Some(KeyAction::SendCommand(Command::CycleRepeat))
    } else if c == KeyCode::Char('+') || c == KeyCode::Char('=') {
        Some(KeyAction::ChangeVolume { up: true })
    } else if c == KeyCode::Char('-') {
        Some(KeyAction::ChangeVolume { up: false })
    } else {
        None
    }
}

/// `/`: start typing the search query, or a filter.
pub open spec fn slash_key(pre: ClientView, post: ClientView) -> bool {
    match pre.active_tab {
        ActiveTab::Search => post == (ClientView {
            input_mode: InputMode::Typing,
            search_input: post.search_input,
            ..pre
        }) && post.search_input@.len() == 0,
        ActiveTab::Radio => {
            let mid = ClientView { radio_filter_typing: true, ..pre };
            radios_refiltered(mid, post, seq![])
        },
        ActiveTab::Favorites => {
            let mid = ClientView { favorites_filter_typing: true, ..pre };
            favorites_refiltered(mid, post, seq![])
        },
        ActiveTab::Downloads => post == pre,
    }
}

/// The offline albums tree is shown.
pub open spec fn on_album_tree(v: ClientView) -> bool {
    v.active_tab == ActiveTab::Downloads && v.offline_category == OfflineCategory::Albums
}

/// Up in the lists: the radio list, the offline tree and the filtered
/// favorites move here; the other lists move in the daemon.
pub open spec fn list_up(pre: ClientView, post: ClientView, action: KeyAction) -> bool {
    if pre.active_tab == ActiveTab::Radio {
        post == (ClientView { radios_selected: stepped_up(pre.radios_selected), ..pre }) && action is Continue
    } else if on_album_tree(pre) {
        post == (ClientView { offline_tree_selected: stepped_up(pre.offline_tree_selected), ..pre }) && action is Continue
    } else if pre.active_tab == ActiveTab::Favorites && filter_active(pre) {
        post == (ClientView { favorites_filter_selected: stepped_up(pre.favorites_filter_selected), ..pre })
            && action is Continue
    } else {
        post == pre && action == KeyAction::SendCommand(Command::SelectUp)
    }
}

/// One row further down a list of `len` rows, or no move for an empty one.
pub open spec fn row_down(selected: usize, len: int) -> usize {
    if len > 0 { stepped_down(selected as int, len) as usize } else { selected }
}

/// Down in the lists.
pub open spec fn list_down(pre: ClientView, post: ClientView, action: KeyAction) -> bool {
    if pre.active_tab == ActiveTab::Radio {
        post == (ClientView { radios_selected: row_down(pre.radios_selected, pre.radios_filtered@.len() as int), ..pre })
            && action is Continue
    } else if on_album_tree(pre) {
        let n = tree_rows(pre.offline_albums@, pre.offline_expanded@, pre.offline_albums@.len() as int).len();
        post == (ClientView { offline_tree_selected: row_down(pre.offline_tree_selected, n as int), ..pre })
            && action is Continue
    } else if pre.active_tab == ActiveTab::Favorites && filter_active(pre) {
        post == (ClientView {
            favorites_filter_selected: row_down(pre.favorites_filter_selected, pre.favorites_filtered@.len() as int),
            ..pre
        }) && action is Continue
    } else {
        post == pre && action == KeyAction::SendCommand(Command::SelectDown)
    }
}

/// `r` is the position of the first radio with id `id`, or 0 when none has.
pub open spec fn radio_position(radios: Seq<RadioItem>, id: u64, r: usize) -> bool {
    if exists|i: int| 0 <= i < radios.len() && (#[trigger] radios[i]).id == id {
        &&& r < radios.len()
        &&& radios[r as int].id == id
        &&& forall|j: int| 0 <= j < r ==> (#[trigger] radios[j]).id != id
    } else {
        r == 0
    }
}

fn find_radio(radios: &Vec<RadioItem>, id: u64) -> (r: usize)
    ensures
        radio_position(radios@, id, r),
{
    for i in 0..radios.len()
        invariant
            forall|j: int| 0 <= j < i ==> (#[trigger] radios@[j]).id != id,
    {
        if radios[i].id == id {
            return i;
        }
    }
    0
}

/// Open the page of an artist, else of an album, else of a playlist.
pub open spec fn opens_page(
    pre: ClientView,
    post: ClientView,
    artist: Option<String>,
    album: Option<String>,
    playlist: Option<String>,
    action: KeyAction,
) -> bool {
    let ov = post.menu.overlays;
    if artist is Some {
        &&& entered_page(pre.menu.overlays, ov, Overlay::ArtistDetail)
        &&& post == (ClientView {
            menu: MenuView { overlays: ov, artist_detail_selected: 0, ..pre.menu },
            artist_detail_left_scroll: 0,
            artist_detail_left_focused: false,
            ..pre
        })
        &&& action == KeyAction::SendCommand(Command::GetArtistDetail { artist_id: artist->0 })
    } else if album is Some {
        &&& entered_page(pre.menu.overlays, ov, Overlay::AlbumDetail { from_artist: false })
        &&& post == (ClientView {
            menu: MenuView { overlays: ov, album_detail_selected: 0, ..pre.menu },
            album_detail_left_scroll: 0,
            album_detail_left_focused: false,
            ..pre
        })
        &&& action == KeyAction::SendCommand(Command::GetAlbumDetail { album_id: album->0 })
    } else {
        &&& entered_page(pre.menu.overlays, ov, Overlay::PlaylistDetail { selected: 0 })
        &&& post == with_overlays(pre, ov)
        &&& action == KeyAction::SendCommand(Command::GetPlaylistDetail { playlist_id: playlist->0 })
    }
}

/// Enter on a row that is an artist, an album or a playlist: open its page.
pub open spec fn opens_row_page(pre: ClientView, post: ClientView, action: KeyAction) -> bool {
    let i = selected_item(pre)->0;
    opens_page(pre, post, i.artist_id, i.album_id, i.playlist_id, action)
}

/// The selected row is an artist, an album or a playlist, not a track.
pub open spec fn row_is_page(v: ClientView) -> bool {
    let item = selected_item(v);
    item is Some && item->0.track is None
        && (item->0.artist_id is Some || item->0.album_id is Some || item->0.playlist_id is Some)
}

/// Enter on a row that is no page: play from it.
pub open spec fn plays_row(pre: ClientView, action: KeyAction) -> bool {
    match pre.active_tab {
        ActiveTab::Search => action == KeyAction::SendCommand(Command::PlayFromSearch { index: pre.search_selected }),
        ActiveTab::Favorites => action == KeyAction::SendCommand(Command::PlayFromFavorites { index: favorites_index(pre) }),
        ActiveTab::Radio => if pre.radios_selected < pre.radios_filtered@.len() {
            action matches KeyAction::SendCommand(Command::PlayFromRadio { index })
                && radio_position(pre.radios@, pre.radios_filtered@[pre.radios_selected as int].id, index)
        } else {
            action is Continue
        },
        ActiveTab::Downloads => match pre.offline_category {
            OfflineCategory::Tracks => action == KeyAction::SendCommand(Command::PlayFromOffline { index: pre.offline_selected }),
            OfflineCategory::Albums => tree_enter(pre, action),
        },
    }
}

/// Enter on the main screen.
pub open spec fn enter_key(pre: ClientView, post: ClientView, action: KeyAction) -> bool {
    if row_is_page(pre) {
        opens_row_page(pre, post, action)
    } else {
        post == pre && plays_row(pre, action)
    }
}

impl ClientView {
    #[verifier::rlimit(30)]
    fn slash_key(&mut self)
        ensures
            slash_key(*old(self), *final(self)),
    {
        match self.active_tab {
            ActiveTab::Search => {
                self.input_mode = InputMode::Typing;
                self.search_input = Vec::new();
            }
            ActiveTab::Radio => {
                self.radio_filter_typing = true;
                self.radio_filter_input = Vec::new();
                self.apply_radio_filter();
            }
            ActiveTab::Favorites => {
                self.favorites_filter_typing = true;
                self.favorites_filter_input = Vec::new();
                self.apply_favorites_filter();
            }
            ActiveTab::Downloads => {}
        }
    }

    fn on_album_tree(&self) -> (b: bool)
        ensures
            b == on_album_tree(*self),
    {
        self.active_tab == ActiveTab::Downloads && self.offline_category == OfflineCategory::Albums
    }

    fn list_up(&mut self) -> (action: KeyAction)
        ensures
            list_up(*old(self), *final(self), action),
    {
        if self.active_tab == ActiveTab::Radio {
            self.radios_selected = step_up(self.radios_selected);
            KeyAction::Continue
        } else if self.on_album_tree() {
            self.offline_tree_selected = step_up(self.offline_tree_selected);
            KeyAction::Continue
        } else if self.active_tab == ActiveTab::Favorites && self.favorites_filter_active() {
            self.favorites_filter_selected = step_up(self.favorites_filter_selected);
            KeyAction::Continue
        } else {
            KeyAction::SendCommand(Command::SelectUp)
        }
    }

    fn list_down(&mut self) -> (action: KeyAction)
        ensures
            list_down(*old(self), *final(self), action),
    {
        if self.active_tab == ActiveTab::Radio {
            let n = self.radios_filtered.len();
            if n > 0 {
                self.radios_selected = step_down(self.radios_selected, n);
            }
            KeyAction::Continue
        } else if self.on_album_tree() {
            let n = offline_tree_items(&self.offline_albums, &self.offline_expanded).len();
            if n > 0 {
                self.offline_tree_selected = step_down(self.offline_tree_selected, n);
            }
            KeyAction::Continue
        } else if self.active_tab == ActiveTab::Favorites && self.favorites_filter_active() {
            let n = self.favorites_filtered.len();
            if n > 0 {
                self.favorites_filter_selected = step_down(self.favorites_filter_selected, n);
            }
            KeyAction::Continue
        } else {
            KeyAction::SendCommand(Command::SelectDown)
        }
    }

    fn plays_row(&self) -> (action: KeyAction)
        ensures
            plays_row(*self, action),
    {
        match self.active_tab {
            ActiveTab::Search => KeyAction::SendCommand(Command::PlayFromSearch { index: self.search_selected }),
            ActiveTab::Favorites => KeyAction::SendCommand(Command::PlayFromFavorites {
                index: self.favorites_selected_original_index(),
            }),
            ActiveTab::Radio => if self.radios_selected < self.radios_filtered.len() {
                let id = self.radios_filtered[self.radios_selected].id;
                KeyAction::SendCommand(Command::PlayFromRadio { index: find_radio(&self.radios, id) })
            } else {
                KeyAction::Continue
            },
            ActiveTab::Downloads => match self.offline_category {
                OfflineCategory::Tracks => KeyAction::SendCommand(Command::PlayFromOffline { index: self.offline_selected }),
                OfflineCategory::Albums => self.handle_offline_tree_enter(),
            },
        }
    }

    /// The artist, album and playlist of the selected row when it is no track.
    fn row_page_ids(&self) -> (r: (Option<String>, Option<String>, Option<String>))
        ensures
            row_is_page(*self) ==> r == (selected_item(*self)->0.artist_id, selected_item(*self)->0.album_id,
                selected_item(*self)->0.playlist_id),
            !row_is_page(*self) ==> r.0 is None && r.1 is None && r.2 is None,
    {
        match self.selected_item() {
            Some(i) => if i.track.is_none() {
                (
                    crate::models::clone_opt_string(&i.artist_id),
                    crate::models::clone_opt_string(&i.album_id),
                    crate::models::clone_opt_string(&i.playlist_id),
                )
            } else {
                (None, None, None)
            },
            None => (None, None, None),
        }
    }

    fn open_page(&mut self, artist: Option<String>, album: Option<String>, playlist: Option<String>) -> (action: KeyAction)
        requires
            artist is Some || album is Some || playlist is Some,
        ensures
            opens_page(*old(self), *final(self), artist, album, playlist, action),
    {
        if let Some(artist_id) = artist {
            self.menu.overlays.set_nav_overlay(Overlay::ArtistDetail);
            self.menu.artist_detail_selected = 0;
            self.artist_detail_left_scroll = 0;
            self.artist_detail_left_focused = false;
            KeyAction::SendCommand(Command::GetArtistDetail { artist_id })
        } else if let Some(album_id) = album {
            self.menu.overlays.set_nav_overlay(Overlay::AlbumDetail { from_artist: false });
            self.menu.album_detail_selected = 0;
            self.album_detail_left_scroll = 0;
            self.album_detail_left_focused = false;
            KeyAction::SendCommand(Command::GetAlbumDetail { album_id })
        } else {
            let playlist_id = match playlist {
                Some(p) => p,
                None => String::new(),
            };
            self.menu.overlays.set_nav_overlay(Overlay::PlaylistDetail { selected: 0 });
            KeyAction::SendCommand(Command::GetPlaylistDetail { playlist_id })
        }
    }

    fn enter_key(&mut self) -> (action: KeyAction)
        ensures
            enter_key(*old(self), *final(self), action),
    {
        let (artist, album, playlist) = self.row_page_ids();
        if artist.is_some() || album.is_some() || playlist.is_some() {
            self.open_page(artist, album, playlist)
        } else {
            self.plays_row()
        }
    }
}

/// A key on the main screen with no overlay, menu or text being typed.
pub open spec fn normal_key(pre: ClientView, post: ClientView, key: Key, s: Strings, action: KeyAction) -> bool {
    let c = key.code;
    let ov = post.menu.overlays;
    if c == KeyCode::Tab || c == KeyCode::BackTab {
        post == pre && if pre.is_offline {
            action is Continue
        } else if c == KeyCode::Tab {
            action == KeyAction::SendCommand(Command::NextTab)
        } else {
            action == KeyAction::SendCommand(Command::PrevTab)
        }
    } else if c == KeyCode::Char('/') {
        slash_key(pre, post) && action is Continue
    } else if c == KeyCode::Char('x') {
        item_popup(pre, post, s) && action is Continue
    } else if c == KeyCode::Char('a') {
        opens_album(pre, post, action)
    } else if c == KeyCode::Char('t') {
        opens_artist(pre, post, action)
    } else if c == KeyCode::Char('w') {
        pushed(pre.menu.overlays, ov, Overlay::WaitingList { selected: 0 }) && post == with_overlays(pre, ov)
            && action is Continue
    } else if c == KeyCode::Char('l') || c == KeyCode::Right {
        if on_album_tree(pre) {
            tree_toggle(pre, post) && action is Continue
        } else {
            post == pre && action == KeyAction::SendCommand(Command::NextCategory)
        }
    } else if is_up(c) {
        list_up(pre, post, action)
    } else if is_down(c) {
        list_down(pre, post, action)
    } else if c == KeyCode::Enter {
        enter_key(pre, post, action)
    } else if c == KeyCode::Char('g') {
        post == pre && if pre.active_tab == ActiveTab::Favorites {
            action == KeyAction::SendCommand(Command::ShuffleFavorites)
        } else {
            action is Continue
        }
    } else if c == KeyCode::Esc {
        top_set(pre.menu.overlays, ov, Overlay::Settings { selected: 0 }) && post == with_overlays(pre, ov)
            && action is Continue
    } else {
        post == pre && action == (match command_key(c) {
            Some(a) => a,
            None => KeyAction::Continue,
        })
    }
}

/// A key of the main screen, whatever is open: Ctrl+Q quits, an open menu
/// takes the key, Ctrl+Space opens the menu of the track that plays, then
/// the overlay, the search field and the filters take it, and last the
/// lists.
pub open spec fn main_key(
    pre: ClientView,
    post: ClientView,
    key: Key,
    s: Strings,
    theme: ThemeId,
    locale: Locale,
    action: KeyAction,
) -> bool {
    if key.code == KeyCode::Char('q') && key.ctrl {
        post == pre && action is Quit
    } else if pre.menu.popup is Some {
        popup_key(pre.menu, post.menu, key, s, action) && post == (ClientView { menu: post.menu, ..pre })
    } else if key.code == KeyCode::Char(' ') && key.ctrl {
        action is Continue && match pre.current_track {
            Some(t) => only_popup_changed(pre, post) && post.menu.popup is Some
                && is_manage_menu(post.menu.popup->0, t, track_favorite(pre, t.track_id@), s),
            None => post == pre,
        }
    } else if pre.menu.overlays.overlay is Some {
        overlay_key(pre, post, key, s, theme, locale, action)
    } else if pre.input_mode == InputMode::Typing {
        typing_key(pre, post, key, action)
    } else if pre.favorites_filter_typing {
        favorites_filter_key(pre, post, key) && action is Continue
    } else if pre.radio_filter_typing {
        radio_filter_key(pre, post, key) && action is Continue
    } else {
        normal_key(pre, post, key, s, action)
    }
}

impl ClientView {
    fn normal_key(&mut self, key: Key, s: &Strings) -> (action: KeyAction)
        ensures
            normal_key(*old(self), *final(self), key, *s, action),
    {
        let c = key.code;
        if c == KeyCode::Tab || c == KeyCode::BackTab {
            if self.is_offline {
                KeyAction::Continue
            } else if c == KeyCode::Tab {
                KeyAction::SendCommand(Command::NextTab)
            } else {
                KeyAction::SendCommand(Command::PrevTab)
            }
        } else if c == KeyCode::Char('/') {
            self.slash_key();
            KeyAction::Continue
        } else if c == KeyCode::Char('x') {
            self.open_item_popup(s);
            KeyAction::Continue
        } else if c == KeyCode::Char('a') {
            self.open_album_detail()
        } else if c == KeyCode::Char('t') {
            self.open_artist_detail()
        } else if c == KeyCode::Char('w') {
            self.menu.overlays.push_overlay(Overlay::WaitingList { selected: 0 });
            KeyAction::Continue
        } else if c == KeyCode::Char('l') || c == KeyCode::Right {
            if self.on_album_tree() {
                self.handle_offline_tree_toggle();
                KeyAction::Continue
            } else {
                KeyAction::SendCommand(Command::NextCategory)
            }
        } else if up_key(c) {
            self.list_up()
        } else if down_key(c) {
            self.list_down()
        } else if c == KeyCode::Enter {
            self.enter_key()
        } else if c == KeyCode::Char('g') {
            if self.active_tab == ActiveTab::Favorites {
                KeyAction::SendCommand(Command::ShuffleFavorites)
            } else {
                KeyAction::Continue
            }
        } else if c == KeyCode::Esc {
            self.menu.overlays.set_top(Overlay::Settings { selected: 0 });
            KeyAction::Continue
        } else {
            match command_key_of(c) {
                Some(a) => a,
                None => KeyAction::Continue,
            }
        }
    }

    /// Handle a key of the main screen. `theme` and `locale` are the ones
    /// in effect, where the pickers open.
    pub fn handle_main_key(&mut self, key: Key, s: &Strings, theme: ThemeId, locale: Locale) -> (action: KeyAction)
        requires
            old(self).menu.wf(),
            old(self).menu.overlays.overlay is Some ==> picker_in_range(old(self).menu.overlays.overlay->0),
        ensures
            main_key(*old(self), *final(self), key, *s, theme, locale, action),
            final(self).menu.wf(),
    {
        if key.code == KeyCode::Char('q') && key.ctrl {
            return KeyAction::Quit;
        }
        if self.menu.popup.is_some() {
            return self.menu.handle_popup_key(key, s);
        }
        if key.code == KeyCode::Char(' ') && key.ctrl {
            let t = match &self.current_track {
                Some(t) => Some(t.clone()),
                None => None,
            };
            if let Some(t) = t {
                let fav = self.is_track_favorite(t.track_id.as_str());
                self.menu.popup = Some(PopupMenu::manage_only(t, fav, s));
            }
            return KeyAction::Continue;
        }
        if self.menu.overlays.overlay.is_some() {
            return self.handle_overlay_key(key, s, theme, locale);
        }
        if self.input_mode == InputMode::Typing {
            return self.typing_key(key);
        }
        if self.favorites_filter_typing {
            self.favorites_filter_key(key);
            return KeyAction::Continue;
        }
        if self.radio_filter_typing {
            self.radio_filter_key(key);
            return KeyAction::Continue;
        }
        self.normal_key(key, s)
    }
}

// ----- the keys that work everywhere -----

/// A dialog of the open menu takes text.
pub open spec fn popup_typing(v: ClientView) -> bool {
    match v.menu.popup {
        Some(p) => p.sub_menu matches Some(SubMenu::CreatePlaylistInput { .. })
            || p.sub_menu matches Some(SubMenu::RenamePlaylistInput { .. }),
        None => false,
    }
}

/// Some text is being typed: the search field, a filter or a dialog.
pub open spec fn text_entry(v: ClientView) -> bool {
    v.input_mode == InputMode::Typing || v.radio_filter_typing || v.favorites_filter_typing || popup_typing(v)
}

/// `post` opens overlay `o` over `pre`'s, or goes back when `o`'s kind is
/// already open (`is_open`).
pub open spec fn toggles(pre: ClientView, post: ClientView, o: Overlay, is_open: bool) -> bool {
    &&& post == with_overlays(pre, post.menu.overlays)
    &&& if is_open {
        popped(pre.menu.overlays, post.menu.overlays)
    } else {
        pushed(pre.menu.overlays, post.menu.overlays, o)
    }
}

/// A key of the client, on either screen.
pub open spec fn any_key(
    pre: ClientView,
    post: ClientView,
    lpre: LoginView,
    lpost: LoginView,
    key: Key,
    s: Strings,
    theme: ThemeId,
    locale: Locale,
    action: KeyAction,
) -> bool {
    let c = key.code;
    let top = pre.menu.overlays.overlay;
    let free = pre.screen == Screen::Main && !text_entry(pre);
    if c == KeyCode::Char('c') && key.ctrl {
        post == pre && lpost == lpre && action is Detach
    } else if c == KeyCode::Char('?') && free {
        lpost == lpre && action is Continue
            && toggles(pre, post, Overlay::Help { scroll: 0 }, top matches Some(Overlay::Help { .. }))
    } else if c == KeyCode::Char('i') && free {
        lpost == lpre && action is Continue && toggles(pre, post, Overlay::Info, top == Some(Overlay::Info))
    } else if c == KeyCode::Char('o') && key.ctrl {
        lpost == lpre && action is Continue
            && toggles(pre, post, Overlay::Settings { selected: 0 }, top matches Some(Overlay::Settings { .. }))
    } else if c == KeyCode::Char('f') && key.ctrl {
        lpost == lpre && action is Continue && if pre.screen == Screen::Main {
            slash_key(pre, post)
        } else {
            post == pre
        }
    } else if c == KeyCode::Right && key.ctrl {
        post == pre && lpost == lpre && action == KeyAction::SendCommand(Command::SeekForward { secs: 10 })
    } else if c == KeyCode::Left && key.ctrl {
        post == pre && lpost == lpre && action == KeyAction::SendCommand(Command::SeekBackward { secs: 10 })
    } else if (c == KeyCode::Char('z') || c == KeyCode::Char('Z')) && key.ctrl {
        post == pre && lpost == lpre && action is Detach
    } else if pre.screen == Screen::Login {
        post == pre && login_key(lpre, lpost, key, action)
    } else {
        lpost == lpre && main_key(pre, post, key, s, theme, locale, action)
    }
}

impl ClientView {
    fn popup_typing(&self) -> (b: bool)
        ensures
            b == popup_typing(*self),
    {
        match &self.menu.popup {
            Some(p) => match &p.sub_menu {
                Some(SubMenu::CreatePlaylistInput { .. }) => true,
                Some(SubMenu::RenamePlaylistInput { .. }) => true,
                _ => false,
            },
            None => false,
        }
    }

    fn toggle_overlay(&mut self, o: Overlay, is_open: bool)
        ensures
            toggles(*old(self), *final(self), o, is_open),
    {
        if is_open {
            self.menu.overlays.pop_overlay();
        } else {
            self.menu.overlays.push_overlay(o);
        }
    }

    /// Handle a key of the client: the keys that work everywhere, then the
    /// login screen's or the main screen's. `login` is the login screen's
    /// state; `theme` and `locale` are the ones in effect.
    pub fn handle_key(
        &mut self,
        login: &mut LoginView,
        key: Key,
        s: &Strings,
        theme: ThemeId,
        locale: Locale,
    ) -> (action: KeyAction)
        requires
            old(login).input.wf(),
            old(self).menu.wf(),
            old(self).menu.overlays.overlay is Some ==> picker_in_range(old(self).menu.overlays.overlay->0),
        ensures
            any_key(*old(self), *final(self), *old(login), *final(login), key, *s, theme, locale, action),
            final(login).input.wf(),
            final(self).menu.wf(),
    {
        let c = key.code;
        if c == KeyCode::Char('c') && key.ctrl {
            return KeyAction::Detach;
        }
        let free = self.screen == Screen::Main && !(self.input_mode == InputMode::Typing || self.radio_filter_typing
            || self.favorites_filter_typing || self.popup_typing());
        if c == KeyCode::Char('?') && free {
            let open = match &self.menu.overlays.overlay {
                Some(Overlay::Help { .. }) => true,
                _ => false,
            };
            self.toggle_overlay(Overlay::Help { scroll: 0 }, open);
            return KeyAction::Continue;
        }
        if c == KeyCode::Char('i') && free {
            let open = match &self.menu.overlays.overlay {
                Some(Overlay::Info) => true,
                _ => false,
            };
            self.toggle_overlay(Overlay::Info, open);
            return KeyAction::Continue;
        }
        if c == KeyCode::Char('o') && key.ctrl {
            let open = match &self.menu.overlays.overlay {
                Some(Overlay::Settings { .. }) => true,
                _ => false,
            };
            self.toggle_overlay(Overlay::Settings { selected: 0 }, open);
            return KeyAction::Continue;
        }
        if c == KeyCode::Char('f') && key.ctrl {
            if self.screen == Screen::Main {
                self.slash_key();
            }
            return KeyAction::Continue;
        }
        if c == KeyCode::Right && key.ctrl {
            return KeyAction::SendCommand(Command::SeekForward { secs: 10 });
        }
        if c == KeyCode::Left && key.ctrl {
            return KeyAction::SendCommand(Command::SeekBackward { secs: 10 });
        }
        if (c == KeyCode::Char('z') || c == KeyCode::Char('Z')) && key.ctrl {
            return KeyAction::Detach;
        }
        match self.screen {
            Screen::Login => login.handle_login_key(key),
            Screen::Main => self.handle_main_key(key, s, theme, locale),
        }
    }
}

} // verus!
