//! Keys of the main screen: lists, filters, search input and the pages
//! that they open.

use vstd::prelude::*;
use crate::i18n::Strings;
use crate::models::{TrackData, DisplayItem, AlbumDetail, clone_opt_string};
use crate::offline::OfflineTrack;
use crate::protocol::{Command, ActiveTab, OfflineCategory, RadioItem, Screen};
use crate::text::{string_of, parse_u64, parse_u64_spec};
use crate::client::{
    Key, KeyCode, KeyAction, Overlay, OverlayStack, filter_favorites, favorites_filtered, filter_radios,
    radios_filtered, clamped, clamp_selection, stepped_down, step_down, OfflineTreeItem, offline_tree_items,
    tree_rows, toggle_expanded, toggled, with_push,
};
use crate::client::popup::{MenuView, PopupMenu, PopupTarget, is_full_menu, is_manage_menu, is_artist_menu, is_album_menu, is_playlist_menu};
use crate::text::{is_white_space, trim_start, chars_of};

verus! {

/// Whether keys type into the search field.
#[derive(Debug, Clone, Copy, PartialEq, Eq, Structural)]
pub enum InputMode {
    Normal,
    Typing,
}

/// What the client shows of the daemon's state, with its own state.
#[derive(Debug)]
pub struct ClientView {
    pub screen: Screen,
    pub active_tab: ActiveTab,
    pub is_offline: bool,
    pub current_track: Option<TrackData>,
    pub favorites: Vec<TrackData>,
    pub favorite_artist_ids: Vec<String>,
    pub favorite_album_ids: Vec<String>,
    pub search_display: Vec<DisplayItem>,
    pub search_selected: usize,
    pub favorites_display: Vec<DisplayItem>,
    pub favorites_selected: usize,
    pub favorites_category: crate::protocol::FavoritesCategory,
    pub offline_category: OfflineCategory,
    pub offline_tracks: Vec<OfflineTrack>,
    pub offline_albums: Vec<AlbumDetail>,
    pub offline_selected: usize,
    pub radios: Vec<RadioItem>,
    pub radios_loading: bool,
    pub input_mode: InputMode,
    pub search_input: Vec<char>,
    pub favorites_filter_input: Vec<char>,
    pub favorites_filter_typing: bool,
    /// Original indices of the favorites rows that the filter keeps.
    pub favorites_filtered: Vec<usize>,
    pub favorites_filter_selected: usize,
    pub radio_filter_input: Vec<char>,
    pub radio_filter_typing: bool,
    pub radios_filtered: Vec<RadioItem>,
    pub radios_selected: usize,
    pub offline_tree_selected: usize,
    pub offline_expanded: Vec<String>,
    pub menu: MenuView,
    pub queue: Vec<TrackData>,
    pub queue_index: usize,
    pub album_detail: Option<AlbumDetail>,
    pub album_detail_left_scroll: u16,
    pub album_detail_left_focused: bool,
    pub album_detail_left_scrollable: bool,
    pub artist_detail: Option<crate::models::ArtistDetail>,
    pub artist_detail_sub_tab: crate::models::ArtistSubTab,
    pub artist_detail_left_scroll: u16,
    pub artist_detail_left_focused: bool,
    pub artist_detail_left_scrollable: bool,
    pub playlist_detail: Option<crate::models::PlaylistDetail>,
}

/// The favorites filter is in use: being typed or not empty.
pub open spec fn filter_active(v: ClientView) -> bool {
    v.favorites_filter_typing || v.favorites_filter_input@.len() > 0
}

/// The selected favorites row, through the filter when it is in use.
pub open spec fn favorites_item(v: ClientView) -> Option<DisplayItem> {
    if filter_active(v) {
        if v.favorites_filter_selected < v.favorites_filtered@.len()
            && v.favorites_filtered@[v.favorites_filter_selected as int] < v.favorites_display@.len() {
            Some(v.favorites_display@[v.favorites_filtered@[v.favorites_filter_selected as int] as int])
        } else {
            None
        }
    } else if v.favorites_selected < v.favorites_display@.len() {
        Some(v.favorites_display@[v.favorites_selected as int])
    } else {
        None
    }
}

/// The daemon-side index of the selected favorites row.
pub open spec fn favorites_index(v: ClientView) -> usize {
    if filter_active(v) {
        if v.favorites_filter_selected < v.favorites_filtered@.len() {
            v.favorites_filtered@[v.favorites_filter_selected as int]
        } else {
            0
        }
    } else {
        v.favorites_selected
    }
}

/// The selected row of the search or favorites list.
pub open spec fn selected_item(v: ClientView) -> Option<DisplayItem> {
    match v.active_tab {
        ActiveTab::Search => if v.search_selected < v.search_display@.len() {
            Some(v.search_display@[v.search_selected as int])
        } else {
            None
        },
        ActiveTab::Favorites => favorites_item(v),
        _ => None,
    }
}

impl ClientView {
    pub fn favorites_filter_active(&self) -> (b: bool)
        ensures
            b == filter_active(*self),
    {
        self.favorites_filter_typing || self.favorites_filter_input.len() > 0
    }

    /// The selected favorites row, through the filter when it is in use.
    pub fn favorites_selected_item(&self) -> (r: Option<&DisplayItem>)
        ensures
            r is Some == favorites_item(*self) is Some,
            r is Some ==> *r->0 == favorites_item(*self)->0,
    {
        if self.favorites_filter_active() {
            if self.favorites_filter_selected < self.favorites_filtered.len() {
                let i = self.favorites_filtered[self.favorites_filter_selected];
                if i < self.favorites_display.len() {
                    return Some(&self.favorites_display[i]);
                }
            }
            None
        } else if self.favorites_selected < self.favorites_display.len() {
            Some(&self.favorites_display[self.favorites_selected])
        } else {
            None
        }
    }

    /// The daemon-side index of the selected favorites row.
    pub fn favorites_selected_original_index(&self) -> (i: usize)
        ensures
            i == favorites_index(*self),
    {
        if self.favorites_filter_active() {
            if self.favorites_filter_selected < self.favorites_filtered.len() {
                self.favorites_filtered[self.favorites_filter_selected]
            } else {
                0
            }
        } else {
            self.favorites_selected
        }
    }

    pub(crate) fn selected_item(&self) -> (r: Option<&DisplayItem>)
        ensures
            r is Some == selected_item(*self) is Some,
            r is Some ==> *r->0 == selected_item(*self)->0,
    {
        match self.active_tab {
            ActiveTab::Search => if self.search_selected < self.search_display.len() {
                Some(&self.search_display[self.search_selected])
            } else {
                None
            },
            ActiveTab::Favorites => self.favorites_selected_item(),
            _ => None,
        }
    }

    /// Re-apply the favorites filter; the selection stays inside the kept rows.
    pub fn apply_favorites_filter(&mut self)
        ensures
            final(self).favorites_filtered@.map_values(|x: usize| x as int)
                == favorites_filtered(old(self).favorites_filter_input@, old(self).favorites_display@),
            final(self).favorites_filter_selected as int
                == clamped(old(self).favorites_filter_selected as int, final(self).favorites_filtered@.len() as int),
            *final(self) == (ClientView {
                favorites_filtered: final(self).favorites_filtered,
                favorites_filter_selected: final(self).favorites_filter_selected,
                ..*old(self)
            }),
    {
        let q = string_of(self.favorites_filter_input.as_slice());
        let f = filter_favorites(q.as_str(), &self.favorites_display);
        self.favorites_filter_selected = clamp_selection(self.favorites_filter_selected, f.len());
        self.favorites_filtered = f;
    }

    /// Re-apply the radio filter; the selection goes back to the first row.
    pub fn apply_radio_filter(&mut self)
        ensures
            final(self).radios_filtered@ == radios_filtered(old(self).radio_filter_input@, old(self).radios@),
            *final(self) == (ClientView {
                radios_filtered: final(self).radios_filtered,
                radios_selected: 0,
                ..*old(self)
            }),
    {
        let q = string_of(self.radio_filter_input.as_slice());
        self.radios_filtered = filter_radios(q.as_str(), &self.radios);
        self.radios_selected = 0;
    }
}


// ----- opening pages and menus -----

/// The album of the selected row: its own, or its track's.
pub open spec fn album_of_selection(v: ClientView) -> Option<String> {
    match selected_item(v) {
        Some(i) => match i.album_id {
            Some(a) => Some(a),
            None => match i.track {
                Some(t) => t.album_id,
                None => None,
            },
        },
        None => None,
    }
}

/// The artist of the selected row: its own, or its track's.
pub open spec fn artist_of_selection(v: ClientView) -> Option<String> {
    match selected_item(v) {
        Some(i) => match i.artist_id {
            Some(a) => Some(a),
            None => match i.track {
                Some(t) => t.artist_id,
                None => None,
            },
        },
        None => None,
    }
}

/// `post`'s overlays after entering page `o` from the main content.
pub open spec fn entered_page(pre: OverlayStack, post: OverlayStack, o: Overlay) -> bool {
    &&& post.overlay == Some(o)
    &&& post.stack@.len() == 0
    &&& post.nav_changes@ == (match crate::client::nav_of(o) {
        Some(n) => pre.nav_changes@.push(crate::client::NavChange::Clear).push(crate::client::NavChange::Push(n)),
        None => pre.nav_changes@,
    })
}

/// Opening the album page of the selected row.
pub open spec fn opens_album(pre: ClientView, post: ClientView, action: KeyAction) -> bool {
    match album_of_selection(pre) {
        Some(id) => {
            &&& entered_page(pre.menu.overlays, post.menu.overlays, Overlay::AlbumDetail { from_artist: false })
            &&& post == (ClientView {
                menu: MenuView { overlays: post.menu.overlays, album_detail_selected: 0, ..pre.menu },
                ..pre
            })
            &&& action matches KeyAction::SendCommand(Command::GetAlbumDetail { album_id }) && album_id == id
        },
        None => post == pre && action is Continue,
    }
}

/// Opening the artist page of the selected row.
pub open spec fn opens_artist(pre: ClientView, post: ClientView, action: KeyAction) -> bool {
    match artist_of_selection(pre) {
        Some(id) => {
            &&& entered_page(pre.menu.overlays, post.menu.overlays, Overlay::ArtistDetail)
            &&& post == (ClientView {
                menu: MenuView { overlays: post.menu.overlays, artist_detail_selected: 0, ..pre.menu },
                ..pre
            })
            &&& action matches KeyAction::SendCommand(Command::GetArtistDetail { artist_id }) && artist_id == id
        },
        None => post == pre && action is Continue,
    }
}

impl ClientView {
    /// Open the album page of the selected row.
    pub fn open_album_detail(&mut self) -> (action: KeyAction)
        ensures
            opens_album(*old(self), *final(self), action),
    {
        let album_id = match self.selected_item() {
            Some(item) => match &item.album_id {
                Some(a) => Some(a.clone()),
                None => match &item.track {
                    Some(t) => clone_opt_string(&t.album_id),
                    None => None,
                },
            },
            None => None,
        };
        match album_id {
            Some(album_id) => {
                self.menu.overlays.set_nav_overlay(Overlay::AlbumDetail { from_artist: false });
                self.menu.album_detail_selected = 0;
                KeyAction::SendCommand(Command::GetAlbumDetail { album_id })
            }
            None => KeyAction::Continue,
        }
    }

    /// Open the artist page of the selected row.
    pub fn open_artist_detail(&mut self) -> (action: KeyAction)
        ensures
            opens_artist(*old(self), *final(self), action),
    {
        let artist_id = match self.selected_item() {
            Some(item) => match &item.artist_id {
                Some(a) => Some(a.clone()),
                None => match &item.track {
                    Some(t) => clone_opt_string(&t.artist_id),
                    None => None,
                },
            },
            None => None,
        };
        match artist_id {
            Some(artist_id) => {
                self.menu.overlays.set_nav_overlay(Overlay::ArtistDetail);
                self.menu.artist_detail_selected = 0;
                KeyAction::SendCommand(Command::GetArtistDetail { artist_id })
            }
            None => KeyAction::Continue,
        }
    }
}

// ----- the offline albums tree -----

/// The selected row of the offline albums tree.
pub open spec fn tree_selection(v: ClientView) -> Option<OfflineTreeItem> {
    let rows = tree_rows(v.offline_albums@, v.offline_expanded@, v.offline_albums@.len() as int);
    if v.offline_tree_selected < rows.len() { Some(rows[v.offline_tree_selected as int]) } else { None }
}

/// Enter on the offline albums tree: play the album from its first track,
/// or from the selected track.
pub open spec fn tree_enter(v: ClientView, action: KeyAction) -> bool {
    match tree_selection(v) {
        Some(OfflineTreeItem::Album(a)) => if a < v.offline_albums@.len() {
            action matches KeyAction::SendCommand(Command::PlayOfflineAlbum { album_id, track_index })
                && album_id == v.offline_albums@[a as int].album_id && track_index == 0
        } else {
            action is Continue
        },
        Some(OfflineTreeItem::Track(a, t)) => if a < v.offline_albums@.len() {
            action matches KeyAction::SendCommand(Command::PlayOfflineAlbum { album_id, track_index })
                && album_id == v.offline_albums@[a as int].album_id && track_index == t
        } else {
            action is Continue
        },
        None => action is Continue,
    }
}

/// Expanding or folding the selected album of the offline tree.
pub open spec fn tree_toggle(pre: ClientView, post: ClientView) -> bool {
    match tree_selection(pre) {
        Some(OfflineTreeItem::Album(a)) => if a < pre.offline_albums@.len() {
            &&& post.offline_expanded@.map_values(|e: String| e@)
                == toggled(pre.offline_expanded@, pre.offline_albums@[a as int].album_id@)
            &&& post == (ClientView { offline_expanded: post.offline_expanded, ..pre })
        } else {
            post == pre
        },
        _ => post == pre,
    }
}

impl ClientView {
    fn tree_selected(&self) -> (r: Option<OfflineTreeItem>)
        ensures
            r == tree_selection(*self),
    {
        let rows = offline_tree_items(&self.offline_albums, &self.offline_expanded);
        if self.offline_tree_selected < rows.len() { Some(rows[self.offline_tree_selected]) } else { None }
    }

    pub fn handle_offline_tree_enter(&self) -> (action: KeyAction)
        ensures
            tree_enter(*self, action),
    {
        let (a, t) = match self.tree_selected() {
            Some(OfflineTreeItem::Album(a)) => (a, 0),
            Some(OfflineTreeItem::Track(a, t)) => (a, t),
            None => return KeyAction::Continue,
        };
        if a < self.offline_albums.len() {
            KeyAction::SendCommand(Command::PlayOfflineAlbum {
                album_id: self.offline_albums[a].album_id.clone(),
                track_index: t,
            })
        } else {
            KeyAction::Continue
        }
    }

    pub fn handle_offline_tree_toggle(&mut self)
        ensures
            tree_toggle(*old(self), *final(self)),
    {
        if let Some(OfflineTreeItem::Album(a)) = self.tree_selected() {
            if a < self.offline_albums.len() {
                let id = self.offline_albums[a].album_id.clone();
                toggle_expanded(&mut self.offline_expanded, id.as_str());
            }
        }
    }
}


// ----- context menus -----

/// Some favorite track has this id.
pub open spec fn track_favorite(v: ClientView, id: Seq<char>) -> bool {
    exists|i: int| 0 <= i < v.favorites@.len() && (#[trigger] v.favorites@[i]).track_id@ == id
}

/// Some listed id is `id`.
pub open spec fn id_listed(ids: Seq<String>, id: Seq<char>) -> bool {
    exists|i: int| 0 <= i < ids.len() && (#[trigger] ids[i])@ == id
}

/// The characters of `s` before its first white space.
pub open spec fn leading_word(s: Seq<char>) -> Seq<char>
    decreases s.len(),
{
    if s.len() == 0 || is_white_space(s[0]) { seq![] } else { seq![s[0]] + leading_word(s.drop_first()) }
}

/// The song count shown in a playlist row's third column: its first word
/// as a number, or 0.
pub open spec fn row_song_count(col3: Seq<char>) -> u64 {
    match parse_u64_spec(leading_word(trim_start(col3))) {
        Some(n) => n,
        None => 0,
    }
}

/// The track that a context menu opens on when the row is no artist,
/// album or playlist.
pub open spec fn popup_track(v: ClientView) -> Option<TrackData> {
    match v.active_tab {
        ActiveTab::Search | ActiveTab::Favorites => match selected_item(v) {
            Some(i) => i.track,
            None => None,
        },
        ActiveTab::Downloads => match v.offline_category {
            OfflineCategory::Tracks => if v.offline_selected < v.offline_tracks@.len() {
                Some(v.offline_tracks@[v.offline_selected as int].track)
            } else {
                None
            },
            OfflineCategory::Albums => match tree_selection(v) {
                Some(OfflineTreeItem::Track(a, t)) => if a < v.offline_albums@.len()
                    && t < v.offline_albums@[a as int].tracks@.len() {
                    Some(v.offline_albums@[a as int].tracks@[t as int])
                } else {
                    None
                },
                _ => None,
            },
        },
        ActiveTab::Radio => None,
    }
}

/// `post` is `pre` with only the menu changed.
pub open spec fn only_popup_changed(pre: ClientView, post: ClientView) -> bool {
    post == (ClientView { menu: MenuView { popup: post.menu.popup, ..pre.menu }, ..pre })
}

/// Opening the context menu of the selected row.
pub open spec fn item_popup(pre: ClientView, post: ClientView, s: Strings) -> bool {
    let item = selected_item(pre);
    if item is Some && item->0.track is None && item->0.artist_id is Some {
        let i = item->0;
        only_popup_changed(pre, post) && post.menu.popup is Some && is_artist_menu(post.menu.popup->0,
            i.artist_id->0, i.col1, id_listed(pre.favorite_artist_ids@, i.artist_id->0@), s)
    } else if item is Some && item->0.track is None && item->0.album_id is Some {
        let i = item->0;
        only_popup_changed(pre, post) && post.menu.popup is Some && is_album_menu(post.menu.popup->0,
            i.album_id->0, i.col1, i.col2, id_listed(pre.favorite_album_ids@, i.album_id->0@), s)
    } else if item is Some && item->0.track is None && item->0.playlist_id is Some {
        let i = item->0;
        only_popup_changed(pre, post) && post.menu.popup is Some && is_playlist_menu(post.menu.popup->0,
            i.playlist_id->0, i.col1, row_song_count(i.col3@), s)
    } else {
        match popup_track(pre) {
            Some(t) => only_popup_changed(pre, post) && post.menu.popup is Some
                && is_full_menu(post.menu.popup->0, t, track_favorite(pre, t.track_id@), s),
            None => post == pre,
        }
    }
}

fn ids_contain(ids: &Vec<String>, id: &str) -> (b: bool)
    ensures
        b == id_listed(ids@, id@),
{
    for k in 0..ids.len()
        invariant
            forall|m: int| 0 <= m < k ==> (#[trigger] ids@[m])@ != id@,
    {
        if crate::offline::str_eq(ids[k].as_str(), id) {
            return true;
        }
    }
    false
}

proof fn lemma_trim_start_index(s: Seq<char>, i: int)
    requires
        0 <= i <= s.len(),
        forall|k: int| 0 <= k < i ==> is_white_space(#[trigger] s[k]),
        i == s.len() || !is_white_space(s[i]),
    ensures
        trim_start(s) == s.skip(i),
    decreases i,
{
    if i > 0 {
        lemma_trim_start_index(s.drop_first(), i - 1);
        assert(s.drop_first().skip(i - 1) =~= s.skip(i));
    } else {
        assert(s.skip(0) =~= s);
    }
}

proof fn lemma_leading_word(s: Seq<char>, j: int)
    requires
        0 <= j <= s.len(),
        forall|k: int| 0 <= k < j ==> !is_white_space(#[trigger] s[k]),
        j == s.len() || is_white_space(s[j]),
    ensures
        leading_word(s) == s.take(j),
    decreases j,
{
    if j > 0 {
        lemma_leading_word(s.drop_first(), j - 1);
        assert(seq![s[0]] + s.drop_first().take(j - 1) =~= s.take(j));
    } else {
        assert(s.take(0) =~= Seq::<char>::empty());
    }
}

/// The song count of a playlist row's third column.
pub fn song_count_of(col3: &str) -> (n: u64)
    ensures
        n == row_song_count(col3@),
{
    let v = chars_of(col3);
    let mut i: usize = 0;
    while i < v.len() && crate::text::char_is_white_space(v[i])
        invariant
            v@ == col3@,
            i <= v@.len(),
            forall|k: int| 0 <= k < i ==> is_white_space(#[trigger] v@[k]),
        decreases v@.len() - i,
    {
        i += 1;
    }
    proof { lemma_trim_start_index(v@, i as int); }
    let mut j = i;
    while j < v.len() && !crate::text::char_is_white_space(v[j])
        invariant
            v@ == col3@,
            i <= j <= v@.len(),
            forall|k: int| i <= k < j ==> !is_white_space(#[trigger] v@[k]),
        decreases v@.len() - j,
    {
        j += 1;
    }
    proof {
        let t = v@.skip(i as int);
        assert forall|k: int| 0 <= k < j - i implies !is_white_space(#[trigger] t[k]) by {
            assert(t[k] == v@[k + i]);
        }
        if j < v@.len() {
            assert(t[j - i] == v@[j as int]);
        }
        lemma_leading_word(t, j - i);
    }
    let mut word: Vec<char> = Vec::new();
    let mut k = i;
    while k < j
        invariant
            i <= k <= j <= v@.len(),
            word@ == v@.subrange(i as int, k as int),
        decreases j - k,
    {
        word.push(v[k]);
        assert(v@.subrange(i as int, k + 1) =~= v@.subrange(i as int, k as int).push(v@[k as int]));
        k += 1;
    }
    assert(word@ =~= v@.skip(i as int).take(j - i));
    let w = string_of(word.as_slice());
    match parse_u64(w.as_str()) {
        Some(n) => n,
        None => 0,
    }
}

impl ClientView {
    pub fn is_track_favorite(&self, track_id: &str) -> (b: bool)
        ensures
            b == track_favorite(*self, track_id@),
    {
        for k in 0..self.favorites.len()
            invariant
                forall|m: int| 0 <= m < k ==> (#[trigger] self.favorites@[m]).track_id@ != track_id@,
        {
            if crate::offline::str_eq(self.favorites[k].track_id.as_str(), track_id) {
                return true;
            }
        }
        false
    }

    fn popup_track(&self) -> (r: Option<TrackData>)
        ensures
            r == popup_track(*self),
    {
        match self.active_tab {
            ActiveTab::Search | ActiveTab::Favorites => match self.selected_item() {
                Some(i) => match &i.track {
                    Some(t) => Some(t.clone()),
                    None => None,
                },
                None => None,
            },
            ActiveTab::Downloads => match self.offline_category {
                OfflineCategory::Tracks => if self.offline_selected < self.offline_tracks.len() {
                    Some(self.offline_tracks[self.offline_selected].track.clone())
                } else {
                    None
                },
                OfflineCategory::Albums => match self.tree_selected() {
                    Some(OfflineTreeItem::Track(a, t)) => if a < self.offline_albums.len()
                        && t < self.offline_albums[a].tracks.len() {
                        Some(self.offline_albums[a].tracks[t].clone())
                    } else {
                        None
                    },
                    _ => None,
                },
            },
            ActiveTab::Radio => None,
        }
    }

    /// Open the context menu of the selected row.
    pub fn open_item_popup(&mut self, s: &Strings)
        ensures
            item_popup(*old(self), *final(self), *s),
    {
        let menu = match self.selected_item() {
            Some(item) => {
                if item.track.is_none() && item.artist_id.is_some() {
                    let artist_id = match &item.artist_id { Some(a) => a.clone(), None => String::new() };
                    let fav = ids_contain(&self.favorite_artist_ids, artist_id.as_str());
                    Some(PopupMenu::for_artist(artist_id, item.col1.clone(), fav, s))
                } else if item.track.is_none() && item.album_id.is_some() {
                    let album_id = match &item.album_id { Some(a) => a.clone(), None => String::new() };
                    let fav = ids_contain(&self.favorite_album_ids, album_id.as_str());
                    Some(PopupMenu::for_album(album_id, item.col1.clone(), item.col2.clone(), fav, s))
                } else if item.track.is_none() && item.playlist_id.is_some() {
                    let playlist_id = match &item.playlist_id { Some(a) => a.clone(), None => String::new() };
                    let n = song_count_of(item.col3.as_str());
                    Some(PopupMenu::for_playlist(playlist_id, item.col1.clone(), n, s))
                } else {
                    None
                }
            }
            None => None,
        };
        match menu {
            Some(m) => {
                self.menu.popup = Some(m);
            }
            None => {
                if let Some(track) = self.popup_track() {
                    let fav = self.is_track_favorite(track.track_id.as_str());
                    self.menu.popup = Some(PopupMenu::full(track, fav, s));
                }
            }
        }
    }
}

} // verus!
