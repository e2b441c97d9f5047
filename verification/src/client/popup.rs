//! Context menus of tracks, artists, albums and playlists, and their keys.

use vstd::prelude::*;
use crate::i18n::Strings;
use crate::models::{TrackData, PlaylistData, clone_playlists};
use crate::protocol::Command;
use crate::text::{push_all, trim, trim_chars, string_of, chars_of};
use crate::client::{Key, KeyCode, KeyAction, TextField, edited, Overlay, OverlayStack, Toast, with_push};

verus! {

/// What a menu entry does.
#[derive(Debug, Clone, Copy, PartialEq, Eq, Structural)]
pub enum PopupAction {
    Header,
    ToggleFavorite,
    ToggleFavoriteArtist,
    ToggleFavoriteAlbum,
    AddToPlaylist,
    RemoveFromPlaylist,
    DownloadOffline,
    DislikeTrack,
    PlayNext,
    AddToQueue,
    MixFromTrack,
    Share,
    TrackInfo,
    ViewAlbum,
    ViewArtist,
    RenamePlaylist,
    DeletePlaylist,
}

/// What a menu is about.
#[derive(Debug)]
pub enum PopupTarget {
    Track(TrackData),
    Artist { artist_id: String, name: String },
    Album { album_id: String, title: String, artist: String },
    Playlist { playlist_id: String, title: String, nb_songs: u64 },
}

/// A menu entry.
#[derive(Debug)]
pub struct PopupMenuItem {
    pub label: String,
    pub action: PopupAction,
    pub is_header: bool,
}

/// A dialog opened from a menu.
#[derive(Debug)]
pub enum SubMenu {
    /// Choose a playlist; row 0 creates a new one.
    PlaylistPicker { playlists: Vec<PlaylistData>, selected: usize, loading: bool },
    TrackInfo,
    /// Name of a new playlist to create with the track.
    CreatePlaylistInput { name: TextField },
    /// New name of the playlist.
    RenamePlaylistInput { name: TextField },
    /// Confirm deleting a playlist that holds tracks.
    ConfirmDeletePlaylist { confirm_yes: bool },
}

/// A context menu.
#[derive(Debug)]
pub struct PopupMenu {
    pub title: Option<String>,
    pub items: Vec<PopupMenuItem>,
    pub selected: usize,
    pub target: PopupTarget,
    pub is_favorite: bool,
    pub sub_menu: Option<SubMenu>,
    /// The playlist whose page the menu was opened from.
    pub playlist_context: Option<String>,
}

/// The entries of a menu, by label, action and header flag.
pub open spec fn entries(items: Seq<PopupMenuItem>) -> Seq<(Seq<char>, PopupAction, bool)> {
    Seq::new(items.len(), |i: int| (items[i].label@, items[i].action, items[i].is_header))
}

/// The label of the favorite entry.
pub open spec fn fav_label(s: Strings, is_favorite: bool) -> Seq<char> {
    if is_favorite { s.remove_from_favorites@ } else { s.add_to_favorites@ }
}

/// Entries of the full track menu.
pub open spec fn full_entries(s: Strings, is_favorite: bool) -> Seq<(Seq<char>, PopupAction, bool)> {
    seq![
        (s.menu_manage@, PopupAction::Header, true),
        (fav_label(s, is_favorite), PopupAction::ToggleFavorite, false),
        (s.add_to_playlist@, PopupAction::AddToPlaylist, false),
        (s.download_for_offline@, PopupAction::DownloadOffline, false),
        (s.dont_recommend@, PopupAction::DislikeTrack, false),
        (s.menu_playback@, PopupAction::Header, true),
        (s.play_next@, PopupAction::PlayNext, false),
        (s.add_to_queue@, PopupAction::AddToQueue, false),
        (s.mix_inspired@, PopupAction::MixFromTrack, false),
        (s.menu_media@, PopupAction::Header, true),
        (s.track_album@, PopupAction::ViewAlbum, false),
        (s.track_artist@, PopupAction::ViewArtist, false),
        (s.share@, PopupAction::Share, false),
        (s.track_info@, PopupAction::TrackInfo, false),
    ]
}

/// Entries of the track menu on a playlist page: "remove from this
/// playlist" in place of "add to playlist".
pub open spec fn in_playlist_entries(s: Strings, is_favorite: bool) -> Seq<(Seq<char>, PopupAction, bool)> {
    full_entries(s, is_favorite).update(2, (s.remove_from_playlist@, PopupAction::RemoveFromPlaylist, false))
}

/// Entries of the menu of the track that plays.
pub open spec fn manage_entries(s: Strings, is_favorite: bool) -> Seq<(Seq<char>, PopupAction, bool)> {
    seq![
        (s.menu_manage@, PopupAction::Header, true),
        (fav_label(s, is_favorite), PopupAction::ToggleFavorite, false),
        (s.add_to_playlist@, PopupAction::AddToPlaylist, false),
        (s.download_for_offline@, PopupAction::DownloadOffline, false),
        (s.dont_recommend@, PopupAction::DislikeTrack, false),
        (s.track_info@, PopupAction::TrackInfo, false),
    ]
}

fn item(label: &str, action: PopupAction, is_header: bool) -> (i: PopupMenuItem)
    ensures
        i.label@ == label@,
        i.action == action,
        i.is_header == is_header,
{
    let mut l = String::new();
    push_all(&mut l, label);
    PopupMenuItem { label: l, action, is_header }
}

fn fav_text(s: &Strings, is_favorite: bool) -> (r: &'static str)
    ensures
        r@ == fav_label(*s, is_favorite),
{
    if is_favorite { s.remove_from_favorites } else { s.add_to_favorites }
}

/// The entry a cyclic search for a selectable entry, after `pos` and in
/// `steps` tries, finds.
pub open spec fn scan_next(headers: Seq<bool>, pos: int, steps: int) -> Option<int>
    decreases steps,
{
    if steps <= 0 || headers.len() == 0 {
        None
    } else {
        let p = if pos >= headers.len() { 0 } else { pos };
        if !headers[p] { Some(p) } else { scan_next(headers, p + 1, steps - 1) }
    }
}

/// The entry a backwards cyclic search for a selectable entry, from `pos`
/// and in `steps` tries, finds.
pub open spec fn scan_prev(headers: Seq<bool>, pos: int, steps: int) -> Option<int>
    decreases steps,
{
    if steps <= 0 || headers.len() == 0 {
        None
    } else if !headers[pos] {
        Some(pos)
    } else {
        scan_prev(headers, if pos == 0 { headers.len() - 1 } else { pos - 1 }, steps - 1)
    }
}

/// The header flags of the entries.
pub open spec fn header_flags(items: Seq<PopupMenuItem>) -> Seq<bool> {
    Seq::new(items.len(), |i: int| items[i].is_header)
}

/// The selection after moving down: the next selectable entry, wrapping
/// round; unchanged when there is none.
pub open spec fn selected_after_next(m: PopupMenu) -> usize {
    match scan_next(header_flags(m.items@), m.selected + 1, m.items@.len() as int) {
        Some(p) => p as usize,
        None => m.selected,
    }
}

/// The selection after moving up.
pub open spec fn selected_after_prev(m: PopupMenu) -> usize {
    let len = m.items@.len() as int;
    match scan_prev(header_flags(m.items@), if m.selected == 0 { len - 1 } else { m.selected - 1 }, len) {
        Some(p) => p as usize,
        None => m.selected,
    }
}

/// `m` is the full menu of `track`.
pub open spec fn is_full_menu(m: PopupMenu, track: TrackData, is_favorite: bool, s: Strings) -> bool {
    &&& m.wf()
    &&& entries(m.items@) == full_entries(s, is_favorite)
    &&& m.title is None && m.selected == 1 && m.target == PopupTarget::Track(track)
    &&& m.is_favorite == is_favorite && m.sub_menu is None && m.playlist_context is None
}

/// `m` is the menu of the track that plays.
pub open spec fn is_manage_menu(m: PopupMenu, track: TrackData, is_favorite: bool, s: Strings) -> bool {
    &&& m.wf()
    &&& entries(m.items@) == manage_entries(s, is_favorite)
    &&& m.title is Some && m.title->0@ == track.title@ + " — "@ + track.artist@
    &&& m.selected == 1 && m.target == PopupTarget::Track(track)
    &&& m.is_favorite == is_favorite && m.sub_menu is None && m.playlist_context is None
}

/// `m` is the menu of an artist.
pub open spec fn is_artist_menu(m: PopupMenu, artist_id: String, name: String, is_favorite: bool, s: Strings) -> bool {
    &&& m.wf()
    &&& entries(m.items@) == seq![
        (s.menu_manage@, PopupAction::Header, true),
        (fav_label(s, is_favorite), PopupAction::ToggleFavoriteArtist, false),
        (s.track_artist@, PopupAction::ViewArtist, false),
    ]
    &&& m.title is Some && m.title->0@ == " "@ + name@ + " "@
    &&& m.selected == 1 && m.target == (PopupTarget::Artist { artist_id, name })
    &&& m.is_favorite == is_favorite && m.sub_menu is None && m.playlist_context is None
}

/// `m` is the menu of an album.
pub open spec fn is_album_menu(m: PopupMenu, album_id: String, title: String, artist: String, is_favorite: bool, s: Strings) -> bool {
    &&& m.wf()
    &&& entries(m.items@) == seq![
        (s.menu_manage@, PopupAction::Header, true),
        (fav_label(s, is_favorite), PopupAction::ToggleFavoriteAlbum, false),
        (s.track_album@, PopupAction::ViewAlbum, false),
    ]
    &&& m.title is Some && m.title->0@ == " "@ + title@ + " — "@ + artist@ + " "@
    &&& m.selected == 1 && m.target == (PopupTarget::Album { album_id, title, artist })
    &&& m.is_favorite == is_favorite && m.sub_menu is None && m.playlist_context is None
}

/// `m` is the menu of a playlist.
pub open spec fn is_playlist_menu(m: PopupMenu, playlist_id: String, title: String, nb_songs: u64, s: Strings) -> bool {
    &&& m.wf()
    &&& entries(m.items@) == seq![
        (s.menu_manage@, PopupAction::Header, true),
        (s.rename_playlist@, PopupAction::RenamePlaylist, false),
        (s.delete_playlist@, PopupAction::DeletePlaylist, false),
    ]
    &&& m.title is Some && m.title->0@ == " "@ + title@ + " "@
    &&& m.selected == 1 && m.target == (PopupTarget::Playlist { playlist_id, title, nb_songs })
    &&& !m.is_favorite && m.sub_menu is None && m.playlist_context is None
}

impl PopupMenu {
    /// The menu's invariant: it has entries and one of them is selected.
    pub open spec fn wf(&self) -> bool {
        0 < self.items@.len() && self.selected < self.items@.len()
    }

    /// The track the menu is about, if any.
    pub fn track(&self) -> (r: Option<&TrackData>)
        ensures
            r is Some == self.target is Track,
            r is Some ==> *r->0 == self.target->Track_0,
    {
        match &self.target {
            PopupTarget::Track(t) => Some(t),
            _ => None,
        }
    }

    /// The full menu of a track of a list.
    pub fn full(track: TrackData, is_favorite: bool, s: &Strings) -> (m: Self)
        ensures
            is_full_menu(m, track, is_favorite, *s),
    {
        let mut items: Vec<PopupMenuItem> = Vec::new();
        items.push(item(s.menu_manage, PopupAction::Header, true));
        items.push(item(fav_text(s, is_favorite), PopupAction::ToggleFavorite, false));
        items.push(item(s.add_to_playlist, PopupAction::AddToPlaylist, false));
        items.push(item(s.download_for_offline, PopupAction::DownloadOffline, false));
        items.push(item(s.dont_recommend, PopupAction::DislikeTrack, false));
        items.push(item(s.menu_playback, PopupAction::Header, true));
        items.push(item(s.play_next, PopupAction::PlayNext, false));
        items.push(item(s.add_to_queue, PopupAction::AddToQueue, false));
        items.push(item(s.mix_inspired, PopupAction::MixFromTrack, false));
        items.push(item(s.menu_media, PopupAction::Header, true));
        items.push(item(s.track_album, PopupAction::ViewAlbum, false));
        items.push(item(s.track_artist, PopupAction::ViewArtist, false));
        items.push(item(s.share, PopupAction::Share, false));
        items.push(item(s.track_info, PopupAction::TrackInfo, false));
        assert(entries(items@) =~= full_entries(*s, is_favorite));
        PopupMenu {
            title: None,
            items,
            selected: 1,
            target: PopupTarget::Track(track),
            is_favorite,
            sub_menu: None,
            playlist_context: None,
        }
    }

    /// The track menu on a playlist page.
    pub fn full_in_playlist(track: TrackData, is_favorite: bool, playlist_id: String, s: &Strings) -> (m: Self)
        ensures
            m.wf(),
            entries(m.items@) == in_playlist_entries(*s, is_favorite),
            m.title is None && m.selected == 1 && m.target == PopupTarget::Track(track),
            m.is_favorite == is_favorite && m.sub_menu is None && m.playlist_context == Some(playlist_id),
    {
        let mut m = Self::full(track, is_favorite, s);
        let ghost before = m.items@;
        assert(full_entries(*s, is_favorite).len() == 14);
        assert(entries(m.items@).len() == m.items@.len());
        m.items.set(2, item(s.remove_from_playlist, PopupAction::RemoveFromPlaylist, false));
        assert(entries(m.items@) =~= in_playlist_entries(*s, is_favorite)) by {
            assert(entries(before) == full_entries(*s, is_favorite));
            assert forall|i: int| 0 <= i < 14 && i != 2 implies entries(m.items@)[i] == entries(before)[i] by {
                assert(m.items@[i] == before[i]);
            }
        }
        m.playlist_context = Some(playlist_id);
        m
    }

    /// The menu of the track that plays, titled `"{title} — {artist}"`.
    pub fn manage_only(track: TrackData, is_favorite: bool, s: &Strings) -> (m: Self)
        ensures
            is_manage_menu(m, track, is_favorite, *s),
    {
        let mut title = String::new();
        push_all(&mut title, track.title.as_str());
        push_all(&mut title, " — ");
        push_all(&mut title, track.artist.as_str());
        let mut items: Vec<PopupMenuItem> = Vec::new();
        items.push(item(s.menu_manage, PopupAction::Header, true));
        items.push(item(fav_text(s, is_favorite), PopupAction::ToggleFavorite, false));
        items.push(item(s.add_to_playlist, PopupAction::AddToPlaylist, false));
        items.push(item(s.download_for_offline, PopupAction::DownloadOffline, false));
        items.push(item(s.dont_recommend, PopupAction::DislikeTrack, false));
        items.push(item(s.track_info, PopupAction::TrackInfo, false));
        assert(entries(items@) =~= manage_entries(*s, is_favorite));
        PopupMenu {
            title: Some(title),
            items,
            selected: 1,
            target: PopupTarget::Track(track),
            is_favorite,
            sub_menu: None,
            playlist_context: None,
        }
    }

    /// The menu of an artist, titled `" {name} "`.
    pub fn for_artist(artist_id: String, name: String, is_favorite: bool, s: &Strings) -> (m: Self)
        ensures
            is_artist_menu(m, artist_id, name, is_favorite, *s),
    {
        let mut title = String::new();
        push_all(&mut title, " ");
        push_all(&mut title, name.as_str());
        push_all(&mut title, " ");
        let mut items: Vec<PopupMenuItem> = Vec::new();
        items.push(item(s.menu_manage, PopupAction::Header, true));
        items.push(item(fav_text(s, is_favorite), PopupAction::ToggleFavoriteArtist, false));
        items.push(item(s.track_artist, PopupAction::ViewArtist, false));
        assert(entries(items@) =~= seq![
            (s.menu_manage@, PopupAction::Header, true),
            (fav_label(*s, is_favorite), PopupAction::ToggleFavoriteArtist, false),
            (s.track_artist@, PopupAction::ViewArtist, false),
        ]);
        PopupMenu {
            title: Some(title),
            items,
            selected: 1,
            target: PopupTarget::Artist { artist_id, name },
            is_favorite,
            sub_menu: None,
            playlist_context: None,
        }
    }

    /// The menu of an album, titled `" {title} — {artist} "`.
    pub fn for_album(album_id: String, title: String, artist: String, is_favorite: bool, s: &Strings) -> (m: Self)
        ensures
            is_album_menu(m, album_id, title, artist, is_favorite, *s),
    {
        let mut t = String::new();
        push_all(&mut t, " ");
        push_all(&mut t, title.as_str());
        push_all(&mut t, " — ");
        push_all(&mut t, artist.as_str());
        push_all(&mut t, " ");
        let mut items: Vec<PopupMenuItem> = Vec::new();
        items.push(item(s.menu_manage, PopupAction::Header, true));
        items.push(item(fav_text(s, is_favorite), PopupAction::ToggleFavoriteAlbum, false));
        items.push(item(s.track_album, PopupAction::ViewAlbum, false));
        assert(entries(items@) =~= seq![
            (s.menu_manage@, PopupAction::Header, true),
            (fav_label(*s, is_favorite), PopupAction::ToggleFavoriteAlbum, false),
            (s.track_album@, PopupAction::ViewAlbum, false),
        ]);
        PopupMenu {
            title: Some(t),
            items,
            selected: 1,
            target: PopupTarget::Album { album_id, title, artist },
            is_favorite,
            sub_menu: None,
            playlist_context: None,
        }
    }

    /// The menu of a playlist, titled `" {title} "`.
    pub fn for_playlist(playlist_id: String, title: String, nb_songs: u64, s: &Strings) -> (m: Self)
        ensures
            is_playlist_menu(m, playlist_id, title, nb_songs, *s),
    {
        let mut t = String::new();
        push_all(&mut t, " ");
        push_all(&mut t, title.as_str());
        push_all(&mut t, " ");
        let mut items: Vec<PopupMenuItem> = Vec::new();
        items.push(item(s.menu_manage, PopupAction::Header, true));
        items.push(item(s.rename_playlist, PopupAction::RenamePlaylist, false));
        items.push(item(s.delete_playlist, PopupAction::DeletePlaylist, false));
        assert(entries(items@) =~= seq![
            (s.menu_manage@, PopupAction::Header, true),
            (s.rename_playlist@, PopupAction::RenamePlaylist, false),
            (s.delete_playlist@, PopupAction::DeletePlaylist, false),
        ]);
        PopupMenu {
            title: Some(t),
            items,
            selected: 1,
            target: PopupTarget::Playlist { playlist_id, title, nb_songs },
            is_favorite: false,
            sub_menu: None,
            playlist_context: None,
        }
    }

    /// Move the selection to the next selectable entry.
    pub fn select_next(&mut self)
        requires
            old(self).wf(),
        ensures
            final(self).wf(),
            *final(self) == (PopupMenu { selected: selected_after_next(*old(self)), ..*old(self) }),
    {
        let ghost h = header_flags(self.items@);
        let len = self.items.len();
        let mut next = self.selected + 1;
        let mut k: usize = 0;
        while k < len
            invariant
                h == header_flags(self.items@),
                len == self.items@.len(),
                *self == *old(self),
                k <= len,
                next <= len,
                scan_next(h, old(self).selected + 1, len as int) == scan_next(h, next as int, (len - k) as int),
            decreases len - k,
        {
            if next >= len {
                next = 0;
            }
            if !self.items[next].is_header {
                self.selected = next;
                return;
            }
            next += 1;
            k += 1;
        }
    }

    /// Move the selection to the previous selectable entry.
    pub fn select_prev(&mut self)
        requires
            old(self).wf(),
        ensures
            final(self).wf(),
            *final(self) == (PopupMenu { selected: selected_after_prev(*old(self)), ..*old(self) }),
    {
        let ghost h = header_flags(self.items@);
        let len = self.items.len();
        let mut prev = if self.selected == 0 { len - 1 } else { self.selected - 1 };
        let mut k: usize = 0;
        while k < len
            invariant
                h == header_flags(self.items@),
                len == self.items@.len(),
                len > 0,
                *self == *old(self),
                k <= len,
                prev < len,
                scan_prev(h, if old(self).selected == 0 { len - 1 } else { old(self).selected - 1 }, len as int)
                    == scan_prev(h, prev as int, (len - k) as int),
            decreases len - k,
        {
            if !self.items[prev].is_header {
                self.selected = prev;
                return;
            }
            prev = if prev == 0 { len - 1 } else { prev - 1 };
            k += 1;
        }
    }
}


// ----- keys of an open menu -----

/// The part of the client's view that menus read and change.
#[derive(Debug)]
pub struct MenuView {
    pub popup: Option<PopupMenu>,
    /// The user's playlists, as last loaded.
    pub playlists: Vec<PlaylistData>,
    pub overlays: OverlayStack,
    pub toast: Option<Toast>,
    pub album_detail_selected: usize,
    pub artist_detail_selected: usize,
}

/// A text field of a dialog is well formed and can take one more character.
pub open spec fn field_ok(f: TextField) -> bool {
    f.cursor <= f.text@.len()
}

/// The dialogs' text fields are well formed.
pub open spec fn sub_menu_ok(m: Option<SubMenu>) -> bool {
    match m {
        Some(SubMenu::CreatePlaylistInput { name }) => field_ok(name),
        Some(SubMenu::RenamePlaylistInput { name }) => field_ok(name),
        _ => true,
    }
}

impl MenuView {
    /// The view's invariant.
    pub open spec fn wf(&self) -> bool {
        match self.popup {
            Some(p) => p.wf() && sub_menu_ok(p.sub_menu),
            None => true,
        }
    }
}

/// `pre` with the open menu's dialog replaced.
pub open spec fn with_sub_menu(pre: MenuView, post: MenuView) -> bool {
    &&& pre.popup is Some && post.popup is Some
    &&& post.popup->0 == (PopupMenu { sub_menu: post.popup->0.sub_menu, ..pre.popup->0 })
    &&& post == (MenuView { popup: post.popup, ..pre })
}

/// `pre` with the menu closed.
pub open spec fn closed(pre: MenuView) -> MenuView {
    MenuView { popup: None, ..pre }
}

/// The playlist picker shows the loaded playlists from its first row.
pub open spec fn picker_of(m: Option<SubMenu>, playlists: Seq<PlaylistData>, loading: bool) -> bool {
    m matches Some(SubMenu::PlaylistPicker { playlists: p, selected, loading: l })
        && p@ == playlists && selected == 0 && l == loading
}

/// The link that sharing copies.
pub open spec fn share_url(t: PopupTarget) -> Seq<char> {
    match t {
        PopupTarget::Track(track) => "https://www.deezer.com/track/"@ + track.track_id@,
        PopupTarget::Artist { artist_id, .. } => "https://www.deezer.com/artist/"@ + artist_id@,
        PopupTarget::Album { album_id, .. } => "https://www.deezer.com/album/"@ + album_id@,
        PopupTarget::Playlist { playlist_id, .. } => "https://www.deezer.com/playlist/"@ + playlist_id@,
    }
}

/// What choosing a menu entry does.
pub open spec fn popup_action_done(pre: MenuView, post: MenuView, a: PopupAction, s: Strings, action: KeyAction) -> bool {
    let p = pre.popup->0;
    let unchanged = post == pre && action is Continue;
    match a {
        PopupAction::Header => unchanged,
        PopupAction::ToggleFavorite => match p.target {
            PopupTarget::Track(t) => post == closed(pre) && (if p.is_favorite {
                action matches KeyAction::SendCommand(Command::RemoveFavorite { track_id }) && track_id == t.track_id
            } else {
                action matches KeyAction::SendCommand(Command::AddFavorite { track_id }) && track_id == t.track_id
            }),
            _ => unchanged,
        },
        PopupAction::ToggleFavoriteArtist => match p.target {
            PopupTarget::Artist { artist_id, .. } => post == closed(pre) && (if p.is_favorite {
                action matches KeyAction::SendCommand(Command::RemoveFavoriteArtist { artist_id: a }) && a == artist_id
            } else {
                action matches KeyAction::SendCommand(Command::AddFavoriteArtist { artist_id: a }) && a == artist_id
            }),
            _ => unchanged,
        },
        PopupAction::ToggleFavoriteAlbum => match p.target {
            PopupTarget::Album { album_id, .. } => post == closed(pre) && (if p.is_favorite {
                action matches KeyAction::SendCommand(Command::RemoveFavoriteAlbum { album_id: a }) && a == album_id
            } else {
                action matches KeyAction::SendCommand(Command::AddFavoriteAlbum { album_id: a }) && a == album_id
            }),
            _ => unchanged,
        },
        PopupAction::AddToPlaylist => with_sub_menu(pre, post) && if pre.playlists@.len() == 0 {
            picker_of(post.popup->0.sub_menu, seq![], true)
                && (action matches KeyAction::SendCommand(Command::RequestPlaylists))
        } else {
            picker_of(post.popup->0.sub_menu, pre.playlists@, false) && action is Continue
        },
        PopupAction::DownloadOffline => match p.target {
            PopupTarget::Track(t) => post == closed(pre)
                && (action matches KeyAction::SendCommand(Command::DownloadOffline { track }) && track == t),
            _ => unchanged,
        },
        PopupAction::DislikeTrack => match p.target {
            PopupTarget::Track(t) => post == closed(pre)
                && (action matches KeyAction::SendCommand(Command::DislikeTrack { track_id }) && track_id == t.track_id),
            _ => unchanged,
        },
        PopupAction::PlayNext => match p.target {
            PopupTarget::Track(t) => post == closed(pre)
                && (action matches KeyAction::SendCommand(Command::PlayNext { track }) && track == t),
            _ => unchanged,
        },
        PopupAction::AddToQueue => match p.target {
            PopupTarget::Track(t) => post == closed(pre)
                && (action matches KeyAction::SendCommand(Command::AddToQueue { track }) && track == t),
            _ => unchanged,
        },
        PopupAction::MixFromTrack => match p.target {
            PopupTarget::Track(t) => post == closed(pre)
                && (action matches KeyAction::SendCommand(Command::StartMix { track_id }) && track_id == t.track_id),
            _ => unchanged,
        },
        PopupAction::Share => post == closed(pre) && (action matches KeyAction::CopyLink { url } && url@ == share_url(p.target)),
        PopupAction::TrackInfo => with_sub_menu(pre, post) && post.popup->0.sub_menu == Some(SubMenu::TrackInfo)
            && action is Continue,
        PopupAction::ViewAlbum => {
            let album_id = match p.target {
                PopupTarget::Track(t) => t.album_id,
                PopupTarget::Album { album_id, .. } => Some(album_id),
                _ => None,
            };
            match album_id {
                Some(id) => {
                    &&& post.popup is None && post.album_detail_selected == 0
                    &&& post.overlays.overlay == Some(Overlay::AlbumDetail { from_artist: false })
                    &&& post.overlays.stack@ == (match pre.overlays.overlay {
                        Some(cur) => pre.overlays.stack@.push(cur),
                        None => pre.overlays.stack@,
                    })
                    &&& post.overlays.nav_changes@ == with_push(pre.overlays.nav_changes@, Overlay::AlbumDetail { from_artist: false })
                    &&& post == (MenuView { popup: None, overlays: post.overlays, album_detail_selected: 0, ..pre })
                    &&& action matches KeyAction::SendCommand(Command::GetAlbumDetail { album_id }) && album_id == id
                },
                None => {
                    &&& post == (MenuView { popup: None, toast: post.toast, ..pre })
                    &&& post.toast matches Some(t) && t.message@ == s.no_album_info@ && t.duration_ms == 2000 && !t.is_error
                    &&& action is Continue
                },
            }
        },
        PopupAction::ViewArtist => {
            let artist_id = match p.target {
                PopupTarget::Track(t) => t.artist_id,
                PopupTarget::Artist { artist_id, .. } => Some(artist_id),
                _ => None,
            };
            match artist_id {
                Some(id) => {
                    &&& post.popup is None && post.artist_detail_selected == 0
                    &&& post.overlays.overlay == Some(Overlay::ArtistDetail)
                    &&& post.overlays.stack@ == (match pre.overlays.overlay {
                        Some(cur) => pre.overlays.stack@.push(cur),
                        None => pre.overlays.stack@,
                    })
                    &&& post.overlays.nav_changes@ == with_push(pre.overlays.nav_changes@, Overlay::ArtistDetail)
                    &&& post == (MenuView { popup: None, overlays: post.overlays, artist_detail_selected: 0, ..pre })
                    &&& action matches KeyAction::SendCommand(Command::GetArtistDetail { artist_id }) && artist_id == id
                },
                None => post == closed(pre) && action is Continue,
            }
        },
        PopupAction::RemoveFromPlaylist => match (p.target, p.playlist_context) {
            (PopupTarget::Track(t), Some(pid)) => post == closed(pre)
                && (action matches KeyAction::SendCommand(Command::RemoveFromPlaylist { playlist_id, track_id })
                && playlist_id == pid && track_id == t.track_id),
            _ => unchanged,
        },
        PopupAction::RenamePlaylist => match p.target {
            PopupTarget::Playlist { title, .. } => with_sub_menu(pre, post)
                && (post.popup->0.sub_menu matches Some(SubMenu::RenamePlaylistInput { name })
                && name.text@ == title@ && name.cursor == title@.len() && action is Continue),
            _ => unchanged,
        },
        PopupAction::DeletePlaylist => match p.target {
            PopupTarget::Playlist { playlist_id, nb_songs, .. } => if nb_songs == 0 {
                post == closed(pre) && (action matches KeyAction::SendCommand(Command::DeletePlaylist { playlist_id: pid })
                    && pid == playlist_id)
            } else {
                with_sub_menu(pre, post) && post.popup->0.sub_menu == Some(SubMenu::ConfirmDeletePlaylist { confirm_yes: false })
                    && action is Continue
            },
            _ => unchanged,
        },
    }
}

fn text(t: &str) -> (r: String)
    ensures
        r@ == t@,
{
    let mut r = String::new();
    push_all(&mut r, t);
    r
}

impl MenuView {
    /// Set the open menu's dialog.
    fn set_sub_menu(&mut self, m: Option<SubMenu>)
        requires
            old(self).popup is Some,
            old(self).wf(),
            sub_menu_ok(m),
        ensures
            final(self).wf(),
            with_sub_menu(*old(self), *final(self)),
            final(self).popup->0.sub_menu == m,
    {
        let mut p = self.popup.take().unwrap();
        p.sub_menu = m;
        self.popup = Some(p);
    }

    /// Run a menu entry.
    pub fn execute_popup_action(&mut self, a: PopupAction, s: &Strings) -> (action: KeyAction)
        requires
            old(self).wf(),
            old(self).popup is Some,
        ensures
            final(self).wf(),
            popup_action_done(*old(self), *final(self), a, *s, action),
    {
        proof {
            reveal_strlit("https://www.deezer.com/track/");
            reveal_strlit("https://www.deezer.com/artist/");
            reveal_strlit("https://www.deezer.com/album/");
            reveal_strlit("https://www.deezer.com/playlist/");
        }
        let is_favorite = self.popup.as_ref().unwrap().is_favorite;
        match a {
            PopupAction::Header => KeyAction::Continue,
            PopupAction::ToggleFavorite | PopupAction::DownloadOffline | PopupAction::DislikeTrack
                | PopupAction::PlayNext | PopupAction::AddToQueue | PopupAction::MixFromTrack => {
                let track = match &self.popup.as_ref().unwrap().target {
                    PopupTarget::Track(t) => t.clone(),
                    _ => return KeyAction::Continue,
                };
                self.popup = None;
                let cmd = match a {
                    PopupAction::ToggleFavorite => if is_favorite {
                        Command::RemoveFavorite { track_id: track.track_id }
                    } else {
                        Command::AddFavorite { track_id: track.track_id }
                    },
                    PopupAction::DownloadOffline => Command::DownloadOffline { track },
                    PopupAction::DislikeTrack => Command::DislikeTrack { track_id: track.track_id },
                    PopupAction::PlayNext => Command::PlayNext { track },
                    PopupAction::AddToQueue => Command::AddToQueue { track },
                    _ => Command::StartMix { track_id: track.track_id },
                };
                KeyAction::SendCommand(cmd)
            }
            PopupAction::ToggleFavoriteArtist => {
                let artist_id = match &self.popup.as_ref().unwrap().target {
                    PopupTarget::Artist { artist_id, .. } => artist_id.clone(),
                    _ => return KeyAction::Continue,
                };
                self.popup = None;
                KeyAction::SendCommand(if is_favorite {
                    Command::RemoveFavoriteArtist { artist_id }
                } else {
                    Command::AddFavoriteArtist { artist_id }
                })
            }
            PopupAction::ToggleFavoriteAlbum => {
                let album_id = match &self.popup.as_ref().unwrap().target {
                    PopupTarget::Album { album_id, .. } => album_id.clone(),
                    _ => return KeyAction::Continue,
                };
                self.popup = None;
                KeyAction::SendCommand(if is_favorite {
                    Command::RemoveFavoriteAlbum { album_id }
                } else {
                    Command::AddFavoriteAlbum { album_id }
                })
            }
            PopupAction::AddToPlaylist => {
                if self.playlists.len() == 0 {
                    self.set_sub_menu(Some(SubMenu::PlaylistPicker { playlists: Vec::new(), selected: 0, loading: true }));
                    KeyAction::SendCommand(Command::RequestPlaylists)
                } else {
                    let playlists = clone_playlists(&self.playlists);
                    self.set_sub_menu(Some(SubMenu::PlaylistPicker { playlists, selected: 0, loading: false }));
                    KeyAction::Continue
                }
            }
            PopupAction::Share => {
                let mut url = String::new();
                match &self.popup.as_ref().unwrap().target {
                    PopupTarget::Track(t) => {
                        push_all(&mut url, "https://www.deezer.com/track/");
                        push_all(&mut url, t.track_id.as_str());
                    }
                    PopupTarget::Artist { artist_id, .. } => {
                        push_all(&mut url, "https://www.deezer.com/artist/");
                        push_all(&mut url, artist_id.as_str());
                    }
                    PopupTarget::Album { album_id, .. } => {
                        push_all(&mut url, "https://www.deezer.com/album/");
                        push_all(&mut url, album_id.as_str());
                    }
                    PopupTarget::Playlist { playlist_id, .. } => {
                        push_all(&mut url, "https://www.deezer.com/playlist/");
                        push_all(&mut url, playlist_id.as_str());
                    }
                }
                self.popup = None;
                KeyAction::CopyLink { url }
            }
            PopupAction::TrackInfo => {
                self.set_sub_menu(Some(SubMenu::TrackInfo));
                KeyAction::Continue
            }
            PopupAction::ViewAlbum => {
                let album_id = match &self.popup.as_ref().unwrap().target {
                    PopupTarget::Track(t) => crate::models::clone_opt_string(&t.album_id),
                    PopupTarget::Album { album_id, .. } => Some(album_id.clone()),
                    _ => None,
                };
                self.popup = None;
                match album_id {
                    Some(album_id) => {
                        self.overlays.push_overlay(Overlay::AlbumDetail { from_artist: false });
                        self.album_detail_selected = 0;
                        KeyAction::SendCommand(Command::GetAlbumDetail { album_id })
                    }
                    None => {
                        self.toast = Some(Toast { message: text(s.no_album_info), duration_ms: 2000, is_error: false });
                        KeyAction::Continue
                    }
                }
            }
            PopupAction::ViewArtist => {
                let artist_id = match &self.popup.as_ref().unwrap().target {
                    PopupTarget::Track(t) => crate::models::clone_opt_string(&t.artist_id),
                    PopupTarget::Artist { artist_id, .. } => Some(artist_id.clone()),
                    _ => None,
                };
                self.popup = None;
                match artist_id {
                    Some(artist_id) => {
                        self.overlays.push_overlay(Overlay::ArtistDetail);
                        self.artist_detail_selected = 0;
                        KeyAction::SendCommand(Command::GetArtistDetail { artist_id })
                    }
                    None => KeyAction::Continue,
                }
            }
            PopupAction::RemoveFromPlaylist => {
                let p = self.popup.as_ref().unwrap();
                let (track_id, playlist_id) = match (&p.target, &p.playlist_context) {
                    (PopupTarget::Track(t), Some(pid)) => (t.track_id.clone(), pid.clone()),
                    _ => return KeyAction::Continue,
                };
                self.popup = None;
                KeyAction::SendCommand(Command::RemoveFromPlaylist { playlist_id, track_id })
            }
            PopupAction::RenamePlaylist => {
                let name = match &self.popup.as_ref().unwrap().target {
                    PopupTarget::Playlist { title, .. } => TextField::with_text(title.as_str()),
                    _ => return KeyAction::Continue,
                };
                self.set_sub_menu(Some(SubMenu::RenamePlaylistInput { name }));
                KeyAction::Continue
            }
            PopupAction::DeletePlaylist => {
                let (playlist_id, nb_songs) = match &self.popup.as_ref().unwrap().target {
                    PopupTarget::Playlist { playlist_id, nb_songs, .. } => (playlist_id.clone(), *nb_songs),
                    _ => return KeyAction::Continue,
                };
                if nb_songs == 0 {
                    self.popup = None;
                    KeyAction::SendCommand(Command::DeletePlaylist { playlist_id })
                } else {
                    self.set_sub_menu(Some(SubMenu::ConfirmDeletePlaylist { confirm_yes: false }));
                    KeyAction::Continue
                }
            }
        }
    }
}


/// The track id of the menu's target, if it is a track.
pub open spec fn target_track_id(p: PopupMenu) -> Option<String> {
    match p.target {
        PopupTarget::Track(t) => Some(t.track_id),
        _ => None,
    }
}

/// A key in the playlist picker.
pub open spec fn picker_key(pre: MenuView, post: MenuView, key: Key, action: KeyAction) -> bool {
    let p = pre.popup->0;
    let sub = p.sub_menu->0;
    let playlists = sub->PlaylistPicker_playlists;
    let selected = sub->PlaylistPicker_selected;
    let unchanged = post == pre && action is Continue;
    let moved_to = |n: usize| with_sub_menu(pre, post) && post.popup->0.sub_menu == Some(SubMenu::PlaylistPicker {
        playlists, selected: n, loading: false }) && action is Continue;
    if sub->PlaylistPicker_loading {
        if key.code == KeyCode::Esc {
            with_sub_menu(pre, post) && post.popup->0.sub_menu is None && action is Continue
        } else {
            unchanged
        }
    } else {
        match key.code {
            KeyCode::Esc => with_sub_menu(pre, post) && post.popup->0.sub_menu is None && action is Continue,
            KeyCode::Up | KeyCode::Char('k') => moved_to(if selected > 0 { (selected - 1) as usize } else { 0 }),
            KeyCode::Down | KeyCode::Char('j') => moved_to(
                if selected + 1 > playlists@.len() { playlists@.len() as usize } else { (selected + 1) as usize }),
            KeyCode::Enter => if selected == 0 {
                with_sub_menu(pre, post) && (post.popup->0.sub_menu matches Some(SubMenu::CreatePlaylistInput { name })
                    && name.text@.len() == 0 && name.cursor == 0) && action is Continue
            } else if selected - 1 < playlists@.len() && target_track_id(p) is Some {
                post == closed(pre) && (action matches KeyAction::SendCommand(Command::AddToPlaylist { playlist_id, track_id })
                    && playlist_id == playlists@[selected - 1].playlist_id && track_id == target_track_id(p)->0)
            } else {
                unchanged
            },
            _ => unchanged,
        }
    }
}

/// A key in the text field of a dialog that names a playlist: Esc, Enter
/// and editing keys.
pub open spec fn name_field_key(pre: MenuView, post: MenuView, name: TextField, key: Key, action: KeyAction, rename: bool) -> bool {
    let p = pre.popup->0;
    let unchanged = post == pre && action is Continue;
    match key.code {
        KeyCode::Esc => if rename {
            with_sub_menu(pre, post) && post.popup->0.sub_menu is None && action is Continue
        } else {
            with_sub_menu(pre, post) && picker_of(post.popup->0.sub_menu, pre.playlists@, false) && action is Continue
        },
        KeyCode::Enter => {
            let title = trim(name.text@);
            if title.len() == 0 {
                unchanged
            } else if rename {
                match p.target {
                    PopupTarget::Playlist { playlist_id, .. } => post == closed(pre)
                        && (action matches KeyAction::SendCommand(Command::RenamePlaylist { playlist_id: id, new_title })
                        && id == playlist_id && new_title@ == title),
                    _ => unchanged,
                }
            } else {
                match target_track_id(p) {
                    Some(track_id) => post == closed(pre)
                        && (action matches KeyAction::SendCommand(Command::CreatePlaylistAndAdd { title: t, track_id: id })
                        && t@ == title && id == track_id),
                    None => unchanged,
                }
            }
        },
        KeyCode::Char(_) | KeyCode::Backspace | KeyCode::Left | KeyCode::Right => {
            &&& with_sub_menu(pre, post)
            &&& post.popup->0.sub_menu matches Some(sm) && (if rename { sm is RenamePlaylistInput } else { sm is CreatePlaylistInput })
            &&& ({
                let f = if rename { post.popup->0.sub_menu->0->RenamePlaylistInput_name } else {
                    post.popup->0.sub_menu->0->CreatePlaylistInput_name };
                (f.text@, f.cursor as int) == edited(name.text@, name.cursor as int, key.code)
            })
            &&& action is Continue
        },
        _ => unchanged,
    }
}

/// A key in the delete confirmation.
pub open spec fn confirm_key(pre: MenuView, post: MenuView, confirm_yes: bool, key: Key, action: KeyAction) -> bool {
    let p = pre.popup->0;
    let unchanged = post == pre && action is Continue;
    let delete = match p.target {
        PopupTarget::Playlist { playlist_id, .. } => post == closed(pre)
            && (action matches KeyAction::SendCommand(Command::DeletePlaylist { playlist_id: id }) && id == playlist_id),
        _ => unchanged,
    };
    let back = with_sub_menu(pre, post) && post.popup->0.sub_menu is None && action is Continue;
    match key.code {
        KeyCode::Esc | KeyCode::Char('n') | KeyCode::Char('N') => back,
        KeyCode::Char('y') | KeyCode::Char('Y') => delete,
        KeyCode::Left | KeyCode::Right | KeyCode::Char('h') | KeyCode::Char('l') | KeyCode::Tab =>
            with_sub_menu(pre, post) && post.popup->0.sub_menu == Some(SubMenu::ConfirmDeletePlaylist { confirm_yes: !confirm_yes })
                && action is Continue,
        KeyCode::Enter => if confirm_yes { delete } else { back },
        _ => unchanged,
    }
}

/// A key while a menu is open.
pub open spec fn popup_key(pre: MenuView, post: MenuView, key: Key, s: Strings, action: KeyAction) -> bool {
    let p = pre.popup->0;
    let unchanged = post == pre && action is Continue;
    match p.sub_menu {
        Some(SubMenu::PlaylistPicker { .. }) => picker_key(pre, post, key, action),
        Some(SubMenu::TrackInfo) => if key.code == KeyCode::Esc || key.code == KeyCode::Enter || key.code == KeyCode::Char('q') {
            post == closed(pre) && action is Continue
        } else {
            unchanged
        },
        Some(SubMenu::CreatePlaylistInput { name }) => name_field_key(pre, post, name, key, action, false),
        Some(SubMenu::RenamePlaylistInput { name }) => name_field_key(pre, post, name, key, action, true),
        Some(SubMenu::ConfirmDeletePlaylist { confirm_yes }) => confirm_key(pre, post, confirm_yes, key, action),
        None => match key.code {
            KeyCode::Esc | KeyCode::Char('q') => post == closed(pre) && action is Continue,
            KeyCode::Up | KeyCode::Char('k') => post == (MenuView {
                popup: Some(PopupMenu { selected: selected_after_prev(p), ..p }), ..pre }) && action is Continue,
            KeyCode::Down | KeyCode::Char('j') => post == (MenuView {
                popup: Some(PopupMenu { selected: selected_after_next(p), ..p }), ..pre }) && action is Continue,
            KeyCode::Enter => popup_action_done(pre, post, p.items@[p.selected as int].action, s, action),
            _ => unchanged,
        },
    }
}

impl MenuView {
    fn picker_key(&mut self, key: Key) -> (action: KeyAction)
        requires
            old(self).wf(),
            old(self).popup is Some,
            old(self).popup->0.sub_menu is Some,
            old(self).popup->0.sub_menu->0 is PlaylistPicker,
        ensures
            final(self).wf(),
            picker_key(*old(self), *final(self), key, action),
    {
        let mut p = self.popup.take().unwrap();
        let track_id = match &p.target {
            PopupTarget::Track(t) => Some(t.track_id.clone()),
            _ => None,
        };
        let sub = p.sub_menu.take().unwrap();
        let (playlists, selected, loading) = match sub {
            SubMenu::PlaylistPicker { playlists, selected, loading } => (playlists, selected, loading),
            _ => { proof { assert(false); } return KeyAction::Continue; }
        };
        if loading {
            if key.code == KeyCode::Esc {
                self.popup = Some(p);
                return KeyAction::Continue;
            }
            p.sub_menu = Some(SubMenu::PlaylistPicker { playlists, selected, loading });
            self.popup = Some(p);
            return KeyAction::Continue;
        }
        match key.code {
            KeyCode::Esc => {
                self.popup = Some(p);
                KeyAction::Continue
            }
            KeyCode::Up | KeyCode::Char('k') => {
                let n = if selected > 0 { selected - 1 } else { 0 };
                p.sub_menu = Some(SubMenu::PlaylistPicker { playlists, selected: n, loading: false });
                self.popup = Some(p);
                KeyAction::Continue
            }
            KeyCode::Down | KeyCode::Char('j') => {
                let n = if selected >= playlists.len() { playlists.len() } else { selected + 1 };
                p.sub_menu = Some(SubMenu::PlaylistPicker { playlists, selected: n, loading: false });
                self.popup = Some(p);
                KeyAction::Continue
            }
            KeyCode::Enter => {
                if selected == 0 {
                    p.sub_menu = Some(SubMenu::CreatePlaylistInput { name: TextField::new() });
                    self.popup = Some(p);
                    return KeyAction::Continue;
                }
                if selected - 1 < playlists.len() {
                    if let Some(track_id) = track_id {
                        let playlist_id = playlists[selected - 1].playlist_id.clone();
                        return KeyAction::SendCommand(Command::AddToPlaylist { playlist_id, track_id });
                    }
                }
                p.sub_menu = Some(SubMenu::PlaylistPicker { playlists, selected, loading });
                self.popup = Some(p);
                KeyAction::Continue
            }
            _ => {
                p.sub_menu = Some(SubMenu::PlaylistPicker { playlists, selected, loading });
                self.popup = Some(p);
                KeyAction::Continue
            }
        }
    }

    fn name_field_key(&mut self, key: Key, rename: bool) -> (action: KeyAction)
        requires
            old(self).wf(),
            old(self).popup is Some,
            old(self).popup->0.sub_menu is Some,
            rename ==> old(self).popup->0.sub_menu->0 is RenamePlaylistInput,
            !rename ==> old(self).popup->0.sub_menu->0 is CreatePlaylistInput,
        ensures
            final(self).wf(),
            name_field_key(*old(self), *final(self), (if rename {
                old(self).popup->0.sub_menu->0->RenamePlaylistInput_name } else {
                old(self).popup->0.sub_menu->0->CreatePlaylistInput_name }), key, action, rename),
    {
        let mut p = self.popup.take().unwrap();
        let sub = p.sub_menu.take().unwrap();
        let mut name = match sub {
            SubMenu::RenamePlaylistInput { name } => name,
            SubMenu::CreatePlaylistInput { name } => name,
            _ => { proof { assert(false); } return KeyAction::Continue; }
        };
        match key.code {
            KeyCode::Esc => {
                if !rename {
                    let playlists = clone_playlists(&self.playlists);
                    p.sub_menu = Some(SubMenu::PlaylistPicker { playlists, selected: 0, loading: false });
                }
                self.popup = Some(p);
                KeyAction::Continue
            }
            KeyCode::Enter => {
                let title = string_of(trim_chars(name.text.as_slice()).as_slice());
                if chars_of(title.as_str()).len() == 0 {
                    p.sub_menu = Some(if rename { SubMenu::RenamePlaylistInput { name } } else { SubMenu::CreatePlaylistInput { name } });
                    self.popup = Some(p);
                    return KeyAction::Continue;
                }
                if rename {
                    let playlist_id = match &p.target {
                        PopupTarget::Playlist { playlist_id, .. } => playlist_id.clone(),
                        _ => {
                            p.sub_menu = Some(SubMenu::RenamePlaylistInput { name });
                            self.popup = Some(p);
                            return KeyAction::Continue;
                        }
                    };
                    KeyAction::SendCommand(Command::RenamePlaylist { playlist_id, new_title: title })
                } else {
                    let track_id = match &p.target {
                        PopupTarget::Track(t) => t.track_id.clone(),
                        _ => {
                            p.sub_menu = Some(SubMenu::CreatePlaylistInput { name });
                            self.popup = Some(p);
                            return KeyAction::Continue;
                        }
                    };
                    KeyAction::SendCommand(Command::CreatePlaylistAndAdd { title, track_id })
                }
            }
            KeyCode::Char(_) | KeyCode::Backspace | KeyCode::Left | KeyCode::Right => {
                name.edit(key.code);
                p.sub_menu = Some(if rename { SubMenu::RenamePlaylistInput { name } } else { SubMenu::CreatePlaylistInput { name } });
                self.popup = Some(p);
                KeyAction::Continue
            }
            _ => {
                p.sub_menu = Some(if rename { SubMenu::RenamePlaylistInput { name } } else { SubMenu::CreatePlaylistInput { name } });
                self.popup = Some(p);
                KeyAction::Continue
            }
        }
    }
}


impl MenuView {
    fn confirm_key(&mut self, key: Key) -> (action: KeyAction)
        requires
            old(self).wf(),
            old(self).popup is Some,
            old(self).popup->0.sub_menu is Some,
            old(self).popup->0.sub_menu->0 is ConfirmDeletePlaylist,
        ensures
            final(self).wf(),
            confirm_key(*old(self), *final(self), old(self).popup->0.sub_menu->0->confirm_yes, key, action),
    {
        let mut p = self.popup.take().unwrap();
        let sub = p.sub_menu.take().unwrap();
        let confirm_yes = match sub {
            SubMenu::ConfirmDeletePlaylist { confirm_yes } => confirm_yes,
            _ => { proof { assert(false); } return KeyAction::Continue; }
        };
        let playlist_id = match &p.target {
            PopupTarget::Playlist { playlist_id, .. } => Some(playlist_id.clone()),
            _ => None,
        };
        let delete = match key.code {
            KeyCode::Esc | KeyCode::Char('n') | KeyCode::Char('N') => false,
            KeyCode::Char('y') | KeyCode::Char('Y') => true,
            KeyCode::Left | KeyCode::Right | KeyCode::Char('h') | KeyCode::Char('l') | KeyCode::Tab => {
                p.sub_menu = Some(SubMenu::ConfirmDeletePlaylist { confirm_yes: !confirm_yes });
                self.popup = Some(p);
                return KeyAction::Continue;
            }
            KeyCode::Enter => confirm_yes,
            _ => {
                p.sub_menu = Some(SubMenu::ConfirmDeletePlaylist { confirm_yes });
                self.popup = Some(p);
                return KeyAction::Continue;
            }
        };
        if !delete {
            self.popup = Some(p);
            return KeyAction::Continue;
        }
        match playlist_id {
            Some(playlist_id) => KeyAction::SendCommand(Command::DeletePlaylist { playlist_id }),
            None => {
                p.sub_menu = Some(SubMenu::ConfirmDeletePlaylist { confirm_yes });
                self.popup = Some(p);
                KeyAction::Continue
            }
        }
    }

    /// Handle a key while a menu is open.
    pub fn handle_popup_key(&mut self, key: Key, s: &Strings) -> (action: KeyAction)
        requires
            old(self).wf(),
            old(self).popup is Some,
        ensures
            final(self).wf(),
            popup_key(*old(self), *final(self), key, *s, action),
    {
        let kind: u8 = match &self.popup.as_ref().unwrap().sub_menu {
            Some(SubMenu::PlaylistPicker { .. }) => 1,
            Some(SubMenu::TrackInfo) => 2,
            Some(SubMenu::CreatePlaylistInput { .. }) => 3,
            Some(SubMenu::RenamePlaylistInput { .. }) => 4,
            Some(SubMenu::ConfirmDeletePlaylist { .. }) => 5,
            None => 0,
        };
        if kind == 1 {
            return self.picker_key(key);
        }
        if kind == 2 {
            if key.code == KeyCode::Esc || key.code == KeyCode::Enter || key.code == KeyCode::Char('q') {
                self.popup = None;
            }
            return KeyAction::Continue;
        }
        if kind == 3 {
            return self.name_field_key(key, false);
        }
        if kind == 4 {
            return self.name_field_key(key, true);
        }
        if kind == 5 {
            return self.confirm_key(key);
        }
        match key.code {
            KeyCode::Esc | KeyCode::Char('q') => {
                self.popup = None;
                KeyAction::Continue
            }
            KeyCode::Up | KeyCode::Char('k') => {
                let mut p = self.popup.take().unwrap();
                p.select_prev();
                self.popup = Some(p);
                KeyAction::Continue
            }
            KeyCode::Down | KeyCode::Char('j') => {
                let mut p = self.popup.take().unwrap();
                p.select_next();
                self.popup = Some(p);
                KeyAction::Continue
            }
            KeyCode::Enter => {
                let p = self.popup.as_ref().unwrap();
                let a = p.items[p.selected].action;
                self.execute_popup_action(a, s)
            }
            _ => KeyAction::Continue,
        }
    }

    /// Report the outcome of copying a shared link.
    pub fn link_copied(&mut self, result: Result<(), String>, s: &Strings)
        ensures
            *final(self) == (MenuView { toast: final(self).toast, ..*old(self) }),
            final(self).toast is Some,
            !final(self).toast->0.is_error,
            result is Ok ==> final(self).toast->0.message@ == s.link_copied@ && final(self).toast->0.duration_ms == 2000,
            result is Err ==> final(self).toast->0.message@ == "Clipboard error: "@ + result->Err_0@
                && final(self).toast->0.duration_ms == 3000,
    {
        match result {
            Ok(()) => {
                self.toast = Some(Toast { message: text(s.link_copied), duration_ms: 2000, is_error: false });
            }
            Err(e) => {
                let mut m = String::new();
                push_all(&mut m, "Clipboard error: ");
                push_all(&mut m, e.as_str());
                self.toast = Some(Toast { message: m, duration_ms: 3000, is_error: false });
            }
        }
    }
}

} // verus!
