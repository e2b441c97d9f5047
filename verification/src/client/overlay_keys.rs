//! Keys while an overlay is open: help, settings, the pickers, the update
//! prompt, and the album, artist, playlist and queue pages.

use vstd::prelude::*;
use crate::i18n::{Locale, locale_index, locale_at, LOCALE_COUNT};
use crate::theme::{ThemeId, theme_index, theme_at, THEME_COUNT};
use crate::protocol::{Command, Screen};
use crate::i18n::Strings;
use crate::models::{TrackData, ArtistSubTab, album_on_tab, ArtistAlbumEntry};
use crate::client::{
    Key, KeyCode, KeyAction, Overlay, OverlayStack, nav_of, popped, pushed, top_set, same_overlays, is_up, is_down,
    stepped_up, stepped_down, step_up, step_down, up_key, down_key,
};
use crate::client::keys::{ClientView, track_favorite, only_popup_changed};
use crate::client::popup::{MenuView, PopupMenu, is_full_menu, entries, in_playlist_entries};

verus! {

/// Number of entries of the settings menu.
pub const SETTINGS_COUNT: usize = 6;

/// Number of choices of the update prompt.
pub const UPDATE_OPTIONS: usize = 3;

/// The player keys that keep working on the pages: pause, next, previous
/// and volume.
pub open spec fn player_control(code: KeyCode) -> Option<KeyAction> {
    if code == KeyCode::Char(' ') {
        Some(KeyAction::SendCommand(Command::TogglePause))
    } else if code == KeyCode::Char('n') {
        Some(KeyAction::SendCommand(Command::NextTrack))
    } else if code == KeyCode::Char('b') {
        Some(KeyAction::SendCommand(Command::PrevTrack))
    } else if code == KeyCode::Char('+') || code == KeyCode::Char('=') {
        Some(KeyAction::ChangeVolume { up: true })
    } else if code == KeyCode::Char('-') {
        Some(KeyAction::ChangeVolume { up: false })
    } else {
        None
    }
}

pub fn player_control_of(code: KeyCode) -> (r: Option<KeyAction>)
    ensures
        r == player_control(code),
{
    if code == KeyCode::Char(' ') {
        Some(KeyAction::SendCommand(Command::TogglePause))
    } else if code == KeyCode::Char('n') {
        Some(KeyAction::SendCommand(Command::NextTrack))
    } else if code == KeyCode::Char('b') {
        Some(KeyAction::SendCommand(Command::PrevTrack))
    } else if code == KeyCode::Char('+') || code == KeyCode::Char('=') {
        Some(KeyAction::ChangeVolume { up: true })
    } else if code == KeyCode::Char('-') {
        Some(KeyAction::ChangeVolume { up: false })
    } else {
        None
    }
}

/// The overlays that are pages of the main content, whose keys depend on
/// the client's lists.
pub open spec fn is_page(o: Overlay) -> bool {
    o is AlbumDetail || o is ArtistDetail || o is PlaylistDetail || o is WaitingList
}

/// A picker's selection is one of its choices.
pub open spec fn picker_in_range(o: Overlay) -> bool {
    match o {
        Overlay::LanguagePicker { selected } => selected < LOCALE_COUNT,
        Overlay::ThemePicker { selected } => selected < THEME_COUNT,
        _ => true,
    }
}

/// Whether a picker's selection is one of its choices.
pub fn picker_selection_ok(o: &Overlay) -> (b: bool)
    ensures
        b == picker_in_range(*o),
{
    match o {
        Overlay::LanguagePicker { selected } => *selected < LOCALE_COUNT,
        Overlay::ThemePicker { selected } => *selected < THEME_COUNT,
        _ => true,
    }
}

/// A key on the help screen.
pub open spec fn help_key(pre: OverlayStack, post: OverlayStack, scroll: usize, key: Key) -> bool {
    let c = key.code;
    if c == KeyCode::Esc || c == KeyCode::Enter || c == KeyCode::Char('?') {
        popped(pre, post)
    } else if is_down(c) {
        top_set(pre, post, Overlay::Help { scroll: if scroll < usize::MAX { (scroll + 1) as usize } else { scroll } })
    } else if is_up(c) {
        top_set(pre, post, Overlay::Help { scroll: stepped_up(scroll) })
    } else {
        same_overlays(pre, post)
    }
}

/// A key in the settings menu.
pub open spec fn settings_key(
    pre: OverlayStack,
    post: OverlayStack,
    selected: usize,
    key: Key,
    theme: ThemeId,
    locale: Locale,
    action: KeyAction,
) -> bool {
    let c = key.code;
    if c == KeyCode::Esc || c == KeyCode::Char('q') {
        popped(pre, post) && action is Continue
    } else if is_up(c) {
        top_set(pre, post, Overlay::Settings { selected: stepped_up(selected) }) && action is Continue
    } else if is_down(c) {
        top_set(pre, post, Overlay::Settings { selected: stepped_down(selected as int, SETTINGS_COUNT as int) as usize })
            && action is Continue
    } else if c == KeyCode::Enter {
        if selected == 0 {
            pushed(pre, post, Overlay::Help { scroll: 0 }) && action is Continue
        } else if selected == 1 {
            pushed(pre, post, Overlay::ThemePicker { selected: theme_index(theme) }) && action is Continue
        } else if selected == 2 {
            pushed(pre, post, Overlay::LanguagePicker { selected: locale_index(locale) }) && action is Continue
        } else if selected == 3 {
            popped(pre, post) && action == KeyAction::SendCommand(Command::Logout)
        } else if selected == 4 {
            same_overlays(pre, post) && action is Detach
        } else if selected == 5 {
            same_overlays(pre, post) && action is Quit
        } else {
            same_overlays(pre, post) && action is Continue
        }
    } else if c == KeyCode::Char('o') && key.ctrl {
        popped(pre, post) && action is Continue
    } else {
        same_overlays(pre, post) && action is Continue
    }
}

/// A key in the language picker.
pub open spec fn language_key(pre: OverlayStack, post: OverlayStack, selected: usize, key: Key, action: KeyAction) -> bool {
    let c = key.code;
    if c == KeyCode::Esc || c == KeyCode::Char('q') {
        popped(pre, post) && action is Continue
    } else if is_up(c) {
        top_set(pre, post, Overlay::LanguagePicker { selected: stepped_up(selected) }) && action is Continue
    } else if is_down(c) {
        top_set(pre, post, Overlay::LanguagePicker { selected: stepped_down(selected as int, LOCALE_COUNT as int) as usize })
            && action is Continue
    } else if c == KeyCode::Enter {
        popped(pre, post) && action == KeyAction::SetLanguage(locale_at(selected))
    } else {
        same_overlays(pre, post) && action is Continue
    }
}

/// A key in the theme picker: moving previews the theme, Enter keeps it.
pub open spec fn theme_key(pre: OverlayStack, post: OverlayStack, selected: usize, key: Key, action: KeyAction) -> bool {
    let c = key.code;
    let up = stepped_up(selected);
    let down = stepped_down(selected as int, THEME_COUNT as int) as usize;
    if c == KeyCode::Esc || c == KeyCode::Char('q') {
        popped(pre, post) && action is Continue
    } else if is_up(c) {
        top_set(pre, post, Overlay::ThemePicker { selected: up }) && action == KeyAction::PreviewTheme(theme_at(up))
    } else if is_down(c) {
        top_set(pre, post, Overlay::ThemePicker { selected: down })
            && action == KeyAction::PreviewTheme(theme_at(down))
    } else if c == KeyCode::Enter {
        popped(pre, post) && action == KeyAction::SaveTheme(theme_at(selected))
    } else {
        same_overlays(pre, post) && action is Continue
    }
}

/// A key in the update prompt: update now, later, or never.
pub open spec fn update_key(
    pre: OverlayStack,
    post: OverlayStack,
    version: String,
    download_url: String,
    selected: usize,
    key: Key,
    action: KeyAction,
) -> bool {
    let c = key.code;
    if c == KeyCode::Esc {
        popped(pre, post) && action is Continue
    } else if is_up(c) {
        top_set(pre, post, Overlay::UpdateAvailable { version, download_url, selected: stepped_up(selected) })
            && action is Continue
    } else if is_down(c) {
        top_set(pre, post, Overlay::UpdateAvailable {
            version,
            download_url,
            selected: stepped_down(selected as int, UPDATE_OPTIONS as int) as usize,
        }) && action is Continue
    } else if c == KeyCode::Enter {
        if selected == 0 {
            same_overlays(pre, post) && action == (KeyAction::PerformUpdate { version, download_url })
        } else if selected == 1 {
            popped(pre, post) && action is Continue
        } else if selected == 2 {
            popped(pre, post) && action is SkipUpdates
        } else {
            same_overlays(pre, post) && action is Continue
        }
    } else {
        same_overlays(pre, post) && action is Continue
    }
}

/// A key on an overlay that is no page.
pub open spec fn dialog_key(
    pre: OverlayStack,
    post: OverlayStack,
    key: Key,
    theme: ThemeId,
    locale: Locale,
    action: KeyAction,
) -> bool {
    match pre.overlay {
        Some(Overlay::Help { scroll }) => help_key(pre, post, scroll, key) && action is Continue,
        Some(Overlay::Info) => action is Continue && if key.code == KeyCode::Esc || key.code == KeyCode::Char('q')
            || key.code == KeyCode::Enter || key.code == KeyCode::Char('i') {
            popped(pre, post)
        } else {
            same_overlays(pre, post)
        },
        Some(Overlay::Settings { selected }) => settings_key(pre, post, selected, key, theme, locale, action),
        Some(Overlay::LanguagePicker { selected }) => language_key(pre, post, selected, key, action),
        Some(Overlay::ThemePicker { selected }) => theme_key(pre, post, selected, key, action),
        Some(Overlay::UpdateAvailable { version, download_url, selected }) =>
            update_key(pre, post, version, download_url, selected, key, action),
        Some(Overlay::Updating { .. }) => same_overlays(pre, post) && action is Continue,
        _ => same_overlays(pre, post) && action is Continue,
    }
}

impl OverlayStack {
    fn help_key(&mut self, scroll: usize, key: Key)
        ensures
            help_key(*old(self), *final(self), scroll, key),
    {
        let c = key.code;
        if c == KeyCode::Esc || c == KeyCode::Enter || c == KeyCode::Char('?') {
            self.pop_overlay();
        } else if down_key(c) {
            let s = if scroll < usize::MAX { scroll + 1 } else { scroll };
            self.set_top(Overlay::Help { scroll: s });
        } else if up_key(c) {
            self.set_top(Overlay::Help { scroll: step_up(scroll) });
        }
    }

    fn settings_key(&mut self, selected: usize, key: Key, theme: ThemeId, locale: Locale) -> (action: KeyAction)
        ensures
            settings_key(*old(self), *final(self), selected, key, theme, locale, action),
    {
        let c = key.code;
        if c == KeyCode::Esc || c == KeyCode::Char('q') {
            self.pop_overlay();
        } else if up_key(c) {
            self.set_top(Overlay::Settings { selected: step_up(selected) });
        } else if down_key(c) {
            self.set_top(Overlay::Settings { selected: step_down(selected, SETTINGS_COUNT) });
        } else if c == KeyCode::Enter {
            if selected == 0 {
                self.push_overlay(Overlay::Help { scroll: 0 });
            } else if selected == 1 {
                self.push_overlay(Overlay::ThemePicker { selected: theme.index() });
            } else if selected == 2 {
                self.push_overlay(Overlay::LanguagePicker { selected: locale.index() });
            } else if selected == 3 {
                self.pop_overlay();
                return KeyAction::SendCommand(Command::Logout);
            } else if selected == 4 {
                return KeyAction::Detach;
            } else if selected == 5 {
                return KeyAction::Quit;
            }
        } else if c == KeyCode::Char('o') && key.ctrl {
            self.pop_overlay();
        }
        KeyAction::Continue
    }

    fn language_key(&mut self, selected: usize, key: Key) -> (action: KeyAction)
        requires
            selected < LOCALE_COUNT,
        ensures
            language_key(*old(self), *final(self), selected, key, action),
    {
        let c = key.code;
        if c == KeyCode::Esc || c == KeyCode::Char('q') {
            self.pop_overlay();
        } else if up_key(c) {
            self.set_top(Overlay::LanguagePicker { selected: step_up(selected) });
        } else if down_key(c) {
            self.set_top(Overlay::LanguagePicker { selected: step_down(selected, LOCALE_COUNT) });
        } else if c == KeyCode::Enter {
            let locale = Locale::at(selected);
            self.pop_overlay();
            return KeyAction::SetLanguage(locale);
        }
        KeyAction::Continue
    }

    fn theme_key(&mut self, selected: usize, key: Key) -> (action: KeyAction)
        requires
            selected < THEME_COUNT,
        ensures
            theme_key(*old(self), *final(self), selected, key, action),
    {
        let c = key.code;
        if c == KeyCode::Esc || c == KeyCode::Char('q') {
            self.pop_overlay();
        } else if up_key(c) {
            let s = step_up(selected);
            self.set_top(Overlay::ThemePicker { selected: s });
            return KeyAction::PreviewTheme(ThemeId::at(s));
        } else if down_key(c) {
            let s = step_down(selected, THEME_COUNT);
            self.set_top(Overlay::ThemePicker { selected: s });
            return KeyAction::PreviewTheme(ThemeId::at(s));
        } else if c == KeyCode::Enter {
            let id = ThemeId::at(selected);
            self.pop_overlay();
            return KeyAction::SaveTheme(id);
        }
        KeyAction::Continue
    }

    fn update_key(&mut self, version: String, download_url: String, selected: usize, key: Key) -> (action: KeyAction)
        ensures
            update_key(*old(self), *final(self), version, download_url, selected, key, action),
    {
        let c = key.code;
        if c == KeyCode::Esc {
            self.pop_overlay();
        } else if up_key(c) {
            self.set_top(Overlay::UpdateAvailable { version, download_url, selected: step_up(selected) });
        } else if down_key(c) {
            self.set_top(Overlay::UpdateAvailable {
                version,
                download_url,
                selected: step_down(selected, UPDATE_OPTIONS),
            });
        } else if c == KeyCode::Enter {
            if selected == 0 {
                return KeyAction::PerformUpdate { version, download_url };
            } else if selected == 1 {
                self.pop_overlay();
            } else if selected == 2 {
                self.pop_overlay();
                return KeyAction::SkipUpdates;
            }
        }
        KeyAction::Continue
    }

    /// Handle a key on an overlay that is no page: help, information,
    /// settings, the pickers and the update screens. `theme` and `locale`
    /// are the ones in effect, where the pickers open.
    pub fn handle_dialog_key(&mut self, key: Key, theme: ThemeId, locale: Locale) -> (action: KeyAction)
        requires
            old(self).overlay is Some ==> picker_in_range(old(self).overlay->0),
        ensures
            dialog_key(*old(self), *final(self), key, theme, locale, action),
    {
        let top = match &self.overlay {
            Some(o) => o.clone(),
            None => return KeyAction::Continue,
        };
        match top {
            Overlay::Help { scroll } => {
                self.help_key(scroll, key);
                KeyAction::Continue
            }
            Overlay::Info => {
                let c = key.code;
                if c == KeyCode::Esc || c == KeyCode::Char('q') || c == KeyCode::Enter || c == KeyCode::Char('i') {
                    self.pop_overlay();
                }
                KeyAction::Continue
            }
            Overlay::Settings { selected } => self.settings_key(selected, key, theme, locale),
            Overlay::LanguagePicker { selected } => self.language_key(selected, key),
            Overlay::ThemePicker { selected } => self.theme_key(selected, key),
            Overlay::UpdateAvailable { version, download_url, selected } =>
                self.update_key(version, download_url, selected, key),
            _ => KeyAction::Continue,
        }
    }
}


// ----- the pages -----

/// `v` with its overlays replaced by `ov`.
pub open spec fn with_overlays(v: ClientView, ov: OverlayStack) -> ClientView {
    ClientView { menu: MenuView { overlays: ov, ..v.menu }, ..v }
}

/// One line up, staying on the first.
pub open spec fn scrolled_up(x: u16) -> u16 {
    if x > 0 { (x - 1) as u16 } else { 0 }
}

/// One line down, staying on the last one a `u16` can count.
pub open spec fn scrolled_down(x: u16) -> u16 {
    if x < u16::MAX { (x + 1) as u16 } else { x }
}

fn scroll_up(x: u16) -> (r: u16)
    ensures
        r == scrolled_up(x),
{
    if x > 0 { x - 1 } else { 0 }
}

fn scroll_down(x: u16) -> (r: u16)
    ensures
        r == scrolled_down(x),
{
    if x < u16::MAX { x + 1 } else { x }
}

/// The menu opens on `t`, a track of a list, and nothing else changes.
pub open spec fn opens_track_menu(pre: ClientView, post: ClientView, t: TrackData, s: Strings) -> bool {
    &&& only_popup_changed(pre, post)
    &&& post.menu.popup is Some
    &&& is_full_menu(post.menu.popup->0, t, track_favorite(pre, t.track_id@), s)
}

/// What a key gives when it is no page key: a player control, or nothing.
pub open spec fn other_key(pre: ClientView, post: ClientView, code: KeyCode, action: KeyAction) -> bool {
    post == pre && action == (match player_control(code) {
        Some(a) => a,
        None => KeyAction::Continue,
    })
}

/// A key on the album page.
pub open spec fn album_page_key(pre: ClientView, post: ClientView, key: Key, s: Strings, action: KeyAction) -> bool {
    let c = key.code;
    let sel = pre.menu.album_detail_selected;
    let ov = post.menu.overlays;
    if c == KeyCode::Char('x') {
        action is Continue && match pre.album_detail {
            Some(d) => if sel < d.tracks@.len() {
                opens_track_menu(pre, post, d.tracks@[sel as int], s)
            } else {
                post == pre
            },
            None => post == pre,
        }
    } else if c == KeyCode::Esc {
        action is Continue && popped(pre.menu.overlays, ov) && post == with_overlays(pre, ov)
    } else if c == KeyCode::Left || c == KeyCode::Char('h') {
        action is Continue && post == (ClientView {
            album_detail_left_focused: pre.album_detail_left_focused || pre.album_detail_left_scrollable,
            ..pre
        })
    } else if c == KeyCode::Right || c == KeyCode::Char('l') {
        action is Continue && post == (ClientView { album_detail_left_focused: false, ..pre })
    } else if is_up(c) {
        action is Continue && if pre.album_detail_left_focused {
            post == (ClientView { album_detail_left_scroll: scrolled_up(pre.album_detail_left_scroll), ..pre })
        } else {
            post == (ClientView { menu: MenuView { album_detail_selected: stepped_up(sel), ..pre.menu }, ..pre })
        }
    } else if is_down(c) {
        action is Continue && if pre.album_detail_left_focused {
            post == (ClientView { album_detail_left_scroll: scrolled_down(pre.album_detail_left_scroll), ..pre })
        } else {
            match pre.album_detail {
                Some(d) => if d.tracks@.len() > 0 {
                    post == (ClientView {
                        menu: MenuView {
                            album_detail_selected: stepped_down(sel as int, d.tracks@.len() as int) as usize,
                            ..pre.menu
                        },
                        ..pre
                    })
                } else {
                    post == pre
                },
                None => post == pre,
            }
        }
    } else if c == KeyCode::Enter {
        post == pre && if pre.album_detail_left_focused {
            action is Continue
        } else {
            action == KeyAction::SendCommand(Command::PlayFromAlbum { index: sel })
        }
    } else if c == KeyCode::Char('t') {
        match pre.album_detail {
            Some(d) => if sel < d.tracks@.len() && d.tracks@[sel as int].artist_id is Some {
                &&& pushed(pre.menu.overlays, ov, Overlay::ArtistDetail)
                &&& post == (ClientView { menu: MenuView { overlays: ov, artist_detail_selected: 0, ..pre.menu }, ..pre })
                &&& action == KeyAction::SendCommand(Command::GetArtistDetail {
                    artist_id: d.tracks@[sel as int].artist_id->0,
                })
            } else {
                post == pre && action is Continue
            },
            None => post == pre && action is Continue,
        }
    } else if c == KeyCode::Char('d') {
        post == pre && match pre.album_detail {
            Some(d) => action == KeyAction::SendCommand(Command::DownloadAlbumOffline { album_id: d.album_id }),
            None => action is Continue,
        }
    } else if c == KeyCode::Char('w') {
        action is Continue && pushed(pre.menu.overlays, ov, Overlay::WaitingList { selected: 0 })
            && post == with_overlays(pre, ov)
    } else {
        other_key(pre, post, c, action)
    }
}

impl ClientView {
    /// Open the full menu of `t` (a track of a list).
    fn open_track_menu(&mut self, t: TrackData, s: &Strings)
        ensures
            opens_track_menu(*old(self), *final(self), t, *s),
    {
        let fav = self.is_track_favorite(t.track_id.as_str());
        self.menu.popup = Some(PopupMenu::full(t, fav, s));
    }

    /// Handle a key on the album page.
    pub fn album_page_key(&mut self, key: Key, s: &Strings) -> (action: KeyAction)
        ensures
            album_page_key(*old(self), *final(self), key, *s, action),
    {
        let c = key.code;
        let sel = self.menu.album_detail_selected;
        if c == KeyCode::Char('x') {
            let t = match &self.album_detail {
                Some(d) => if sel < d.tracks.len() { Some(d.tracks[sel].clone()) } else { None },
                None => None,
            };
            if let Some(t) = t {
                self.open_track_menu(t, s);
            }
            KeyAction::Continue
        } else if c == KeyCode::Esc {
            self.menu.overlays.pop_overlay();
            KeyAction::Continue
        } else if c == KeyCode::Left || c == KeyCode::Char('h') {
            if self.album_detail_left_scrollable {
                self.album_detail_left_focused = true;
            }
            KeyAction::Continue
        } else if c == KeyCode::Right || c == KeyCode::Char('l') {
            self.album_detail_left_focused = false;
            KeyAction::Continue
        } else if up_key(c) {
            if self.album_detail_left_focused {
                self.album_detail_left_scroll = scroll_up(self.album_detail_left_scroll);
            } else {
                self.menu.album_detail_selected = step_up(sel);
            }
            KeyAction::Continue
        } else if down_key(c) {
            if self.album_detail_left_focused {
                self.album_detail_left_scroll = scroll_down(self.album_detail_left_scroll);
            } else {
                let n = match &self.album_detail {
                    Some(d) => d.tracks.len(),
                    None => 0,
                };
                if n > 0 {
                    self.menu.album_detail_selected = step_down(sel, n);
                }
            }
            KeyAction::Continue
        } else if c == KeyCode::Enter {
            if self.album_detail_left_focused {
                KeyAction::Continue
            } else {
                KeyAction::SendCommand(Command::PlayFromAlbum { index: sel })
            }
        } else if c == KeyCode::Char('t') {
            let artist = match &self.album_detail {
                Some(d) => if sel < d.tracks.len() {
                    crate::models::clone_opt_string(&d.tracks[sel].artist_id)
                } else {
                    None
                },
                None => None,
            };
            match artist {
                Some(artist_id) => {
                    self.menu.overlays.push_overlay(Overlay::ArtistDetail);
                    self.menu.artist_detail_selected = 0;
                    KeyAction::SendCommand(Command::GetArtistDetail { artist_id })
                }
                None => KeyAction::Continue,
            }
        } else if c == KeyCode::Char('d') {
            match &self.album_detail {
                Some(d) => KeyAction::SendCommand(Command::DownloadAlbumOffline { album_id: d.album_id.clone() }),
                None => KeyAction::Continue,
            }
        } else if c == KeyCode::Char('w') {
            self.menu.overlays.push_overlay(Overlay::WaitingList { selected: 0 });
            KeyAction::Continue
        } else {
            match player_control_of(c) {
                Some(a) => a,
                None => KeyAction::Continue,
            }
        }
    }
}

/// Length of the list shown on the artist page's sub-tab.
pub open spec fn artist_list_len(v: ClientView) -> int {
    match v.artist_detail {
        Some(d) => match v.artist_detail_sub_tab {
            ArtistSubTab::TopTracks => d.top_tracks@.len() as int,
            ArtistSubTab::Similar => d.similar_artists@.len() as int,
            t => d.albums@.filter(|a: ArtistAlbumEntry| album_on_tab(a, t)).len() as int,
        },
        None => 0,
    }
}

/// Enter on the artist page: play a top track, or open a similar artist or
/// an album.
pub open spec fn artist_enter(pre: ClientView, post: ClientView, action: KeyAction) -> bool {
    let sel = pre.menu.artist_detail_selected;
    let tab = pre.artist_detail_sub_tab;
    let ov = post.menu.overlays;
    if tab == ArtistSubTab::TopTracks {
        post == pre && action == KeyAction::SendCommand(Command::PlayFromArtist { index: sel })
    } else if tab == ArtistSubTab::Similar {
        match pre.artist_detail {
            Some(d) => if sel < d.similar_artists@.len() {
                &&& crate::client::keys::entered_page(pre.menu.overlays, ov, Overlay::ArtistDetail)
                &&& post == (ClientView {
                    menu: MenuView { overlays: ov, artist_detail_selected: 0, ..pre.menu },
                    artist_detail_sub_tab: ArtistSubTab::TopTracks,
                    artist_detail_left_scroll: 0,
                    artist_detail_left_focused: false,
                    ..pre
                })
                &&& action == KeyAction::SendCommand(Command::GetArtistDetail {
                    artist_id: d.similar_artists@[sel as int].artist_id,
                })
            } else {
                post == pre && action is Continue
            },
            None => post == pre && action is Continue,
        }
    } else {
        match pre.artist_detail {
            Some(d) => {
                let albums = d.albums@.filter(|a: ArtistAlbumEntry| album_on_tab(a, tab));
                if sel < albums.len() {
                    &&& pushed(pre.menu.overlays, ov, Overlay::AlbumDetail { from_artist: false })
                    &&& post == (ClientView {
                        menu: MenuView { overlays: ov, album_detail_selected: 0, ..pre.menu },
                        ..pre
                    })
                    &&& action == KeyAction::SendCommand(Command::GetAlbumDetail {
                        album_id: albums[sel as int].album_id,
                    })
                } else {
                    post == pre && action is Continue
                }
            },
            None => post == pre && action is Continue,
        }
    }
}

/// Left or right on the artist page: into and out of the left panel, and
/// across the sub-tabs.
pub open spec fn artist_side(pre: ClientView, post: ClientView, left: bool) -> bool {
    let tab = pre.artist_detail_sub_tab;
    if left && pre.artist_detail_left_focused {
        post == pre
    } else if left && tab == ArtistSubTab::TopTracks && pre.artist_detail_left_scrollable {
        post == (ClientView { artist_detail_left_focused: true, ..pre })
    } else if left {
        post == (ClientView {
            artist_detail_sub_tab: crate::models::sub_tab_at((crate::models::sub_tab_index(tab) + 4) % 5),
            menu: MenuView { artist_detail_selected: 0, ..pre.menu },
            ..pre
        })
    } else if pre.artist_detail_left_focused {
        post == (ClientView {
            artist_detail_left_focused: false,
            artist_detail_sub_tab: ArtistSubTab::TopTracks,
            menu: MenuView { artist_detail_selected: 0, ..pre.menu },
            ..pre
        })
    } else {
        post == (ClientView {
            artist_detail_sub_tab: crate::models::sub_tab_at((crate::models::sub_tab_index(tab) + 1) % 5),
            menu: MenuView { artist_detail_selected: 0, ..pre.menu },
            ..pre
        })
    }
}

/// Up or down on the artist page: scroll the left panel or move in the list.
pub open spec fn artist_move(pre: ClientView, post: ClientView, up: bool) -> bool {
    let sel = pre.menu.artist_detail_selected;
    if pre.artist_detail_left_focused {
        post == (ClientView {
            artist_detail_left_scroll: if up {
                scrolled_up(pre.artist_detail_left_scroll)
            } else {
                scrolled_down(pre.artist_detail_left_scroll)
            },
            ..pre
        })
    } else if up {
        post == (ClientView { menu: MenuView { artist_detail_selected: stepped_up(sel), ..pre.menu }, ..pre })
    } else if artist_list_len(pre) > 0 {
        post == (ClientView {
            menu: MenuView {
                artist_detail_selected: stepped_down(sel as int, artist_list_len(pre)) as usize,
                ..pre.menu
            },
            ..pre
        })
    } else {
        post == pre
    }
}

/// A key on the artist page.
pub open spec fn artist_page_key(pre: ClientView, post: ClientView, key: Key, s: Strings, action: KeyAction) -> bool {
    let c = key.code;
    let sel = pre.menu.artist_detail_selected;
    let tab = pre.artist_detail_sub_tab;
    let ov = post.menu.overlays;
    if c == KeyCode::Char('x') {
        action is Continue && match pre.artist_detail {
            Some(d) => if tab == ArtistSubTab::TopTracks && sel < d.top_tracks@.len() {
                opens_track_menu(pre, post, d.top_tracks@[sel as int], s)
            } else {
                post == pre
            },
            None => post == pre,
        }
    } else if c == KeyCode::Esc {
        action is Continue && popped(pre.menu.overlays, ov) && post == with_overlays(pre, ov)
    } else if c == KeyCode::Left || c == KeyCode::Char('h') || c == KeyCode::Right || c == KeyCode::Char('l') {
        action is Continue && artist_side(pre, post, c == KeyCode::Left || c == KeyCode::Char('h'))
    } else if is_up(c) || is_down(c) {
        action is Continue && artist_move(pre, post, is_up(c))
    } else if c == KeyCode::Enter {
        artist_enter(pre, post, action)
    } else if c == KeyCode::Char('w') {
        action is Continue && pushed(pre.menu.overlays, ov, Overlay::WaitingList { selected: 0 })
            && post == with_overlays(pre, ov)
    } else {
        other_key(pre, post, c, action)
    }
}

impl ClientView {
    fn artist_list_len(&self) -> (n: usize)
        ensures
            n == artist_list_len(*self),
    {
        match &self.artist_detail {
            Some(d) => match self.artist_detail_sub_tab {
                ArtistSubTab::TopTracks => d.top_tracks.len(),
                ArtistSubTab::Similar => d.similar_artists.len(),
                t => {
                    let v = d.albums_for_tab(t);
                    proof {
                        assert(v@.map_values(|a: &ArtistAlbumEntry| *a).len() == v@.len());
                    }
                    v.len()
                }
            },
            None => 0,
        }
    }

    #[verifier::rlimit(40)]
    fn artist_enter(&mut self) -> (action: KeyAction)
        ensures
            artist_enter(*old(self), *final(self), action),
    {
        let sel = self.menu.artist_detail_selected;
        let tab = self.artist_detail_sub_tab;
        if tab == ArtistSubTab::TopTracks {
            KeyAction::SendCommand(Command::PlayFromArtist { index: sel })
        } else if tab == ArtistSubTab::Similar {
            let id = match &self.artist_detail {
                Some(d) => if sel < d.similar_artists.len() {
                    Some(d.similar_artists[sel].artist_id.clone())
                } else {
                    None
                },
                None => None,
            };
            match id {
                Some(artist_id) => {
                    self.menu.overlays.set_nav_overlay(Overlay::ArtistDetail);
                    self.menu.artist_detail_selected = 0;
                    self.artist_detail_sub_tab = ArtistSubTab::TopTracks;
                    self.artist_detail_left_scroll = 0;
                    self.artist_detail_left_focused = false;
                    KeyAction::SendCommand(Command::GetArtistDetail { artist_id })
                }
                None => KeyAction::Continue,
            }
        } else {
            let id = match &self.artist_detail {
                Some(d) => {
                    let albums = d.albums_for_tab(tab);
                    proof {
                        assert(albums@.map_values(|a: &ArtistAlbumEntry| *a).len() == albums@.len());
                    }
                    if sel < albums.len() {
                        proof {
                            assert(albums@.map_values(|a: &ArtistAlbumEntry| *a)[sel as int] == *albums@[sel as int]);
                        }
                        Some(albums[sel].album_id.clone())
                    } else {
                        None
                    }
                },
                None => None,
            };
            match id {
                Some(album_id) => {
                    self.menu.overlays.push_overlay(Overlay::AlbumDetail { from_artist: false });
                    self.menu.album_detail_selected = 0;
                    KeyAction::SendCommand(Command::GetAlbumDetail { album_id })
                }
                None => KeyAction::Continue,
            }
        }
    }

    /// Handle a key on the artist page.
    fn artist_side(&mut self, left: bool)
        ensures
            artist_side(*old(self), *final(self), left),
    {
        let tab = self.artist_detail_sub_tab;
        if left && self.artist_detail_left_focused {
        } else if left && tab == ArtistSubTab::TopTracks && self.artist_detail_left_scrollable {
            self.artist_detail_left_focused = true;
        } else if left {
            self.artist_detail_sub_tab = tab.prev();
            self.menu.artist_detail_selected = 0;
        } else if self.artist_detail_left_focused {
            self.artist_detail_left_focused = false;
            self.artist_detail_sub_tab = ArtistSubTab::TopTracks;
            self.menu.artist_detail_selected = 0;
        } else {
            self.artist_detail_sub_tab = tab.next();
            self.menu.artist_detail_selected = 0;
        }
    }

    fn artist_move(&mut self, up: bool)
        ensures
            artist_move(*old(self), *final(self), up),
    {
        let sel = self.menu.artist_detail_selected;
        if self.artist_detail_left_focused {
            self.artist_detail_left_scroll = if up {
                scroll_up(self.artist_detail_left_scroll)
            } else {
                scroll_down(self.artist_detail_left_scroll)
            };
        } else if up {
            self.menu.artist_detail_selected = step_up(sel);
        } else {
            let n = self.artist_list_len();
            if n > 0 {
                self.menu.artist_detail_selected = step_down(sel, n);
            }
        }
    }

    pub fn artist_page_key(&mut self, key: Key, s: &Strings) -> (action: KeyAction)
        ensures
            artist_page_key(*old(self), *final(self), key, *s, action),
    {
        let c = key.code;
        let sel = self.menu.artist_detail_selected;
        let tab = self.artist_detail_sub_tab;
        if c == KeyCode::Char('x') {
            let t = match &self.artist_detail {
                Some(d) => if tab == ArtistSubTab::TopTracks && sel < d.top_tracks.len() {
                    Some(d.top_tracks[sel].clone())
                } else {
                    None
                },
                None => None,
            };
            if let Some(t) = t {
                self.open_track_menu(t, s);
            }
            KeyAction::Continue
        } else if c == KeyCode::Esc {
            self.menu.overlays.pop_overlay();
            KeyAction::Continue
        } else if c == KeyCode::Left || c == KeyCode::Char('h') || c == KeyCode::Right || c == KeyCode::Char('l') {
            self.artist_side(c == KeyCode::Left || c == KeyCode::Char('h'));
            KeyAction::Continue
        } else if up_key(c) || down_key(c) {
            self.artist_move(up_key(c));
            KeyAction::Continue
        } else if c == KeyCode::Enter {
            self.artist_enter()
        } else if c == KeyCode::Char('w') {
            self.menu.overlays.push_overlay(Overlay::WaitingList { selected: 0 });
            KeyAction::Continue
        } else {
            match player_control_of(c) {
                Some(a) => a,
                None => KeyAction::Continue,
            }
        }
    }
}

/// The track menu on a playlist page: `remove from this playlist` in place
/// of `add to playlist`.
pub open spec fn is_in_playlist_menu(m: PopupMenu, track: TrackData, is_favorite: bool, playlist_id: String, s: Strings) -> bool {
    &&& m.wf()
    &&& entries(m.items@) == in_playlist_entries(s, is_favorite)
    &&& m.title is None && m.selected == 1 && m.target == crate::client::popup::PopupTarget::Track(track)
    &&& m.is_favorite == is_favorite && m.sub_menu is None && m.playlist_context == Some(playlist_id)
}

/// Down on a page list of `len` rows: the next row, or the first of an
/// empty list.
pub open spec fn page_down(selected: usize, len: int) -> usize {
    if len == 0 { 0 } else { stepped_down(selected as int, len) as usize }
}

/// A key on a playlist page whose row `selected` is chosen.
pub open spec fn playlist_page_key(pre: ClientView, post: ClientView, selected: usize, key: Key, s: Strings, action: KeyAction) -> bool {
    let c = key.code;
    let ov = post.menu.overlays;
    let count: int = match pre.playlist_detail { Some(d) => d.tracks@.len() as int, None => 0 };
    if c == KeyCode::Char('x') {
        action is Continue && match pre.playlist_detail {
            Some(d) => if selected < d.tracks@.len() {
                let t = d.tracks@[selected as int];
                &&& only_popup_changed(pre, post)
                &&& post.menu.popup is Some
                &&& is_in_playlist_menu(post.menu.popup->0, t, track_favorite(pre, t.track_id@), d.playlist_id, s)
            } else {
                post == pre
            },
            None => post == pre,
        }
    } else if c == KeyCode::Esc {
        action is Continue && popped(pre.menu.overlays, ov) && post == with_overlays(pre, ov)
    } else if is_up(c) {
        action is Continue && top_set(pre.menu.overlays, ov, Overlay::PlaylistDetail { selected: stepped_up(selected) })
            && post == with_overlays(pre, ov)
    } else if is_down(c) {
        action is Continue && top_set(pre.menu.overlays, ov, Overlay::PlaylistDetail { selected: page_down(selected, count) })
            && post == with_overlays(pre, ov)
    } else if c == KeyCode::Enter {
        post == pre && action == KeyAction::SendCommand(Command::PlayFromPlaylist { index: selected })
    } else if c == KeyCode::Char('w') {
        action is Continue && pushed(pre.menu.overlays, ov, Overlay::WaitingList { selected: 0 })
            && post == with_overlays(pre, ov)
    } else {
        other_key(pre, post, c, action)
    }
}

/// A key on the queue page whose row `selected` is chosen.
pub open spec fn waiting_list_key(pre: ClientView, post: ClientView, selected: usize, key: Key, s: Strings, action: KeyAction) -> bool {
    let c = key.code;
    let ov = post.menu.overlays;
    let q = pre.queue@;
    if c == KeyCode::Char('x') {
        action is Continue && if selected < q.len() {
            opens_track_menu(pre, post, q[selected as int], s)
        } else {
            post == pre
        }
    } else if c == KeyCode::Enter {
        post == pre && if selected < q.len() {
            action == KeyAction::SendCommand(Command::PlayFromQueue { index: selected })
        } else {
            action is Continue
        }
    } else if c == KeyCode::Esc || c == KeyCode::Char('w') {
        action is Continue && popped(pre.menu.overlays, ov) && post == with_overlays(pre, ov)
    } else if is_up(c) {
        action is Continue && top_set(pre.menu.overlays, ov, Overlay::WaitingList { selected: stepped_up(selected) })
            && post == with_overlays(pre, ov)
    } else if is_down(c) {
        action is Continue && top_set(pre.menu.overlays, ov, Overlay::WaitingList { selected: page_down(selected, q.len() as int) })
            && post == with_overlays(pre, ov)
    } else if c == KeyCode::Delete || c == KeyCode::Char('d') {
        if selected != pre.queue_index && selected < q.len() {
            &&& action == KeyAction::SendCommand(Command::RemoveFromQueue { index: selected })
            &&& top_set(pre.menu.overlays, ov, Overlay::WaitingList {
                selected: if selected >= q.len() - 1 { stepped_up(selected) } else { selected },
            })
            &&& post == with_overlays(pre, ov)
        } else {
            post == pre && action is Continue
        }
    } else if c == KeyCode::Char('f') {
        post == pre && if selected < q.len() {
            let id = q[selected as int].track_id;
            action == KeyAction::SendCommand(if track_favorite(pre, id@) {
                Command::RemoveFavorite { track_id: id }
            } else {
                Command::AddFavorite { track_id: id }
            })
        } else {
            action is Continue
        }
    } else {
        other_key(pre, post, c, action)
    }
}

fn page_step_down(selected: usize, len: usize) -> (r: usize)
    ensures
        r == page_down(selected, len as int),
{
    if len == 0 { 0 } else { step_down(selected, len) }
}

impl ClientView {
    /// Handle a key on a playlist page whose row `selected` is chosen.
    pub fn playlist_page_key(&mut self, selected: usize, key: Key, s: &Strings) -> (action: KeyAction)
        ensures
            playlist_page_key(*old(self), *final(self), selected, key, *s, action),
    {
        let c = key.code;
        if c == KeyCode::Char('x') {
            let found = match &self.playlist_detail {
                Some(d) => if selected < d.tracks.len() {
                    Some((d.tracks[selected].clone(), d.playlist_id.clone()))
                } else {
                    None
                },
                None => None,
            };
            if let Some((t, pid)) = found {
                let fav = self.is_track_favorite(t.track_id.as_str());
                self.menu.popup = Some(PopupMenu::full_in_playlist(t, fav, pid, s));
            }
            return KeyAction::Continue;
        }
        let count = match &self.playlist_detail {
            Some(d) => d.tracks.len(),
            None => 0,
        };
        if c == KeyCode::Esc {
            self.menu.overlays.pop_overlay();
            KeyAction::Continue
        } else if up_key(c) {
            self.menu.overlays.set_top(Overlay::PlaylistDetail { selected: step_up(selected) });
            KeyAction::Continue
        } else if down_key(c) {
            self.menu.overlays.set_top(Overlay::PlaylistDetail { selected: page_step_down(selected, count) });
            KeyAction::Continue
        } else if c == KeyCode::Enter {
            KeyAction::SendCommand(Command::PlayFromPlaylist { index: selected })
        } else if c == KeyCode::Char('w') {
            self.menu.overlays.push_overlay(Overlay::WaitingList { selected: 0 });
            KeyAction::Continue
        } else {
            match player_control_of(c) {
                Some(a) => a,
                None => KeyAction::Continue,
            }
        }
    }

    /// Handle a key on the queue page whose row `selected` is chosen.
    pub fn waiting_list_key(&mut self, selected: usize, key: Key, s: &Strings) -> (action: KeyAction)
        ensures
            waiting_list_key(*old(self), *final(self), selected, key, *s, action),
    {
        let c = key.code;
        let n = self.queue.len();
        if c == KeyCode::Char('x') {
            if selected < n {
                let t = self.queue[selected].clone();
                self.open_track_menu(t, s);
            }
            KeyAction::Continue
        } else if c == KeyCode::Enter {
            if selected < n {
                KeyAction::SendCommand(Command::PlayFromQueue { index: selected })
            } else {
                KeyAction::Continue
            }
        } else if c == KeyCode::Esc || c == KeyCode::Char('w') {
            self.menu.overlays.pop_overlay();
            KeyAction::Continue
        } else if up_key(c) {
            self.menu.overlays.set_top(Overlay::WaitingList { selected: step_up(selected) });
            KeyAction::Continue
        } else if down_key(c) {
            self.menu.overlays.set_top(Overlay::WaitingList { selected: page_step_down(selected, n) });
            KeyAction::Continue
        } else if c == KeyCode::Delete || c == KeyCode::Char('d') {
            if selected != self.queue_index && selected < n {
                let new_sel = if selected >= n - 1 { step_up(selected) } else { selected };
                self.menu.overlays.set_top(Overlay::WaitingList { selected: new_sel });
                KeyAction::SendCommand(Command::RemoveFromQueue { index: selected })
            } else {
                KeyAction::Continue
            }
        } else if c == KeyCode::Char('f') {
            if selected < n {
                let id = self.queue[selected].track_id.clone();
                let fav = self.is_track_favorite(id.as_str());
                if fav {
                    KeyAction::SendCommand(Command::RemoveFavorite { track_id: id })
                } else {
                    KeyAction::SendCommand(Command::AddFavorite { track_id: id })
                }
            } else {
                KeyAction::Continue
            }
        } else {
            match player_control_of(c) {
                Some(a) => a,
                None => KeyAction::Continue,
            }
        }
    }
}

/// A key while an overlay is open.
pub open spec fn overlay_key(
    pre: ClientView,
    post: ClientView,
    key: Key,
    s: Strings,
    theme: ThemeId,
    locale: Locale,
    action: KeyAction,
) -> bool {
    match pre.menu.overlays.overlay {
        Some(Overlay::AlbumDetail { .. }) => album_page_key(pre, post, key, s, action),
        Some(Overlay::ArtistDetail) => artist_page_key(pre, post, key, s, action),
        Some(Overlay::PlaylistDetail { selected }) => playlist_page_key(pre, post, selected, key, s, action),
        Some(Overlay::WaitingList { selected }) => waiting_list_key(pre, post, selected, key, s, action),
        Some(_) => dialog_key(pre.menu.overlays, post.menu.overlays, key, theme, locale, action)
            && post == with_overlays(pre, post.menu.overlays),
        None => post == pre && action is Continue,
    }
}

impl ClientView {
    /// Handle a key while an overlay is open. `theme` and `locale` are the
    /// ones in effect.
    pub fn handle_overlay_key(&mut self, key: Key, s: &Strings, theme: ThemeId, locale: Locale) -> (action: KeyAction)
        requires
            old(self).menu.overlays.overlay is Some ==> picker_in_range(old(self).menu.overlays.overlay->0),
        ensures
            overlay_key(*old(self), *final(self), key, *s, theme, locale, action),
            old(self).menu.wf() ==> final(self).menu.wf(),
    {
        let kind: u8 = match &self.menu.overlays.overlay {
            Some(Overlay::AlbumDetail { .. }) => 1,
            Some(Overlay::ArtistDetail) => 2,
            Some(Overlay::PlaylistDetail { .. }) => 3,
            Some(Overlay::WaitingList { .. }) => 4,
            Some(_) => 5,
            None => 0,
        };
        if kind == 1 {
            self.album_page_key(key, s)
        } else if kind == 2 {
            self.artist_page_key(key, s)
        } else if kind == 3 {
            let selected = match &self.menu.overlays.overlay {
                Some(Overlay::PlaylistDetail { selected }) => *selected,
                _ => 0,
            };
            self.playlist_page_key(selected, key, s)
        } else if kind == 4 {
            let selected = match &self.menu.overlays.overlay {
                Some(Overlay::WaitingList { selected }) => *selected,
                _ => 0,
            };
            self.waiting_list_key(selected, key, s)
        } else if kind == 5 {
            self.menu.overlays.handle_dialog_key(key, theme, locale)
        } else {
            KeyAction::Continue
        }
    }
}

// ----- what the pages show -----

/// The innermost album or artist page among the open overlays, looking from
/// the top one down the stack.
pub open spec fn detail_page_from(stack: Seq<Overlay>, top: Option<Overlay>) -> Option<Overlay>
    decreases stack.len(),
{
    match top {
        Some(Overlay::AlbumDetail { from_artist }) => Some(Overlay::AlbumDetail { from_artist }),
        Some(Overlay::ArtistDetail) => Some(Overlay::ArtistDetail),
        _ => if stack.len() == 0 {
            None
        } else {
            detail_page_from(stack.drop_last(), Some(stack.last()))
        },
    }
}

/// A cover address, or none when empty.
pub open spec fn non_empty(u: String) -> Option<String> {
    if u@.len() > 0 { Some(u) } else { None }
}

/// The cover art to show: the album's on an album page; on an artist page
/// the selected album's on an album sub-tab, else the artist's picture.
pub open spec fn cover_url(v: ClientView) -> Option<String> {
    match detail_page_from(v.menu.overlays.stack@, v.menu.overlays.overlay) {
        Some(Overlay::AlbumDetail { .. }) => match v.album_detail {
            Some(d) => non_empty(d.cover_url),
            None => None,
        },
        Some(Overlay::ArtistDetail) => match v.artist_detail {
            Some(d) => {
                let tab = v.artist_detail_sub_tab;
                let albums = d.albums@.filter(|a: ArtistAlbumEntry| album_on_tab(a, tab));
                let sel = v.menu.artist_detail_selected;
                let album_cover = if (tab == ArtistSubTab::Albums || tab == ArtistSubTab::Lives
                    || tab == ArtistSubTab::Other) && sel < albums.len() {
                    non_empty(albums[sel as int].cover_url)
                } else {
                    None
                };
                match album_cover {
                    Some(u) => Some(u),
                    None => non_empty(d.picture_url),
                }
            },
            None => None,
        },
        _ => None,
    }
}

fn some_if_set(u: &String) -> (r: Option<String>)
    ensures
        r == non_empty(*u),
{
    if u.as_str().unicode_len() > 0 { Some(u.clone()) } else { None }
}

impl OverlayStack {
    /// The innermost album or artist page that is open.
    pub fn detail_page(&self) -> (r: Option<Overlay>)
        ensures
            r == detail_page_from(self.stack@, self.overlay),
    {
        let mut top = match &self.overlay {
            Some(o) => Some(o.clone()),
            None => None,
        };
        let mut n = self.stack.len();
        assert(self.stack@.take(n as int) =~= self.stack@);
        loop
            invariant
                n <= self.stack@.len(),
                detail_page_from(self.stack@.take(n as int), top) == detail_page_from(self.stack@, self.overlay),
            decreases n,
        {
            let found = match &top {
                Some(Overlay::AlbumDetail { .. }) => true,
                Some(Overlay::ArtistDetail) => true,
                _ => false,
            };
            if found {
                return top;
            }
            if n == 0 {
                return None;
            }
            proof {
                assert(self.stack@.take(n as int).drop_last() =~= self.stack@.take(n - 1));
            }
            top = Some(self.stack[n - 1].clone());
            n = n - 1;
        }
    }

    /// The open overlay is a page of the daemon's mirror, or there is none.
    pub fn is_nav_or_none(&self) -> (b: bool)
        ensures
            b == (self.overlay is None || nav_of(self.overlay->0) is Some),
    {
        match &self.overlay {
            None => true,
            Some(o) => o.to_nav().is_some(),
        }
    }
}

impl ClientView {
    /// The cover art to show for the open page, if any.
    pub fn current_cover_url(&self) -> (r: Option<String>)
        ensures
            r == cover_url(*self),
    {
        match self.menu.overlays.detail_page() {
            Some(Overlay::AlbumDetail { .. }) => match &self.album_detail {
                Some(d) => some_if_set(&d.cover_url),
                None => None,
            },
            Some(Overlay::ArtistDetail) => match &self.artist_detail {
                Some(d) => {
                    let tab = self.artist_detail_sub_tab;
                    let sel = self.menu.artist_detail_selected;
                    let mut album_cover: Option<String> = None;
                    if tab == ArtistSubTab::Albums || tab == ArtistSubTab::Lives || tab == ArtistSubTab::Other {
                        let albums = d.albums_for_tab(tab);
                        proof {
                            assert(albums@.map_values(|a: &ArtistAlbumEntry| *a).len() == albums@.len());
                        }
                        if sel < albums.len() {
                            proof {
                                assert(albums@.map_values(|a: &ArtistAlbumEntry| *a)[sel as int] == *albums@[sel as int]);
                            }
                            album_cover = some_if_set(&albums[sel].cover_url);
                        }
                    }
                    match album_cover {
                        Some(u) => Some(u),
                        None => some_if_set(&d.picture_url),
                    }
                },
                None => None,
            },
            _ => None,
        }
    }
}

/// A click at `col`, `row` on the login screen: the login button, drawn at
/// `area` (x, y, width, height), starts the web login.
pub open spec fn login_click(
    screen: Screen,
    login: crate::client::LoginView,
    area: Option<(u16, u16, u16, u16)>,
    col: u16,
    row: u16,
) -> Option<KeyAction> {
    match area {
        Some((x, y, w, h)) => if screen == Screen::Login && login.mode == crate::client::LoginMode::Button
            && !login.loading && x <= col && col < x + w && y <= row && row < y + h {
            Some(KeyAction::WebLogin)
        } else {
            None
        },
        None => None,
    }
}

/// Handle a mouse click: only the login button reacts.
pub fn handle_mouse_click(
    screen: Screen,
    login: &crate::client::LoginView,
    area: Option<(u16, u16, u16, u16)>,
    col: u16,
    row: u16,
) -> (r: Option<KeyAction>)
    ensures
        r == login_click(screen, *login, area, col, row),
{
    if screen == Screen::Login && login.mode == crate::client::LoginMode::Button && !login.loading {
        if let Some((x, y, w, h)) = area {
            if col >= x && (col as u32) < (x as u32) + (w as u32) && row >= y && (row as u32) < (y as u32) + (h as u32) {
                return Some(KeyAction::WebLogin);
            }
        }
    }
    None
}

} // verus!
