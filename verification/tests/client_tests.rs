use deezer_tui::client::keys::{ClientView, InputMode};
use deezer_tui::client::popup::{MenuView, PopupMenu, PopupTarget, SubMenu};
use deezer_tui::client::overlay_keys::{handle_mouse_click, picker_selection_ok};
use deezer_tui::daemon::Daemon;
use deezer_tui::offline::OfflineIndex;
use deezer_tui::client::{
    fuzzy_match, version_is_newer, Key, KeyAction, KeyCode, LoginMode, LoginView, NavChange, NavOverlay, Overlay,
    OverlayStack,
};
use deezer_tui::i18n::{t, Locale};
use deezer_tui::models::{
    AlbumDetail, ArtistAlbumEntry, ArtistDetail, ArtistSubTab, AudioQuality, DisplayItem, PlaylistData, TrackData,
};
use deezer_tui::protocol::{ActiveTab, Command, FavoritesCategory, OfflineCategory, RadioItem, Screen};
use deezer_tui::theme::ThemeId;

fn track(id: &str, artist_id: Option<&str>) -> TrackData {
    TrackData {
        track_id: id.to_string(),
        title: format!("Song {id}"),
        artist: "Band".to_string(),
        artist_id: artist_id.map(|a| a.to_string()),
        album: "Record".to_string(),
        duration: "200".to_string(),
        album_picture: String::new(),
        album_id: Some("al1".to_string()),
        track_token: None,
        md5_origin: String::new(),
        fallback: None,
    }
}

fn row(col1: &str, col2: &str) -> DisplayItem {
    DisplayItem {
        col1: col1.to_string(),
        col2: col2.to_string(),
        col3: String::new(),
        col4: String::new(),
        track: None,
        album_id: None,
        playlist_id: None,
        artist_id: None,
    }
}

fn view() -> ClientView {
    ClientView {
        screen: Screen::Main,
        active_tab: ActiveTab::Search,
        is_offline: false,
        current_track: None,
        favorites: Vec::new(),
        favorite_artist_ids: Vec::new(),
        favorite_album_ids: Vec::new(),
        search_display: Vec::new(),
        search_selected: 0,
        favorites_display: Vec::new(),
        favorites_selected: 0,
        favorites_category: FavoritesCategory::RecentlyPlayed,
        offline_category: OfflineCategory::Tracks,
        offline_tracks: Vec::new(),
        offline_albums: Vec::new(),
        offline_selected: 0,
        radios: Vec::new(),
        radios_loading: false,
        input_mode: InputMode::Normal,
        search_input: Vec::new(),
        favorites_filter_input: Vec::new(),
        favorites_filter_typing: false,
        favorites_filtered: Vec::new(),
        favorites_filter_selected: 0,
        radio_filter_input: Vec::new(),
        radio_filter_typing: false,
        radios_filtered: Vec::new(),
        radios_selected: 0,
        offline_tree_selected: 0,
        offline_expanded: Vec::new(),
        menu: MenuView {
            popup: None,
            playlists: Vec::new(),
            overlays: OverlayStack::new(),
            toast: None,
            album_detail_selected: 0,
            artist_detail_selected: 0,
        },
        queue: Vec::new(),
        queue_index: 0,
        album_detail: None,
        album_detail_left_scroll: 0,
        album_detail_left_focused: false,
        album_detail_left_scrollable: false,
        artist_detail: None,
        artist_detail_sub_tab: ArtistSubTab::TopTracks,
        artist_detail_left_scroll: 0,
        artist_detail_left_focused: false,
        artist_detail_left_scrollable: false,
        playlist_detail: None,
    }
}

fn key(code: KeyCode) -> Key {
    Key { code, ctrl: false }
}

fn press(v: &mut ClientView, code: KeyCode) -> KeyAction {
    v.handle_main_key(key(code), &t(Locale::English), ThemeId::DarkPurple, Locale::English)
}

#[test]
fn fuzzy_match_finds_characters_in_order() {
    assert!(fuzzy_match("abc", "axbxc"));
    assert!(fuzzy_match("", "anything"));
    assert!(!fuzzy_match("acb", "abc"));
    assert!(!fuzzy_match("abcd", "abc"));
    assert!(fuzzy_match("dp", "daft punk"));
}

#[test]
fn version_comparison_is_numeric() {
    assert!(version_is_newer("1.2.0", "1.1.9"));
    assert!(version_is_newer("1.10.0", "1.9.0"));
    assert!(!version_is_newer("1.1.9", "1.2.0"));
    assert!(!version_is_newer("1.0.0", "1.0.0"));
    assert!(version_is_newer("2", "1.9.9"));
    // Pieces that are no number are skipped: "v1.2.3" reads as 2.3.0.
    assert!(version_is_newer("v1.2.3", "1.2.3"));
    assert!(!version_is_newer("1.x.5", "1.5.0"));
}

#[test]
fn login_screen_keys() {
    let mut l = LoginView::new();
    assert!(matches!(l.handle_login_key(key(KeyCode::Enter)), KeyAction::WebLogin));
    assert!(matches!(l.handle_login_key(key(KeyCode::Char('w'))), KeyAction::Continue));
    assert_eq!(l.mode, LoginMode::ArlInput);
    for c in "abc".chars() {
        l.handle_login_key(key(KeyCode::Char(c)));
    }
    l.handle_login_key(key(KeyCode::Backspace));
    match l.handle_login_key(key(KeyCode::Enter)) {
        KeyAction::SendCommand(Command::Login { arl }) => assert_eq!(arl, "ab"),
        other => panic!("{other:?}"),
    }
    assert!(l.loading);
    assert!(matches!(l.handle_login_key(key(KeyCode::Char('x'))), KeyAction::Continue));
}

#[test]
fn ctrl_q_quits_from_anywhere() {
    let mut v = view();
    v.menu.overlays.push_overlay(Overlay::Info);
    let a = v.handle_main_key(
        Key { code: KeyCode::Char('q'), ctrl: true },
        &t(Locale::English),
        ThemeId::DarkPurple,
        Locale::English,
    );
    assert!(matches!(a, KeyAction::Quit));
    assert!(matches!(v.menu.overlays.overlay, Some(Overlay::Info)));
}

#[test]
fn tabs_switch_only_online() {
    let mut v = view();
    assert!(matches!(press(&mut v, KeyCode::Tab), KeyAction::SendCommand(Command::NextTab)));
    assert!(matches!(press(&mut v, KeyCode::BackTab), KeyAction::SendCommand(Command::PrevTab)));
    v.is_offline = true;
    assert!(matches!(press(&mut v, KeyCode::Tab), KeyAction::Continue));
}

#[test]
fn search_query_is_typed_then_sent() {
    let mut v = view();
    press(&mut v, KeyCode::Char('/'));
    assert_eq!(v.input_mode, InputMode::Typing);
    press(&mut v, KeyCode::Char('a'));
    press(&mut v, KeyCode::Char('b'));
    press(&mut v, KeyCode::Backspace);
    press(&mut v, KeyCode::Char('c'));
    match press(&mut v, KeyCode::Enter) {
        KeyAction::SendCommand(Command::Search { query }) => assert_eq!(query, "ac"),
        other => panic!("{other:?}"),
    }
    assert_eq!(v.input_mode, InputMode::Normal);
}

#[test]
fn favorites_filter_keeps_matching_rows() {
    let mut v = view();
    v.active_tab = ActiveTab::Favorites;
    v.favorites_display = vec![row("Harder Better", "Daft Punk"), row("Yellow", "Coldplay"), row("One More", "Daft Punk")];
    press(&mut v, KeyCode::Char('/'));
    assert!(v.favorites_filter_typing);
    assert_eq!(v.favorites_filtered, vec![0, 1, 2]);
    press(&mut v, KeyCode::Char('d'));
    press(&mut v, KeyCode::Char('p'));
    assert_eq!(v.favorites_filtered, vec![0, 1, 2]);
    press(&mut v, KeyCode::Char('u'));
    assert_eq!(v.favorites_filtered, vec![0, 2]);
    press(&mut v, KeyCode::Enter);
    assert!(!v.favorites_filter_typing);
    assert!(matches!(press(&mut v, KeyCode::Down), KeyAction::Continue));
    assert_eq!(v.favorites_filter_selected, 1);
    match press(&mut v, KeyCode::Enter) {
        KeyAction::SendCommand(Command::PlayFromFavorites { index }) => assert_eq!(index, 2),
        other => panic!("{other:?}"),
    }
}

#[test]
fn radio_enter_plays_the_original_position() {
    let mut v = view();
    v.active_tab = ActiveTab::Radio;
    v.radios = vec![
        RadioItem { id: 10, title: "Jazz".to_string() },
        RadioItem { id: 20, title: "Rock".to_string() },
        RadioItem { id: 30, title: "Rap".to_string() },
    ];
    press(&mut v, KeyCode::Char('/'));
    press(&mut v, KeyCode::Char('r'));
    press(&mut v, KeyCode::Esc);
    assert_eq!(v.radios_filtered.len(), 2);
    press(&mut v, KeyCode::Down);
    match press(&mut v, KeyCode::Enter) {
        KeyAction::SendCommand(Command::PlayFromRadio { index }) => assert_eq!(index, 2),
        other => panic!("{other:?}"),
    }
}

#[test]
fn enter_on_an_album_row_opens_its_page() {
    let mut v = view();
    let mut r = row("Discovery", "Daft Punk");
    r.album_id = Some("302127".to_string());
    v.search_display = vec![r];
    match press(&mut v, KeyCode::Enter) {
        KeyAction::SendCommand(Command::GetAlbumDetail { album_id }) => assert_eq!(album_id, "302127"),
        other => panic!("{other:?}"),
    }
    assert!(matches!(v.menu.overlays.overlay, Some(Overlay::AlbumDetail { from_artist: false })));
    assert!(matches!(
        v.menu.overlays.nav_changes.as_slice(),
        [NavChange::Clear, NavChange::Push(NavOverlay::AlbumDetail { from_artist: false })]
    ));
}

#[test]
fn enter_on_a_track_row_plays_it() {
    let mut v = view();
    let mut r = row("Song", "Band");
    r.track = Some(track("1", Some("27")));
    v.search_display = vec![row("x", "y"), r];
    v.search_selected = 1;
    match press(&mut v, KeyCode::Enter) {
        KeyAction::SendCommand(Command::PlayFromSearch { index }) => assert_eq!(index, 1),
        other => panic!("{other:?}"),
    }
    assert!(v.menu.overlays.overlay.is_none());
}

#[test]
fn x_opens_the_track_menu() {
    let mut v = view();
    let mut r = row("Song", "Band");
    r.track = Some(track("5", None));
    v.search_display = vec![r];
    v.favorites = vec![track("5", None)];
    press(&mut v, KeyCode::Char('x'));
    let p = v.menu.popup.as_ref().expect("menu");
    assert!(p.is_favorite);
    assert_eq!(p.selected, 1);
    assert!(matches!(&p.target, PopupTarget::Track(t) if t.track_id == "5"));
    assert!(matches!(press(&mut v, KeyCode::Esc), KeyAction::Continue));
    assert!(v.menu.popup.is_none());
}

#[test]
fn settings_open_the_language_picker_and_set_a_language() {
    let mut v = view();
    press(&mut v, KeyCode::Esc);
    assert!(matches!(v.menu.overlays.overlay, Some(Overlay::Settings { selected: 0 })));
    press(&mut v, KeyCode::Down);
    press(&mut v, KeyCode::Down);
    press(&mut v, KeyCode::Enter);
    assert!(matches!(v.menu.overlays.overlay, Some(Overlay::LanguagePicker { selected: 0 })));
    press(&mut v, KeyCode::Down);
    match press(&mut v, KeyCode::Enter) {
        KeyAction::SetLanguage(l) => assert_eq!(l, Locale::French),
        other => panic!("{other:?}"),
    }
    assert!(matches!(v.menu.overlays.overlay, Some(Overlay::Settings { selected: 2 })));
    press(&mut v, KeyCode::Char('q'));
    assert!(v.menu.overlays.overlay.is_none());
}

#[test]
fn settings_detach_and_quit_entries() {
    let mut v = view();
    press(&mut v, KeyCode::Esc);
    for _ in 0..4 {
        press(&mut v, KeyCode::Down);
    }
    assert!(matches!(press(&mut v, KeyCode::Enter), KeyAction::Detach));
    press(&mut v, KeyCode::Down);
    press(&mut v, KeyCode::Down);
    assert!(matches!(v.menu.overlays.overlay, Some(Overlay::Settings { selected: 5 })));
    assert!(matches!(press(&mut v, KeyCode::Enter), KeyAction::Quit));
}

#[test]
fn theme_picker_previews_then_saves() {
    let mut v = view();
    press(&mut v, KeyCode::Esc);
    press(&mut v, KeyCode::Down);
    press(&mut v, KeyCode::Enter);
    assert!(matches!(v.menu.overlays.overlay, Some(Overlay::ThemePicker { selected: 5 })));
    match press(&mut v, KeyCode::Up) {
        KeyAction::PreviewTheme(id) => assert_eq!(id, ThemeId::Halloween),
        other => panic!("{other:?}"),
    }
    match press(&mut v, KeyCode::Enter) {
        KeyAction::SaveTheme(id) => assert_eq!(id, ThemeId::Halloween),
        other => panic!("{other:?}"),
    }
    assert!(matches!(v.menu.overlays.overlay, Some(Overlay::Settings { selected: 1 })));
}

#[test]
fn waiting_list_keeps_the_playing_track() {
    let mut v = view();
    v.queue = vec![track("1", None), track("2", None), track("3", None)];
    v.queue_index = 0;
    press(&mut v, KeyCode::Char('w'));
    assert!(matches!(v.menu.overlays.overlay, Some(Overlay::WaitingList { selected: 0 })));
    assert!(matches!(press(&mut v, KeyCode::Delete), KeyAction::Continue));
    press(&mut v, KeyCode::Down);
    press(&mut v, KeyCode::Down);
    press(&mut v, KeyCode::Down);
    assert!(matches!(v.menu.overlays.overlay, Some(Overlay::WaitingList { selected: 2 })));
    match press(&mut v, KeyCode::Char('d')) {
        KeyAction::SendCommand(Command::RemoveFromQueue { index }) => assert_eq!(index, 2),
        other => panic!("{other:?}"),
    }
    assert!(matches!(v.menu.overlays.overlay, Some(Overlay::WaitingList { selected: 1 })));
    match press(&mut v, KeyCode::Char('f')) {
        KeyAction::SendCommand(Command::AddFavorite { track_id }) => assert_eq!(track_id, "2"),
        other => panic!("{other:?}"),
    }
    press(&mut v, KeyCode::Char('w'));
    assert!(v.menu.overlays.overlay.is_none());
}

#[test]
fn album_page_opens_the_artist_of_a_track() {
    let mut v = view();
    v.album_detail = Some(AlbumDetail {
        album_id: "al1".to_string(),
        title: "Record".to_string(),
        artist: "Band".to_string(),
        nb_tracks: 2,
        release_date: String::new(),
        cover_url: String::new(),
        label: String::new(),
        tracks: vec![track("1", None), track("2", Some("27"))],
    });
    v.menu.overlays.set_nav_overlay(Overlay::AlbumDetail { from_artist: false });
    assert!(matches!(press(&mut v, KeyCode::Char('t')), KeyAction::Continue));
    press(&mut v, KeyCode::Down);
    press(&mut v, KeyCode::Down);
    assert_eq!(v.menu.album_detail_selected, 1);
    match press(&mut v, KeyCode::Char('t')) {
        KeyAction::SendCommand(Command::GetArtistDetail { artist_id }) => assert_eq!(artist_id, "27"),
        other => panic!("{other:?}"),
    }
    assert!(matches!(v.menu.overlays.overlay, Some(Overlay::ArtistDetail)));
    press(&mut v, KeyCode::Esc);
    assert!(matches!(v.menu.overlays.overlay, Some(Overlay::AlbumDetail { .. })));
    match press(&mut v, KeyCode::Char('d')) {
        KeyAction::SendCommand(Command::DownloadAlbumOffline { album_id }) => assert_eq!(album_id, "al1"),
        other => panic!("{other:?}"),
    }
    assert!(matches!(press(&mut v, KeyCode::Char('+')), KeyAction::ChangeVolume { up: true }));
}

#[test]
fn update_prompt_choices() {
    let mut v = view();
    v.menu.overlays.push_overlay(Overlay::UpdateAvailable {
        version: "2.0.0".to_string(),
        download_url: "https://example.org/x".to_string(),
        selected: 0,
    });
    match press(&mut v, KeyCode::Enter) {
        KeyAction::PerformUpdate { version, download_url } => {
            assert_eq!(version, "2.0.0");
            assert_eq!(download_url, "https://example.org/x");
        }
        other => panic!("{other:?}"),
    }
    press(&mut v, KeyCode::Down);
    press(&mut v, KeyCode::Down);
    press(&mut v, KeyCode::Down);
    assert!(matches!(press(&mut v, KeyCode::Enter), KeyAction::SkipUpdates));
    assert!(v.menu.overlays.overlay.is_none());
}

#[test]
fn ctrl_space_opens_the_menu_of_the_playing_track() {
    let mut v = view();
    let s = t(Locale::English);
    v.handle_main_key(Key { code: KeyCode::Char(' '), ctrl: true }, &s, ThemeId::DarkPurple, Locale::English);
    assert!(v.menu.popup.is_none());
    v.current_track = Some(track("9", None));
    v.handle_main_key(Key { code: KeyCode::Char(' '), ctrl: true }, &s, ThemeId::DarkPurple, Locale::English);
    let p = v.menu.popup.as_ref().expect("menu");
    assert_eq!(p.title.as_deref(), Some("Song 9 — Band"));
}

fn snapshot() -> deezer_tui::protocol::Snapshot {
    Daemon::new(Some("arl".to_string()), AudioQuality::Mp3_128, false, OfflineIndex::new()).snapshot(&t(Locale::English))
}

fn playlist(id: &str) -> PlaylistData {
    PlaylistData {
        playlist_id: id.to_string(),
        title: format!("List {id}"),
        nb_songs: 3,
        author: "me".to_string(),
        collaborative: false,
    }
}

#[test]
fn first_view_shows_everything_unfiltered() {
    let mut snap = snapshot();
    snap.favorites_display = vec![row("a", "b"), row("c", "d")];
    snap.radios = vec![RadioItem { id: 1, title: "Jazz".to_string() }];
    let (v, login) = ClientView::from_snapshot(snap);
    assert_eq!(v.favorites_filtered, vec![0, 1]);
    assert_eq!(v.radios_filtered.len(), 1);
    assert!(v.menu.overlays.overlay.is_none());
    assert_eq!(login.mode, LoginMode::Button);
    assert_eq!(v.input_mode, InputMode::Normal);
}

#[test]
fn snapshot_keeps_the_filter_unless_the_category_changes() {
    let (mut v, mut login) = ClientView::from_snapshot(snapshot());
    v.favorites_filter_input = vec!['y'];
    let mut snap = snapshot();
    snap.favorites_display = vec![row("Yellow", "Coldplay"), row("Blue", "Eiffel 65")];
    snap.favorites_category = v.favorites_category;
    v.apply_snapshot(&mut login, snap);
    assert_eq!(v.favorites_filtered, vec![0]);
    assert_eq!(v.favorites_filter_input, vec!['y']);
    let mut snap = snapshot();
    snap.favorites_display = vec![row("Yellow", "Coldplay"), row("Blue", "Eiffel 65")];
    snap.favorites_category = FavoritesCategory::Playlists;
    v.apply_snapshot(&mut login, snap);
    assert!(v.favorites_filter_input.is_empty());
    assert_eq!(v.favorites_filtered, vec![0, 1]);
}

#[test]
fn snapshot_refreshes_radios_only_when_they_change() {
    let (mut v, mut login) = ClientView::from_snapshot(snapshot());
    v.radio_filter_input = vec!['j'];
    let mut snap = snapshot();
    snap.radios = vec![RadioItem { id: 1, title: "Jazz".to_string() }, RadioItem { id: 2, title: "Rock".to_string() }];
    v.apply_snapshot(&mut login, snap);
    assert_eq!(v.radios_filtered.len(), 1);
    v.radios_selected = 0;
    let mut snap = snapshot();
    snap.radios = vec![RadioItem { id: 3, title: "Pop".to_string() }, RadioItem { id: 4, title: "Funk".to_string() }];
    v.apply_snapshot(&mut login, snap);
    assert_eq!(v.radios[0].id, 1);
}

#[test]
fn snapshot_fills_a_waiting_playlist_picker() {
    let (mut v, mut login) = ClientView::from_snapshot(snapshot());
    let mut menu = PopupMenu::full(track("1", None), false, &t(Locale::English));
    menu.sub_menu = Some(SubMenu::PlaylistPicker { playlists: Vec::new(), selected: 2, loading: true });
    v.menu.popup = Some(menu);
    let mut snap = snapshot();
    snap.playlists = vec![playlist("p1"), playlist("p2")];
    v.apply_snapshot(&mut login, snap);
    assert_eq!(v.menu.playlists.len(), 2);
    match &v.menu.popup.as_ref().unwrap().sub_menu {
        Some(SubMenu::PlaylistPicker { playlists, selected, loading }) => {
            assert_eq!(playlists.len(), 2);
            assert_eq!(*selected, 2);
            assert!(!loading);
        }
        other => panic!("{other:?}"),
    }
}

#[test]
fn logging_out_resets_the_local_state() {
    let (mut v, mut login) = ClientView::from_snapshot(snapshot());
    v.screen = Screen::Main;
    v.menu.overlays.push_overlay(Overlay::Info);
    v.radio_filter_typing = true;
    v.radio_filter_input = vec!['x'];
    login.mode = LoginMode::ArlInput;
    let mut snap = snapshot();
    snap.screen = Screen::Login;
    snap.login_loading = true;
    v.apply_snapshot(&mut login, snap);
    assert!(v.menu.overlays.overlay.is_none());
    assert!(v.radio_filter_input.is_empty());
    assert!(!v.radio_filter_typing);
    assert_eq!(login.mode, LoginMode::Button);
    assert!(login.loading);
}

#[test]
fn cover_of_the_open_page() {
    let mut v = view();
    assert_eq!(v.current_cover_url(), None);
    v.album_detail = Some(AlbumDetail {
        album_id: "a".to_string(),
        title: String::new(),
        artist: String::new(),
        nb_tracks: 0,
        release_date: String::new(),
        cover_url: "http://cover/album".to_string(),
        label: String::new(),
        tracks: Vec::new(),
    });
    v.menu.overlays.push_overlay(Overlay::AlbumDetail { from_artist: false });
    v.menu.overlays.push_overlay(Overlay::WaitingList { selected: 0 });
    assert_eq!(v.current_cover_url().as_deref(), Some("http://cover/album"));
    v.artist_detail = Some(ArtistDetail {
        artist_id: "27".to_string(),
        name: "Band".to_string(),
        nb_fan: 10,
        picture_url: "http://cover/artist".to_string(),
        top_tracks: Vec::new(),
        albums: vec![ArtistAlbumEntry {
            album_id: "x".to_string(),
            title: "First".to_string(),
            release_date: String::new(),
            fans: 0,
            record_type: "album".to_string(),
            cover_url: "http://cover/first".to_string(),
        }],
        similar_artists: Vec::new(),
    });
    v.menu.overlays.push_overlay(Overlay::ArtistDetail);
    assert_eq!(v.current_cover_url().as_deref(), Some("http://cover/artist"));
    v.artist_detail_sub_tab = ArtistSubTab::Albums;
    assert_eq!(v.current_cover_url().as_deref(), Some("http://cover/first"));
}

#[test]
fn clicks_on_the_login_button() {
    let login = LoginView::new();
    let area = Some((10, 5, 20, 3));
    assert!(matches!(handle_mouse_click(Screen::Login, &login, area, 10, 5), Some(KeyAction::WebLogin)));
    assert!(matches!(handle_mouse_click(Screen::Login, &login, area, 29, 7), Some(KeyAction::WebLogin)));
    assert!(handle_mouse_click(Screen::Login, &login, area, 30, 7).is_none());
    assert!(handle_mouse_click(Screen::Main, &login, area, 12, 6).is_none());
    assert!(handle_mouse_click(Screen::Login, &login, None, 12, 6).is_none());
}

#[test]
fn global_keys() {
    let mut v = view();
    let mut login = LoginView::new();
    let s = t(Locale::English);
    let ctrl = |c| Key { code: c, ctrl: true };
    assert!(matches!(v.handle_key(&mut login, ctrl(KeyCode::Char('c')), &s, ThemeId::DarkPurple, Locale::English), KeyAction::Detach));
    v.handle_key(&mut login, key(KeyCode::Char('?')), &s, ThemeId::DarkPurple, Locale::English);
    assert!(matches!(v.menu.overlays.overlay, Some(Overlay::Help { scroll: 0 })));
    v.handle_key(&mut login, key(KeyCode::Char('?')), &s, ThemeId::DarkPurple, Locale::English);
    assert!(v.menu.overlays.overlay.is_none());
    v.handle_key(&mut login, ctrl(KeyCode::Char('o')), &s, ThemeId::DarkPurple, Locale::English);
    assert!(matches!(v.menu.overlays.overlay, Some(Overlay::Settings { selected: 0 })));
    match v.handle_key(&mut login, ctrl(KeyCode::Right), &s, ThemeId::DarkPurple, Locale::English) {
        KeyAction::SendCommand(Command::SeekForward { secs }) => assert_eq!(secs, 10),
        other => panic!("{other:?}"),
    }
    v.screen = Screen::Login;
    assert!(matches!(
        v.handle_key(&mut login, key(KeyCode::Enter), &s, ThemeId::DarkPurple, Locale::English),
        KeyAction::WebLogin
    ));
    v.screen = Screen::Main;
    v.input_mode = InputMode::Typing;
    v.menu.overlays.clear_overlays();
    v.handle_key(&mut login, key(KeyCode::Char('?')), &s, ThemeId::DarkPurple, Locale::English);
    assert!(v.menu.overlays.overlay.is_none());
    assert_eq!(v.search_input, vec!['?']);
}

#[test]
fn picker_selection_is_checked() {
    assert!(picker_selection_ok(&Overlay::ThemePicker { selected: 10 }));
    assert!(!picker_selection_ok(&Overlay::ThemePicker { selected: 11 }));
    assert!(picker_selection_ok(&Overlay::LanguagePicker { selected: 4 }));
    assert!(!picker_selection_ok(&Overlay::LanguagePicker { selected: 5 }));
    assert!(picker_selection_ok(&Overlay::Help { scroll: 99 }));
}
