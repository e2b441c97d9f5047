use deezer_tui::i18n::{t, Locale, current_locale, locale_from_setting, LOCALE_COUNT};
use deezer_tui::theme::{Theme, ThemeId, THEME_COUNT};

#[test]
fn theme_keys_round_trip() {
    for id in ThemeId::ALL {
        assert_eq!(ThemeId::from_str(id.as_str()), Some(id));
    }
    assert_eq!(ThemeId::from_str("nope"), None);
    assert_eq!(ThemeId::DarkPurple.label(), "Dark Purple");
    assert_eq!(ThemeId::DarkBlue.as_str(), "dark_blue");
}

#[test]
fn active_theme_is_what_was_set() {
    let mut active = Theme::initial();
    assert_eq!(Theme::current(&active), ThemeId::DarkPurple);
    Theme::set(&mut active, ThemeId::Amber);
    assert_eq!(Theme::current(&active), ThemeId::Amber);
}

#[test]
fn locale_codes_round_trip() {
    for l in Locale::ALL {
        assert_eq!(Locale::from_str(l.as_str()), Some(l));
    }
    assert_eq!(Locale::from_str("xx"), None);
    assert_eq!(Locale::French.label(), "Français");
    let mut cur = Locale::English;
    deezer_tui::i18n::set(&mut cur, Locale::German);
    assert_eq!(current_locale(&cur), Locale::German);
}

#[test]
fn locale_from_environment_setting() {
    assert_eq!(locale_from_setting("fr_FR.UTF-8"), Locale::French);
    assert_eq!(locale_from_setting("de"), Locale::German);
    assert_eq!(locale_from_setting("C"), Locale::English);
}

#[test]
fn english_formatters() {
    let s = t(Locale::English);
    assert_eq!(s.fmt_results(3), "3 results");
    assert_eq!(s.fmt_error("Search error", "boom"), "Search error: boom");
}

#[test]
fn locale_settings_that_can_be_cut_at_two_bytes() {
    assert!(deezer_tui::i18n::locale_setting_ok("fr_FR.UTF-8"));
    assert!(deezer_tui::i18n::locale_setting_ok(""));
    assert!(deezer_tui::i18n::locale_setting_ok("é"));
    assert!(deezer_tui::i18n::locale_setting_ok("éa"));
    assert!(!deezer_tui::i18n::locale_setting_ok("日本"));
    assert!(!deezer_tui::i18n::locale_setting_ok("a日"));
    assert!(deezer_tui::i18n::locale_setting_ok("a.日本"));
}

#[test]
fn positions_of_themes_and_locales() {
    for i in 0..THEME_COUNT {
        assert_eq!(ThemeId::at(i).index(), i);
        assert_eq!(ThemeId::at(i), ThemeId::ALL[i]);
    }
    for i in 0..LOCALE_COUNT {
        assert_eq!(Locale::at(i).index(), i);
        assert_eq!(Locale::at(i), Locale::ALL[i]);
    }
    assert_eq!(ThemeId::DarkPurple.index(), 5);
    assert_eq!(Locale::German.index(), 4);
}

#[test]
fn english_until_a_locale_is_set() {
    let mut cur = Locale::initial();
    assert_eq!(current_locale(&cur), Locale::English);
    assert_eq!(t(cur).header_tracks, "Tracks");
    deezer_tui::i18n::set(&mut cur, Locale::French);
    assert_eq!(current_locale(&cur), Locale::French);
    let s = t(cur);
    assert_eq!(s.header_tracks, "Titres");
    assert_eq!(s.results, "Résultats");
    assert_eq!(s.cat_following, "Abonnements");
}
