use cosmic_browser::settings::{
    AppearanceSettings, BrowserSettings, PrivacySettings, SearchEngine, SearchSettings,
    SidebarPosition, Theme, DEFAULT_ZOOM_BITS,
};
use cosmic_browser::settings_ui::SettingsMessage;
use cosmic_browser::sidebar::SidebarTab;
use cosmic_browser::CosmicError;

#[test]
fn search_urls() {
    assert_eq!(SearchEngine::Brave.search_url("a b", None), "https://search.brave.com/search?q=a%20b");
    assert_eq!(SearchEngine::DuckDuckGo.search_url("a&b", None), "https://duckduckgo.com/?q=a%26b");
    assert_eq!(SearchEngine::Google.search_url("x", None), "https://www.google.com/search?q=x");
    assert_eq!(SearchEngine::Startpage.search_url("ü", None), "https://www.startpage.com/search?q=%C3%BC");
    assert_eq!(
        SearchEngine::Custom.search_url("q r", Some("https://s.example/?q=%s&again=%s")),
        "https://s.example/?q=q%20r&again=q%20r"
    );
    assert_eq!(SearchEngine::Custom.search_url("q", None), "https://search.brave.com/search?q=q");
    // A template without %s is used as it is.
    assert_eq!(SearchEngine::Custom.search_url("q", Some("https://fixed")), "https://fixed");
    // The engine's choice of template is ignored by the built-in engines.
    assert_eq!(SearchEngine::Google.search_url("x", Some("https://s/%s")), "https://www.google.com/search?q=x");
    // Unreserved characters stay.
    assert_eq!(SearchEngine::Brave.search_url("Az09-._~", None), "https://search.brave.com/search?q=Az09-._~");
}

#[test]
fn engine_labels() {
    assert_eq!(SearchEngine::Brave.label(), "Brave Search");
    assert_eq!(SearchEngine::DuckDuckGo.label(), "DuckDuckGo");
    assert_eq!(SearchEngine::Google.label(), "Google");
    assert_eq!(SearchEngine::Startpage.label(), "Startpage");
    assert_eq!(SearchEngine::Custom.label(), "Custom");
}

#[test]
fn default_settings() {
    let s = BrowserSettings::default_with(Some(b"/home/u/Downloads".to_vec()));
    assert_eq!(s.general.homepage, "https://start.page");
    assert_eq!(s.general.new_tab_url, "https://start.page");
    assert!(s.general.restore_session);
    assert_eq!(s.general.download_path, b"/home/u/Downloads".to_vec());
    assert_eq!(BrowserSettings::default_with(None).general.download_path, b"~/Downloads".to_vec());
    // A path that is not UTF-8 is kept byte for byte.
    let odd = vec![b'/', 0xff, 0xfe, b'd'];
    assert_eq!(BrowserSettings::default_with(Some(odd.clone())).general.download_path, odd);
    assert_eq!(
        s.privacy,
        PrivacySettings {
            javascript_enabled: true,
            cookies_enabled: true,
            block_third_party_cookies: true,
            do_not_track: true,
            clear_on_close: false,
        }
    );
    assert_eq!(s.appearance, AppearanceSettings::default());
    assert_eq!(s.appearance.theme, Theme::System);
    assert_eq!(s.appearance.sidebar_position, SidebarPosition::Left);
    assert!(s.appearance.show_status_bar);
    assert_eq!(f64::from_bits(s.appearance.zoom_level), 1.0);
    assert_eq!(DEFAULT_ZOOM_BITS, 1.0f64.to_bits());
    let d = SearchSettings::default();
    assert_eq!(d.engine, SearchEngine::Brave);
    assert!(d.custom_url.is_none());
    assert!(d.suggest);
}

#[test]
fn stored_settings_win_over_defaults() {
    let mut stored = BrowserSettings::default_with(None);
    stored.general.homepage = "https://mine".to_string();
    stored.search.engine = SearchEngine::Custom;
    let s = BrowserSettings::from_stored(Some(stored), Some(b"/d".to_vec()));
    assert_eq!(s.general.homepage, "https://mine");
    assert_eq!(s.general.download_path, b"~/Downloads".to_vec());
    assert_eq!(s.search.engine, SearchEngine::Custom);
    let s = BrowserSettings::from_stored(None, Some(b"/d".to_vec()));
    assert_eq!(s.general.download_path, b"/d".to_vec());
    assert_eq!(s.general.homepage, "https://start.page");
}

#[test]
fn settings_messages_carry_values() {
    match SettingsMessage::ThemeSelected(Theme::Dark) {
        SettingsMessage::ThemeSelected(t) => assert_eq!(t, Theme::Dark),
        _ => panic!(),
    }
}

#[test]
fn sidebar_entries() {
    let t = SidebarTab::new("New Tab", "about:blank");
    assert_eq!(t.title, "New Tab");
    assert_eq!(t.url, "about:blank");
    assert!(t.favicon.is_none());
}

#[test]
fn error_texts() {
    assert_eq!(CosmicError::NotFound.to_string(), "NotFound");
    assert_eq!(CosmicError::BadRequest.to_string(), "BadRequest");
    assert_eq!(CosmicError::Unauthorized.to_string(), "Unauthorized");
    assert_eq!(CosmicError::InternalServerError.to_string(), "InternalServerError");
}

#[test]
fn settings_page_choices() {
    assert_eq!(Theme::System.label(), "Follow system");
    assert_eq!(Theme::Light.label(), "Light");
    assert_eq!(Theme::Dark.label(), "Dark");
    let mut search = SearchSettings::default();
    assert!(search.is_selected(SearchEngine::Brave));
    assert!(!search.is_selected(SearchEngine::Google));
    assert!(!search.shows_custom_url());
    search.engine = SearchEngine::Custom;
    assert!(search.shows_custom_url());
    let a = AppearanceSettings::default();
    assert!(a.theme_is_selected(Theme::System));
    assert!(!a.theme_is_selected(Theme::Dark));
    assert!(a.sidebar_is_selected(SidebarPosition::Left));
    assert!(!a.sidebar_is_selected(SidebarPosition::Right));
}

#[test]
fn built_in_engines_ignore_the_template() {
    for e in [SearchEngine::Brave, SearchEngine::DuckDuckGo, SearchEngine::Google, SearchEngine::Startpage] {
        assert_eq!(e.search_url("x y", Some("https://t/%s")), e.search_url("x y", None));
    }
    let r = SearchEngine::DuckDuckGo.search_url("naïve / ?&=#", None);
    let enc = r.strip_prefix("https://duckduckgo.com/?q=").unwrap();
    assert!(enc.chars().all(|c| c.is_ascii_alphanumeric() || "-._~%".contains(c)));
    assert_eq!(urlencoding::decode(enc).unwrap(), "naïve / ?&=#");
}
