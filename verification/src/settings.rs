//! The browser's settings: their model, defaults, and search engines.

use vstd::prelude::*;
use vstd::string::*;
use crate::text::{concat, lemma_replaced_keeps_prefix, lemma_replaced_match, lemma_replaced_untouched, replace_all, replaced};
use crate::urls::{is_encoded_char, lemma_query_encoding, percent_decode, url_encode, url_encoded};
use vstd::utf8::{decode_utf8, encode_utf8};

verus! {

// ── Data model ───────────────────────────────────────────────────────────────

/// All settings.
#[derive(Debug, Clone)]
pub struct BrowserSettings {
    pub general: GeneralSettings,
    pub privacy: PrivacySettings,
    pub appearance: AppearanceSettings,
    pub search: SearchSettings,
}

/// Start pages, session restore, downloads. `download_path` holds the
/// directory's path as the operating system's bytes (the `OsStr` bytes of a
/// Unix path), so that any path, UTF-8 or not, is kept exactly.
#[derive(Debug, Clone)]
pub struct GeneralSettings {
    pub homepage: String,
    pub new_tab_url: String,
    pub restore_session: bool,
    pub download_path: Vec<u8>,
}

/// Script, cookie and tracking choices.
#[derive(Debug, Clone, Copy, PartialEq, Eq, Structural)]
pub struct PrivacySettings {
    pub javascript_enabled: bool,
    pub cookies_enabled: bool,
    pub block_third_party_cookies: bool,
    pub do_not_track: bool,
    pub clear_on_close: bool,
}

/// Look of the window. `zoom_level` holds the bits of the default page zoom
/// factor, an IEEE-754 double, as `f64::to_bits` gives them: the library keeps
/// the value and does no arithmetic on it.
#[derive(Debug, Clone, Copy, PartialEq, Eq, Structural)]
pub struct AppearanceSettings {
    pub theme: Theme,
    pub sidebar_position: SidebarPosition,
    pub show_status_bar: bool,
    pub zoom_level: u64,
}

/// The search engine and its options.
#[derive(Debug, Clone)]
pub struct SearchSettings {
    pub engine: SearchEngine,
    pub custom_url: Option<String>,
    pub suggest: bool,
}

#[derive(Debug, Clone, Copy, PartialEq, Eq, Structural)]
pub enum Theme {
    System,
    Light,
    Dark,
}

#[derive(Debug, Clone, Copy, PartialEq, Eq, Structural)]
pub enum SidebarPosition {
    Left,
    Right,
}

#[derive(Debug, Clone, Copy, PartialEq, Eq, Structural)]
pub enum SearchEngine {
    Brave,
    DuckDuckGo,
    Google,
    Startpage,
    Custom,
}

// ── Search engines ───────────────────────────────────────────────────────────

/// The Brave search address for the encoded query `enc`.
pub open spec fn brave_search(enc: Seq<char>) -> Seq<char> {
    "https://search.brave.com/search?q="@ + enc
}

/// The search address that `engine` gives for `query`; a custom engine's
/// template has each `%s` replaced by the encoded query and falls back to
/// Brave when there is no template.
pub open spec fn search_address(engine: SearchEngine, query: Seq<char>, custom_url: Option<Seq<char>>) -> Seq<char> {
    let enc = url_encoded(query);
    match engine {
        SearchEngine::Brave => brave_search(enc),
        SearchEngine::DuckDuckGo => "https://duckduckgo.com/?q="@ + enc,
        SearchEngine::Google => "https://www.google.com/search?q="@ + enc,
        SearchEngine::Startpage => "https://www.startpage.com/search?q="@ + enc,
        SearchEngine::Custom => match custom_url {
            Some(u) => replaced(u, "%s"@, enc),
            None => brave_search(enc),
        },
    }
}

/// The name shown for each engine.
pub open spec fn engine_label(engine: SearchEngine) -> Seq<char> {
    match engine {
        SearchEngine::Brave => "Brave Search"@,
        SearchEngine::DuckDuckGo => "DuckDuckGo"@,
        SearchEngine::Google => "Google"@,
        SearchEngine::Startpage => "Startpage"@,
        SearchEngine::Custom => "Custom"@,
    }
}

/// The bytes of an optional byte vector.
pub open spec fn opt_bytes(o: Option<Vec<u8>>) -> Option<Seq<u8>> {
    match o {
        Some(v) => Some(v@),
        None => None,
    }
}

/// The characters of an optional text.
pub open spec fn opt_str_chars(o: Option<&str>) -> Option<Seq<char>> {
    match o {
        Some(s) => Some(s@),
        None => None,
    }
}

impl SearchEngine {
    /// The address that searches for `query` with this engine.
    pub fn search_url(&self, query: &str, custom_url: Option<&str>) -> (r: String)
        ensures
            r@ == search_address(*self, query@, opt_str_chars(custom_url)),
    {
        let encoded = url_encode(query);
        match self {
            SearchEngine::Brave => concat("https://search.brave.com/search?q=", encoded.as_str()),
            SearchEngine::DuckDuckGo => concat("https://duckduckgo.com/?q=", encoded.as_str()),
            SearchEngine::Google => concat("https://www.google.com/search?q=", encoded.as_str()),
            SearchEngine::Startpage => concat("https://www.startpage.com/search?q=", encoded.as_str()),
            SearchEngine::Custom => match custom_url {
                Some(u) => {
                    proof {
                        reveal_strlit("%s");
                    }
                    replace_all(u, "%s", encoded.as_str())
                },
                None => concat("https://search.brave.com/search?q=", encoded.as_str()),
            },
        }
    }

    /// The name shown for this engine.
    pub fn label(&self) -> (r: &'static str)
        ensures
            r@ == engine_label(*self),
    {
        match self {
            SearchEngine::Brave => "Brave Search",
            SearchEngine::DuckDuckGo => "DuckDuckGo",
            SearchEngine::Google => "Google",
            SearchEngine::Startpage => "Startpage",
            SearchEngine::Custom => "Custom",
        }
    }
}

/// The fixed text a built-in engine puts before the encoded query.
pub open spec fn engine_prefix(engine: SearchEngine) -> Seq<char> {
    match engine {
        SearchEngine::DuckDuckGo => "https://duckduckgo.com/?q="@,
        SearchEngine::Google => "https://www.google.com/search?q="@,
        SearchEngine::Startpage => "https://www.startpage.com/search?q="@,
        _ => "https://search.brave.com/search?q="@,
    }
}

/// A built-in engine's search address is its fixed prefix followed by the
/// query's encoding, whatever custom template is set; that encoding holds
/// only unreserved ASCII characters and `%` and reads back to the query.
pub proof fn lemma_built_in_engines(engine: SearchEngine, query: Seq<char>, custom_url: Option<Seq<char>>)
    requires
        engine != SearchEngine::Custom,
    ensures
        search_address(engine, query, custom_url) == engine_prefix(engine) + url_encoded(query),
        search_address(engine, query, custom_url) == search_address(engine, query, None),
        forall|j: int| 0 <= j < url_encoded(query).len() ==> is_encoded_char(#[trigger] url_encoded(query)[j]),
        decode_utf8(percent_decode(url_encoded(query))) == query,
{
    lemma_query_encoding(query, query);
}

/// A custom engine without a template searches with Brave. A template with no
/// `%` is used as it is; in one with `%s` between pieces that hold no `%`,
/// every `%s` becomes the encoded query and the pieces stay.
pub proof fn lemma_custom_engine(query: Seq<char>, before: Seq<char>, after: Seq<char>)
    requires
        forall|j: int| 0 <= j < before.len() ==> before[j] != '%',
        forall|j: int| 0 <= j < after.len() ==> after[j] != '%',
    ensures
        search_address(SearchEngine::Custom, query, None) == "https://search.brave.com/search?q="@
            + url_encoded(query),
        search_address(SearchEngine::Custom, query, Some(before)) == before,
        search_address(SearchEngine::Custom, query, Some(before + "%s"@ + after)) == before + url_encoded(query)
            + after,
        search_address(SearchEngine::Custom, query, Some(before + "%s"@ + after + "%s"@ + before)) == before
            + url_encoded(query) + after + url_encoded(query) + before,
{
    reveal_strlit("%s");
    let pat = "%s"@;
    let enc = url_encoded(query);
    assert(pat[0] == '%');
    lemma_replaced_untouched(before, pat, enc);
    lemma_replaced_untouched(after, pat, enc);
    // One `%s`.
    lemma_replaced_match(pat, after, enc);
    lemma_replaced_keeps_prefix(before, pat + after, pat, enc);
    assert(before + pat + after =~= before + (pat + after));
    assert(before + (enc + after) =~= before + enc + after);
    // Two of them.
    let tail = pat + before;
    lemma_replaced_match(pat, before, enc);
    lemma_replaced_keeps_prefix(after, tail, pat, enc);
    lemma_replaced_match(pat, after + tail, enc);
    lemma_replaced_keeps_prefix(before, pat + (after + tail), pat, enc);
    assert(before + pat + after + pat + before =~= before + (pat + (after + tail)));
    assert(before + (enc + (after + (enc + before))) =~= before + enc + after + enc + before);
}

// ── Settings-page choices ────────────────────────────────────────────────────

/// The name the settings page shows for each theme.
pub open spec fn theme_label(theme: Theme) -> Seq<char> {
    match theme {
        Theme::System => "Follow system"@,
        Theme::Light => "Light"@,
        Theme::Dark => "Dark"@,
    }
}

impl Theme {
    /// The name the settings page shows for this theme.
    pub fn label(&self) -> (r: &'static str)
        ensures
            r@ == theme_label(*self),
    {
        match self {
            Theme::System => "Follow system",
            Theme::Light => "Light",
            Theme::Dark => "Dark",
        }
    }
}

impl SearchSettings {
    /// Whether `engine`'s button is the highlighted one.
    pub fn is_selected(&self, engine: SearchEngine) -> (r: bool)
        ensures
            r == (engine == self.engine),
    {
        engine == self.engine
    }

    /// Whether the page offers the custom search template field: only for the
    /// custom engine.
    pub fn shows_custom_url(&self) -> (r: bool)
        ensures
            r == (self.engine == SearchEngine::Custom),
    {
        self.engine == SearchEngine::Custom
    }
}

impl AppearanceSettings {
    /// Whether `theme`'s button is the highlighted one.
    pub fn theme_is_selected(&self, theme: Theme) -> (r: bool)
        ensures
            r == (theme == self.theme),
    {
        theme == self.theme
    }

    /// Whether the button for sidebar position `position` is the highlighted one.
    pub fn sidebar_is_selected(&self, position: SidebarPosition) -> (r: bool)
        ensures
            r == (position == self.sidebar_position),
    {
        position == self.sidebar_position
    }
}

// ── Defaults ─────────────────────────────────────────────────────────────────

/// The bits of the default zoom factor, 1.0.
pub const DEFAULT_ZOOM_BITS: u64 = 0x3ff0_0000_0000_0000u64;

/// Where downloads go when the system names no download directory: the
/// UTF-8 bytes of `~/Downloads`.
pub open spec fn fallback_download_dir() -> Seq<u8> {
    encode_utf8("~/Downloads"@)
}

impl GeneralSettings {
    /// The default general settings, given the system's download directory:
    /// both start pages `https://start.page`, session restore on, downloads to
    /// that directory or `~/Downloads`.
    pub fn default_with(download_dir: Option<Vec<u8>>) -> (r: GeneralSettings)
        ensures
            r.homepage@ == "https://start.page"@,
            r.new_tab_url@ == "https://start.page"@,
            r.restore_session,
            r.download_path@ == match download_dir {
                Some(d) => d@,
                None => fallback_download_dir(),
            },
    {
        let download_path = match download_dir {
            Some(d) => d,
            None => "~/Downloads".as_bytes_vec(),
        };
        GeneralSettings {
            homepage: String::from_str("https://start.page"),
            new_tab_url: String::from_str("https://start.page"),
            restore_session: true,
            download_path,
        }
    }
}

impl Default for PrivacySettings {
    /// JavaScript and cookies on, third-party cookies blocked, Do Not Track
    /// sent, data kept on close.
    fn default() -> (r: PrivacySettings)
        ensures
            r == (PrivacySettings {
                javascript_enabled: true,
                cookies_enabled: true,
                block_third_party_cookies: true,
                do_not_track: true,
                clear_on_close: false,
            }),
    {
        PrivacySettings {
            javascript_enabled: true,
            cookies_enabled: true,
            block_third_party_cookies: true,
            do_not_track: true,
            clear_on_close: false,
        }
    }
}

impl Default for AppearanceSettings {
    /// The system theme, the sidebar on the left, the status bar shown, zoom 1.0.
    fn default() -> (r: AppearanceSettings)
        ensures
            r == (AppearanceSettings {
                theme: Theme::System,
                sidebar_position: SidebarPosition::Left,
                show_status_bar: true,
                zoom_level: DEFAULT_ZOOM_BITS,
            }),
    {
        AppearanceSettings {
            theme: Theme::System,
            sidebar_position: SidebarPosition::Left,
            show_status_bar: true,
            zoom_level: DEFAULT_ZOOM_BITS,
        }
    }
}

impl Default for SearchSettings {
    /// Brave, no custom template, suggestions on.
    fn default() -> (r: SearchSettings)
        ensures
            r.engine == SearchEngine::Brave,
            r.custom_url is None,
            r.suggest,
    {
        SearchSettings { engine: SearchEngine::Brave, custom_url: None, suggest: true }
    }
}

impl BrowserSettings {
    /// These are the default settings for a system whose download directory
    /// is `download_dir`.
    pub open spec fn is_default_for(self, download_dir: Option<Seq<u8>>) -> bool {
        &&& self.general.homepage@ == "https://start.page"@
        &&& self.general.new_tab_url@ == "https://start.page"@
        &&& self.general.restore_session
        &&& self.general.download_path@ == match download_dir {
            Some(d) => d,
            None => fallback_download_dir(),
        }
        &&& self.privacy == (PrivacySettings {
            javascript_enabled: true,
            cookies_enabled: true,
            block_third_party_cookies: true,
            do_not_track: true,
            clear_on_close: false,
        })
        &&& self.appearance == (AppearanceSettings {
            theme: Theme::System,
            sidebar_position: SidebarPosition::Left,
            show_status_bar: true,
            zoom_level: DEFAULT_ZOOM_BITS,
        })
        &&& self.search.engine == SearchEngine::Brave
        &&& self.search.custom_url is None
        &&& self.search.suggest
    }

    /// The default settings, given the system's download directory.
    pub fn default_with(download_dir: Option<Vec<u8>>) -> (r: BrowserSettings)
        ensures
            r.is_default_for(opt_bytes(download_dir)),
    {
        BrowserSettings {
            general: GeneralSettings::default_with(download_dir),
            privacy: PrivacySettings::default(),
            appearance: AppearanceSettings::default(),
            search: SearchSettings::default(),
        }
    }

    /// The settings to use given what was read from the settings file: the
    /// stored settings when there are any, else the defaults.
    pub fn from_stored(stored: Option<BrowserSettings>, download_dir: Option<Vec<u8>>) -> (r: BrowserSettings)
        ensures
            stored matches Some(s) ==> r == s,
            stored is None ==> r.is_default_for(opt_bytes(download_dir)),
    {
        match stored {
            Some(s) => s,
            None => BrowserSettings::default_with(download_dir),
        }
    }
}

} // verus!
