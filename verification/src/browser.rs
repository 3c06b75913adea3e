//! Address normalisation, the scheme allowlist, the per-tab model, and the
//! multi-tab engine. The engine decides; the program that owns the native web
//! views carries out what it returns.

use vstd::prelude::*;
use vstd::string::*;
use crate::ipc::WebViewEvent;
use crate::text::{
    concat, contains_char, decimal, decimal_string, is_first_colon, lemma_scheme_part, lemma_scheme_part_is_prefix, scheme_of, scheme_part,
    seq_starts_with, starts_with, str_eq,
};
use crate::urls::{is_tab_newline_or_upper, scheme_read_verbatim, opt_chars, opt_parsed, parse_url, url_encode, url_encoded, url_parse, ParsedUrl};

verus! {

// ── Schemes ──────────────────────────────────────────────────────────────────

/// Schemes that the address bar passes through untouched.
pub open spec fn is_passthrough_scheme(p: Seq<char>) -> bool {
    ||| p == "about"@
    ||| p == "file"@
    ||| p == "data"@
    ||| p == "view-source"@
    ||| p == "blob"@
}

/// Schemes that a tab may navigate to.
pub open spec fn is_allowed_scheme_spec(p: Seq<char>) -> bool {
    ||| p == "http"@
    ||| p == "https"@
    ||| is_passthrough_scheme(p)
}

/// A navigation to `url` is allowed: the text before its first `':'` names an
/// allowed scheme.
pub open spec fn allowed_url(url: Seq<char>) -> bool {
    is_allowed_scheme_spec(scheme_part(url))
}

/// Whether `p` names a passthrough scheme.
fn passthrough_scheme(p: &str) -> (r: bool)
    ensures
        r == is_passthrough_scheme(p@),
{
    str_eq(p, "about") || str_eq(p, "file") || str_eq(p, "data") || str_eq(p, "view-source")
        || str_eq(p, "blob")
}

/// Whether a tab may navigate to `url`.
pub fn is_allowed_scheme(url: &str) -> (r: bool)
    ensures
        r == allowed_url(url@),
{
    let p = scheme_of(url);
    str_eq(p, "http") || str_eq(p, "https") || passthrough_scheme(p)
}

// ── Address normalisation ────────────────────────────────────────────────────

/// The parser read `parsed` as an `http` or `https` URL.
pub open spec fn parsed_as_web(parsed: Option<(Seq<char>, Option<Seq<char>>)>) -> bool {
    match parsed {
        Some((scheme, _)) => scheme == "http"@ || scheme == "https"@,
        None => false,
    }
}

/// A local address that is opened over plain `http`.
pub open spec fn is_local_address(s: Seq<char>) -> bool {
    ||| seq_starts_with(s, "localhost"@)
    ||| seq_starts_with(s, "127."@)
    ||| seq_starts_with(s, "[::1]"@)
}

/// Text that reads as a host name: it has a dot, no space, no `?`, and does
/// not begin with a dot.
pub open spec fn looks_like_host(s: Seq<char>) -> bool {
    &&& s.contains('.')
    &&& !s.contains(' ')
    &&& !s.contains('?')
    &&& !seq_starts_with(s, "."@)
}

/// What the address bar makes of `input`, given what the URL parser made of it.
pub open spec fn normalized(input: Seq<char>, parsed: Option<(Seq<char>, Option<Seq<char>>)>) -> Seq<char> {
    if is_passthrough_scheme(scheme_part(input)) {
        input
    } else if parsed_as_web(parsed) {
        input
    } else if is_local_address(input) {
        "http://"@ + input
    } else if looks_like_host(input) {
        "https://"@ + input
    } else {
        "https://search.brave.com/search?q="@ + url_encoded(input)
    }
}

/// Normalises `input` given what the URL parser made of it: passthrough
/// schemes and parsed `http(s)` URLs stay as they are, local addresses get
/// `http://`, host-like text gets `https://`, and anything else becomes a
/// Brave search for the text.
pub fn normalize_parsed(input: &str, parsed: &Option<ParsedUrl>) -> (r: String)
    ensures
        r@ == normalized(input@, opt_parsed(*parsed)),
{
    if passthrough_scheme(scheme_of(input)) {
        return String::from_str(input);
    }
    match parsed {
        Some(p) => {
            if str_eq(p.scheme.as_str(), "http") || str_eq(p.scheme.as_str(), "https") {
                return String::from_str(input);
            }
        },
        None => {},
    }
    if starts_with(input, "localhost") || starts_with(input, "127.") || starts_with(input, "[::1]") {
        return concat("http://", input);
    }
    let looks_like_host = contains_char(input, '.') && !contains_char(input, ' ')
        && !contains_char(input, '?') && !starts_with(input, ".");
    if looks_like_host {
        return concat("https://", input);
    }
    let encoded = url_encode(input);
    concat("https://search.brave.com/search?q=", encoded.as_str())
}

/// Text with no character up to U+0020 (controls and space) and no ASCII
/// upper-case letter.
pub open spec fn plain_text(s: Seq<char>) -> bool {
    forall|j: int| 0 <= j < s.len() ==> #[trigger] s[j] as u32 > 0x20 && !(0x41 <= s[j] as u32 <= 0x5a)
}

/// Normalises what the user typed into an address to load. For plain text the
/// address it gives always passes the scheme allowlist, so a tab never blocks
/// a load that the address bar asked for.
pub fn normalize_url(input: &str) -> (r: String)
    ensures
        r@ == normalized(input@, url_parse(input@)),
        plain_text(input@) ==> allowed_url(r@),
        plain_text(input@) && begins_local(input@) ==> r@ == "http://"@ + input@,
{
    let parsed = parse_url(input);
    let r = normalize_parsed(input, &parsed);
    proof {
        lemma_normalized_is_allowed(input@, url_parse(input@));
        if plain_text(input@) {
            let p = scheme_part(input@);
            lemma_scheme_part_is_prefix(input@);
            assert forall|j: int| 0 <= j < p.len() implies !is_tab_newline_or_upper(#[trigger] p[j]) by {
                assert(p[j] == input@[j]);
            }
            if input@.len() > 0 {
                assert(input@[0] as u32 > 0x20);
            }
            assert(scheme_read_verbatim(input@));
            if begins_local(input@) {
                lemma_local_scheme_part(input@);
                lemma_normalize_local(input@, url_parse(input@));
            }
        }
    }
    r
}

/// Text beginning with `localhost`, `127.` or `[::1]` has a scheme part that
/// begins with its first character, so it is none of the passthrough schemes
/// and neither `http` nor `https`.
proof fn lemma_local_scheme_part(input: Seq<char>)
    requires
        begins_local(input),
    ensures
        not_passthrough(input),
        scheme_part(input) != "http"@,
        scheme_part(input) != "https"@,
{
    reveal_strlit("localhost");
    reveal_strlit("127.");
    reveal_strlit("[::1]");
    reveal_strlit("about");
    reveal_strlit("file");
    reveal_strlit("data");
    reveal_strlit("view-source");
    reveal_strlit("blob");
    reveal_strlit("http");
    reveal_strlit("https");
    lemma_scheme_part_is_prefix(input);
    let c = input[0];
    if input.len() >= 9 && input.subrange(0, 9) == "localhost"@ {
        assert(input.subrange(0, 9)[0] == c);
    } else if input.len() >= 4 && input.subrange(0, 4) == "127."@ {
        assert(input.subrange(0, 4)[0] == c);
    } else {
        assert(input.subrange(0, 5)[0] == c);
    }
    assert(c == 'l' || c == '1' || c == '[');
    let p = scheme_part(input);
    assert(p.len() > 0 && p[0] == c);
}

/// `prefix` followed by anything has `scheme` as its scheme part, where
/// `prefix` is `scheme` followed by `':'`.
proof fn lemma_scheme_of_prefixed(scheme: Seq<char>, rest: Seq<char>)
    requires
        forall|j: int| 0 <= j < scheme.len() ==> scheme[j] != ':',
    ensures
        scheme_part(scheme.push(':') + rest) == scheme,
{
    let s = scheme.push(':') + rest;
    assert(is_first_colon(s, scheme.len() as int));
    lemma_scheme_part(s, scheme.len() as int);
    assert(s.take(scheme.len() as int) =~= scheme);
}

/// Every address that normalisation produces passes the scheme allowlist,
/// except an input that the URL parser read as `http`/`https`, which is kept
/// exactly as typed.
pub proof fn lemma_normalized_is_allowed(input: Seq<char>, parsed: Option<(Seq<char>, Option<Seq<char>>)>)
    ensures
        allowed_url(normalized(input, parsed))
            || (parsed_as_web(parsed) && normalized(input, parsed) == input),
{
    reveal_strlit("http://");
    reveal_strlit("https://");
    reveal_strlit("http");
    reveal_strlit("https");
    reveal_strlit("https://search.brave.com/search?q=");
    let http = "http"@;
    let https = "https"@;
    if is_passthrough_scheme(scheme_part(input)) {
    } else if parsed_as_web(parsed) {
    } else if is_local_address(input) {
        assert("http://"@ =~= http.push(':') + "//"@) by { reveal_strlit("//"); }
        lemma_scheme_of_prefixed(http, "//"@ + input);
        assert("http://"@ + input =~= http.push(':') + ("//"@ + input));
    } else if looks_like_host(input) {
        assert("https://"@ =~= https.push(':') + "//"@) by { reveal_strlit("//"); }
        lemma_scheme_of_prefixed(https, "//"@ + input);
        assert("https://"@ + input =~= https.push(':') + ("//"@ + input));
    } else {
        let tail = "//search.brave.com/search?q="@ + url_encoded(input);
        assert("https://search.brave.com/search?q="@ =~= https.push(':')
            + "//search.brave.com/search?q="@) by {
            reveal_strlit("//search.brave.com/search?q=");
        }
        lemma_scheme_of_prefixed(https, tail);
        assert("https://search.brave.com/search?q="@ + url_encoded(input) =~= https.push(':') + tail);
    }
}

// ── Handlers a tab's web view calls ─────────────────────────────────────────

/// What the navigation handler of tab `tab_id` decides for `url`: whether the
/// web view may load it, and the event it reports.
pub open spec fn navigation_outcome(tab_id: usize, url: String) -> (bool, WebViewEvent) {
    if allowed_url(url@) {
        (true, WebViewEvent::UrlChanged { tab_id, url })
    } else {
        (false, WebViewEvent::NavigationBlocked { tab_id, url })
    }
}

/// Decides a navigation of tab `tab_id` to `url`: an allowed scheme loads and
/// reports the new address; any other is refused and reported as blocked.
pub fn on_navigation(tab_id: usize, url: String) -> (r: (bool, WebViewEvent))
    ensures
        r == navigation_outcome(tab_id, url),
{
    if is_allowed_scheme(url.as_str()) {
        (true, WebViewEvent::UrlChanged { tab_id, url })
    } else {
        (false, WebViewEvent::NavigationBlocked { tab_id, url })
    }
}

/// The favicon address of a page: its origin's `/favicon.ico`, with an empty
/// host where the URL has none.
pub open spec fn favicon_address(parsed: (Seq<char>, Option<Seq<char>>)) -> Seq<char> {
    let host = match parsed.1 {
        Some(h) => h,
        None => Seq::empty(),
    };
    parsed.0 + "://"@ + host + "/favicon.ico"@
}

/// The favicon address of a page whose URL parsed to `parsed`.
pub fn favicon_url(parsed: &ParsedUrl) -> (r: String)
    ensures
        r@ == favicon_address(parsed@),
{
    let mut r = concat(parsed.scheme.as_str(), "://");
    match &parsed.host {
        Some(h) => r.append(h.as_str()),
        None => {},
    }
    r.append("/favicon.ico");
    r
}

/// The favicon event of tab `tab_id` for a page at `uri`: none where the
/// address does not parse as a URL.
pub fn favicon_event(tab_id: usize, uri: &str) -> (r: Option<WebViewEvent>)
    ensures
        match url_parse(uri@) {
            Some(p) => match r {
                Some(WebViewEvent::FaviconUrl { tab_id: t, url }) => t == tab_id && url@
                    == favicon_address(p),
                _ => false,
            },
            None => r is None,
        },
{
    match parse_url(uri) {
        Some(p) => Some(WebViewEvent::FaviconUrl { tab_id, url: favicon_url(&p) }),
        None => None,
    }
}

/// The start of the script injected into every page, up to the tab id.
pub open spec fn init_script_head() -> Seq<char> {
    "\n                    window.__cosmicBrowser = {\n                        ipc: (msg) => window.ipc.postMessage(JSON.stringify(msg)),\n                        tabId: "@
}

/// The end of the script injected into every page, after the tab id.
pub open spec fn init_script_tail() -> Seq<char> {
    ",\n                    };\n                "@
}

/// The script injected into every page of tab `tab_id`: it exposes the IPC
/// bridge and the tab's id as `window.__cosmicBrowser`.
pub fn initialization_script(tab_id: usize) -> (r: String)
    ensures
        r@ == init_script_head() + decimal(tab_id as nat) + init_script_tail(),
{
    let mut r = String::from_str(
        "\n                    window.__cosmicBrowser = {\n                        ipc: (msg) => window.ipc.postMessage(JSON.stringify(msg)),\n                        tabId: ",
    );
    let id = decimal_string(tab_id);
    r.append(id.as_str());
    r.append(",\n                    };\n                ");
    r
}

/// The script that delivers the JSON text `json` to a page as a
/// `cosmicBrowser` message event.
pub open spec fn post_message_text(json: Seq<char>) -> Seq<char> {
    "window.dispatchEvent(new MessageEvent('cosmicBrowser', { data: "@ + json + " }));"@
}

// ── Per-tab model ────────────────────────────────────────────────────────────

/// What the browser keeps about one tab besides its native web view.
#[derive(Debug, Clone)]
pub struct TabWebView {
    pub url: String,
    pub title: String,
    pub favicon_url: Option<String>,
    pub can_go_back: bool,
    pub can_go_forward: bool,
    pub is_loading: bool,
}

/// The contents of a tab's record.
pub struct TabView {
    pub url: Seq<char>,
    pub title: Seq<char>,
    pub favicon_url: Option<Seq<char>>,
    pub can_go_back: bool,
    pub can_go_forward: bool,
    pub is_loading: bool,
}

impl View for TabWebView {
    type V = TabView;

    open spec fn view(&self) -> TabView {
        TabView {
            url: self.url@,
            title: self.title@,
            favicon_url: opt_chars(self.favicon_url),
            can_go_back: self.can_go_back,
            can_go_forward: self.can_go_forward,
            is_loading: self.is_loading,
        }
    }
}

/// A fresh tab's record at `url`.
pub open spec fn fresh_tab(url: Seq<char>) -> TabView {
    TabView {
        url,
        title: "New Tab"@,
        favicon_url: None,
        can_go_back: false,
        can_go_forward: false,
        is_loading: false,
    }
}

impl TabWebView {
    /// The record of a tab just opened at `initial_url`: titled "New Tab",
    /// no favicon, no history, not loading.
    pub fn new(initial_url: &str) -> (r: TabWebView)
        ensures
            r@ == fresh_tab(initial_url@),
    {
        TabWebView {
            url: String::from_str(initial_url),
            title: String::from_str("New Tab"),
            favicon_url: None,
            can_go_back: false,
            can_go_forward: false,
            is_loading: false,
        }
    }

    /// Records that the tab now shows `url`; the web view loads it.
    pub fn navigate(&mut self, url: &str)
        ensures
            final(self)@ == (TabView { url: url@, ..old(self)@ }),
    {
        self.url = String::from_str(url);
    }

    /// Whether going back in the tab's history is possible, and so done.
    pub fn back(&self) -> (r: bool)
        ensures
            r == self.can_go_back,
    {
        self.can_go_back
    }

    /// Whether going forward in the tab's history is possible, and so done.
    pub fn forward(&self) -> (r: bool)
        ensures
            r == self.can_go_forward,
    {
        self.can_go_forward
    }

    /// The script that posts the JSON text `json` to the tab's page.
    pub fn post_message(&self, json: &str) -> (r: String)
        ensures
            r@ == post_message_text(json@),
    {
        let mut r = String::from_str("window.dispatchEvent(new MessageEvent('cosmicBrowser', { data: ");
        r.append(json);
        r.append(" }));");
        r
    }
}

// ── Multi-tab engine ─────────────────────────────────────────────────────────

/// Where a web view sits in the window: x, y, width, height.
pub type Bounds = (i32, i32, u32, u32);

/// A tab that the engine asks to be opened: its id, the normalised address,
/// where its web view goes, and whether it becomes the visible tab (in which
/// case every other web view is hidden first).
pub struct OpenTabPlan {
    pub tab_id: usize,
    pub url: String,
    pub bounds: Bounds,
    pub activate: bool,
}

/// The tabs, which of them is shown, whether the engine has a window to put
/// web views in, and where they go. Tab `i` stands for the `i`-th native web
/// view of the program that runs the engine.
pub struct BrowserEngine {
    tabs: Vec<TabWebView>,
    active: usize,
    attached: bool,
    bounds: Bounds,
}

/// The contents of an engine.
pub struct EngineView {
    pub tabs: Seq<TabView>,
    pub active: int,
    pub attached: bool,
    pub bounds: Bounds,
}

impl View for BrowserEngine {
    type V = EngineView;

    closed spec fn view(&self) -> EngineView {
        EngineView {
            tabs: self.tabs@.map_values(|t: TabWebView| t@),
            active: self.active as int,
            attached: self.attached,
            bounds: self.bounds,
        }
    }
}

impl EngineView {
    /// The shown tab is one of the tabs, or there are none and it is 0.
    pub open spec fn wf(self) -> bool {
        ||| 0 <= self.active < self.tabs.len()
        ||| (self.tabs.len() == 0 && self.active == 0)
    }

    /// There is a shown tab.
    pub open spec fn has_active(self) -> bool {
        0 <= self.active < self.tabs.len()
    }

    /// The address of the shown tab, or `about:blank` when there is none.
    pub open spec fn current_url(self) -> Seq<char> {
        if self.has_active() {
            self.tabs[self.active].url
        } else {
            "about:blank"@
        }
    }

    /// A tab at `url` added last, and shown when `activate`.
    pub open spec fn with_tab_opened(self, url: Seq<char>, activate: bool) -> EngineView {
        EngineView {
            tabs: self.tabs.push(fresh_tab(url)),
            active: if activate { self.tabs.len() as int } else { self.active },
            ..self
        }
    }

    /// Tab `idx` closed, unless it is the last one; the shown tab stays or
    /// moves to the new last tab.
    pub open spec fn after_close(self, idx: int) -> EngineView {
        if self.tabs.len() <= 1 {
            self
        } else {
            let tabs = self.tabs.remove(idx);
            EngineView {
                tabs,
                active: if self.active < tabs.len() { self.active } else { tabs.len() - 1 },
                ..self
            }
        }
    }

    /// Tab `idx` shown, when there is one.
    pub open spec fn after_select(self, idx: int) -> EngineView {
        if 0 <= idx < self.tabs.len() {
            EngineView { active: idx, ..self }
        } else {
            self
        }
    }

    /// The shown tab at `url`, when there is one.
    pub open spec fn after_navigate(self, url: Seq<char>) -> EngineView {
        if self.has_active() {
            EngineView {
                tabs: self.tabs.update(self.active, TabView { url, ..self.tabs[self.active] }),
                ..self
            }
        } else {
            self
        }
    }

    /// The history flags of tab `tab_id` set, when there is such a tab.
    pub open spec fn after_can_go(self, tab_id: int, back: bool, forward: bool) -> EngineView {
        if 0 <= tab_id < self.tabs.len() {
            EngineView {
                tabs: self.tabs.update(
                    tab_id,
                    TabView { can_go_back: back, can_go_forward: forward, ..self.tabs[tab_id] },
                ),
                ..self
            }
        } else {
            self
        }
    }

    /// The tab whose web view goes back, if any: the shown tab, when its
    /// history allows it.
    pub open spec fn back_target(self) -> Option<int> {
        if self.has_active() && self.tabs[self.active].can_go_back {
            Some(self.active)
        } else {
            None
        }
    }

    /// The tab whose web view goes forward, if any.
    pub open spec fn forward_target(self) -> Option<int> {
        if self.has_active() && self.tabs[self.active].can_go_forward {
            Some(self.active)
        } else {
            None
        }
    }

    /// The shown tab, if any.
    pub open spec fn active_target(self) -> Option<int> {
        if self.has_active() {
            Some(self.active)
        } else {
            None
        }
    }
}

/// The address the engine opens when it gets a window.
pub open spec fn start_page() -> Seq<char> {
    "https://start.page"@
}

/// Replacing one record and then viewing the records is viewing them and then
/// replacing that view.
proof fn lemma_update_then_view(tabs: Seq<TabWebView>, i: int, t: TabWebView)
    requires
        0 <= i < tabs.len(),
    ensures
        tabs.update(i, t).map_values(|x: TabWebView| x@) =~= tabs.map_values(|x: TabWebView| x@).update(
            i,
            t@,
        ),
{
}

impl BrowserEngine {
    /// The engine is well formed.
    pub open spec fn wf(&self) -> bool {
        self@.wf()
    }

    /// An engine with no tabs and no window yet.
    pub fn new() -> (r: BrowserEngine)
        ensures
            r@ == (EngineView { tabs: Seq::empty(), active: 0, attached: false, bounds: (220, 46, 1060, 720) }),
            r.wf(),
    {
        let r = BrowserEngine { tabs: Vec::new(), active: 0, attached: false, bounds: (220, 46, 1060, 720) };
        assert(r@.tabs =~= Seq::<TabView>::empty());
        r
    }

    /// Gives the engine its window and the web views' bounds, and asks for a
    /// shown tab at the start page.
    pub fn attach(&mut self, x: i32, y: i32, width: u32, height: u32) -> (r: Option<OpenTabPlan>)
        requires
            old(self).wf(),
        ensures
            final(self)@ == (EngineView { attached: true, bounds: (x, y, width, height), ..old(self)@ }),
            final(self).wf(),
            r matches Some(p) && p.tab_id == old(self)@.tabs.len() && p.url@ == normalized(
                start_page(),
                url_parse(start_page()),
            ) && p.bounds == (x, y, width, height) && p.activate,
    {
        self.attached = true;
        self.bounds = (x, y, width, height);
        self.open_tab("https://start.page", true)
    }

    /// Whether the engine has a window.
    pub fn is_attached(&self) -> (r: bool)
        ensures
            r == self@.attached,
    {
        self.attached
    }

    /// Asks for a new tab at the normalised `url`, with the next tab id;
    /// nothing when there is no window yet.
    pub fn open_tab(&self, url: &str, activate: bool) -> (r: Option<OpenTabPlan>)
        ensures
            r is Some <==> self@.attached,
            r matches Some(p) ==> p.tab_id == self@.tabs.len() && p.url@ == normalized(
                url@,
                url_parse(url@),
            ) && p.bounds == self@.bounds && p.activate == activate,
    {
        if !self.attached {
            return None;
        }
        let url = normalize_url(url);
        Some(OpenTabPlan { tab_id: self.tabs.len(), url, bounds: self.bounds, activate })
    }

    /// Records a tab whose web view was created at `url`; it becomes the shown
    /// tab when `activate`. Returns its id.
    pub fn tab_created(&mut self, url: &str, activate: bool) -> (id: usize)
        requires
            old(self).wf(),
        ensures
            final(self)@ == old(self)@.with_tab_opened(url@, activate),
            final(self).wf(),
            id == old(self)@.tabs.len(),
    {
        let id = self.tabs.len();
        self.tabs.push(TabWebView::new(url));
        if activate {
            self.active = id;
        }
        assert(self@.tabs =~= old(self)@.tabs.push(fresh_tab(url@)));
        id
    }

    /// Closes tab `idx` unless it is the only one. Returns the tab to show
    /// afterwards, or nothing when no tab was closed.
    pub fn close_tab(&mut self, idx: usize) -> (r: Option<usize>)
        requires
            old(self).wf(),
            old(self)@.tabs.len() > 1 ==> idx < old(self)@.tabs.len(),
        ensures
            final(self)@ == old(self)@.after_close(idx as int),
            final(self).wf(),
            r == (if old(self)@.tabs.len() > 1 { Some(final(self)@.active as usize) } else { None::<usize> }),
    {
        if self.tabs.len() <= 1 {
            return None;
        }
        self.tabs.remove(idx);
        let last = self.tabs.len() - 1;
        if self.active > last {
            self.active = last;
        }
        assert(self@.tabs =~= old(self)@.tabs.remove(idx as int));
        Some(self.active)
    }

    /// Shows tab `idx`, when there is one. Returns the tab that was shown
    /// before, whose web view is hidden.
    pub fn select_tab(&mut self, idx: usize) -> (r: Option<usize>)
        requires
            old(self).wf(),
        ensures
            final(self)@ == old(self)@.after_select(idx as int),
            final(self).wf(),
            r == (if idx < old(self)@.tabs.len() { Some(old(self)@.active as usize) } else { None::<usize> }),
    {
        if idx >= self.tabs.len() {
            return None;
        }
        let prev = self.active;
        self.active = idx;
        Some(prev)
    }

    /// Moves every web view to the given bounds, now and for tabs opened later.
    pub fn set_bounds(&mut self, x: i32, y: i32, width: u32, height: u32)
        ensures
            final(self)@ == (EngineView { bounds: (x, y, width, height), ..old(self)@ }),
    {
        self.bounds = (x, y, width, height);
    }

    /// Sends the shown tab to the normalised `url`. Returns the tab and the
    /// address its web view loads, or nothing when there is no tab.
    pub fn navigate(&mut self, url: &str) -> (r: Option<(usize, String)>)
        requires
            old(self).wf(),
        ensures
            final(self)@ == old(self)@.after_navigate(normalized(url@, url_parse(url@))),
            final(self).wf(),
            r is Some <==> old(self)@.has_active(),
            r matches Some((i, u)) ==> i == old(self)@.active && u@ == normalized(url@, url_parse(url@)),
    {
        let url = normalize_url(url);
        if self.active < self.tabs.len() {
            let i = self.active;
            self.tabs[i].navigate(url.as_str());
            assert(self@.tabs =~= old(self)@.tabs.update(
                i as int,
                TabView { url: url@, ..old(self)@.tabs[i as int] },
            ));
            Some((i, url))
        } else {
            None
        }
    }

    /// The tab whose web view goes back: the shown tab, when it can.
    pub fn back(&self) -> (r: Option<usize>)
        ensures
            r matches Some(i) ==> self@.back_target() == Some(i as int),
            r is None ==> self@.back_target() is None,
    {
        if self.active < self.tabs.len() && self.tabs[self.active].back() {
            Some(self.active)
        } else {
            None
        }
    }

    /// The tab whose web view goes forward: the shown tab, when it can.
    pub fn forward(&self) -> (r: Option<usize>)
        ensures
            r matches Some(i) ==> self@.forward_target() == Some(i as int),
            r is None ==> self@.forward_target() is None,
    {
        if self.active < self.tabs.len() && self.tabs[self.active].forward() {
            Some(self.active)
        } else {
            None
        }
    }

    /// The shown tab, if any.
    fn shown(&self) -> (r: Option<usize>)
        ensures
            r matches Some(i) ==> self@.active_target() == Some(i as int),
            r is None ==> self@.active_target() is None,
    {
        if self.active < self.tabs.len() {
            Some(self.active)
        } else {
            None
        }
    }

    /// The tab whose web view reloads: the shown tab, if any.
    pub fn reload(&self) -> (r: Option<usize>)
        ensures
            r matches Some(i) ==> self@.active_target() == Some(i as int),
            r is None ==> self@.active_target() is None,
    {
        self.shown()
    }

    /// The tab whose web view zooms in: the shown tab, if any.
    pub fn zoom_in(&self) -> (r: Option<usize>)
        ensures
            r matches Some(i) ==> self@.active_target() == Some(i as int),
            r is None ==> self@.active_target() is None,
    {
        self.shown()
    }

    /// The tab whose web view zooms out: the shown tab, if any.
    pub fn zoom_out(&self) -> (r: Option<usize>)
        ensures
            r matches Some(i) ==> self@.active_target() == Some(i as int),
            r is None ==> self@.active_target() is None,
    {
        self.shown()
    }

    /// The tab whose web view returns to the default zoom: the shown tab, if any.
    pub fn zoom_reset(&self) -> (r: Option<usize>)
        ensures
            r matches Some(i) ==> self@.active_target() == Some(i as int),
            r is None ==> self@.active_target() is None,
    {
        self.shown()
    }

    /// The address of the shown tab, or `about:blank` when there is none.
    pub fn current_url(&self) -> (r: &str)
        ensures
            r@ == self@.current_url(),
    {
        if self.active < self.tabs.len() {
            self.tabs[self.active].url.as_str()
        } else {
            "about:blank"
        }
    }

    /// The record of the shown tab, if any.
    pub fn active_tab(&self) -> (r: Option<&TabWebView>)
        ensures
            r matches Some(t) ==> self@.has_active() && t@ == self@.tabs[self@.active],
            r is None ==> !self@.has_active(),
    {
        if self.active < self.tabs.len() {
            Some(&self.tabs[self.active])
        } else {
            None
        }
    }

    /// The record of the shown tab, for changing it in place.
    pub fn active_tab_mut(&mut self) -> (r: Option<&mut TabWebView>)
        ensures
            r is Some <==> old(self)@.has_active(),
            r is None ==> final(self)@ == old(self)@,
            r matches Some(t) ==> (*t)@ == old(self)@.tabs[old(self)@.active] && final(self)@ == (
            EngineView {
                tabs: old(self)@.tabs.update(old(self)@.active, (*final(t))@),
                ..old(self)@
            }),
    {
        let i = self.active;
        self.tab_mut(i)
    }

    /// The record of tab `idx`, for changing it in place.
    pub fn tab_mut(&mut self, idx: usize) -> (r: Option<&mut TabWebView>)
        ensures
            r is Some <==> idx < old(self)@.tabs.len(),
            r is None ==> final(self)@ == old(self)@,
            r matches Some(t) ==> (*t)@ == old(self)@.tabs[idx as int] && final(self)@ == (EngineView {
                tabs: old(self)@.tabs.update(idx as int, (*final(t))@),
                ..old(self)@
            }),
    {
        if idx < self.tabs.len() {
            let t = &mut self.tabs[idx];
            proof {
                lemma_update_then_view(old(self).tabs@, idx as int, *final(t));
            }
            Some(t)
        } else {
            None
        }
    }

    /// The number of tabs.
    pub fn tab_count(&self) -> (r: usize)
        ensures
            r == self@.tabs.len(),
    {
        self.tabs.len()
    }

    /// Records whether tab `tab_id` can go back and forward.
    pub fn update_can_go(&mut self, tab_id: usize, back: bool, forward: bool)
        requires
            old(self).wf(),
        ensures
            final(self)@ == old(self)@.after_can_go(tab_id as int, back, forward),
            final(self).wf(),
    {
        if tab_id < self.tabs.len() {
            self.tabs[tab_id].can_go_back = back;
            self.tabs[tab_id].can_go_forward = forward;
            assert(self@.tabs =~= old(self)@.tabs.update(
                tab_id as int,
                TabView { can_go_back: back, can_go_forward: forward, ..old(self)@.tabs[tab_id as int] },
            ));
        }
    }
}

// ── Laws of the engine ───────────────────────────────────────────────────────

/// After navigating, the engine's current address is the address navigated to
/// (whenever there is a tab).
pub proof fn lemma_navigate_then_current_url(e: EngineView, url: Seq<char>)
    requires
        e.wf(),
        e.tabs.len() > 0,
    ensures
        e.after_navigate(url).current_url() == url,
{
}

/// After selecting an existing tab, the current address is that tab's.
pub proof fn lemma_select_then_current_url(e: EngineView, idx: int)
    requires
        e.wf(),
        0 <= idx < e.tabs.len(),
    ensures
        e.after_select(idx).current_url() == e.tabs[idx].url,
{
}

/// Closing never leaves the engine without tabs: with several tabs it removes
/// exactly one, with one it keeps it.
pub proof fn lemma_close_keeps_a_tab(e: EngineView, idx: int)
    requires
        e.wf(),
        e.tabs.len() >= 1,
        e.tabs.len() > 1 ==> 0 <= idx < e.tabs.len(),
    ensures
        e.after_close(idx).tabs.len() >= 1,
        e.tabs.len() > 1 ==> e.after_close(idx).tabs.len() == e.tabs.len() - 1,
        e.tabs.len() == 1 ==> e.after_close(idx) == e,
{
}

/// A tab opened as the shown tab becomes the current address.
pub proof fn lemma_opened_tab_is_current(e: EngineView, url: Seq<char>)
    requires
        e.wf(),
    ensures
        e.with_tab_opened(url, true).current_url() == url,
        e.with_tab_opened(url, true).wf(),
        e.with_tab_opened(url, false).wf(),
{
}

/// Going back or forward in the shown tab happens exactly when the last
/// history flags recorded for it allow it.
pub proof fn lemma_history_flags_gate_moves(e: EngineView, back: bool, forward: bool)
    requires
        e.wf(),
        e.has_active(),
    ensures
        e.after_can_go(e.active, back, forward).back_target() == (if back { Some(e.active) } else { None::<int> }),
        e.after_can_go(e.active, back, forward).forward_target() == (if forward { Some(e.active) } else { None::<int> }),
{
}

/// Every engine operation keeps the shown tab among the tabs.
pub proof fn lemma_steps_keep_wf(e: EngineView, idx: int, url: Seq<char>, back: bool, forward: bool)
    requires
        e.wf(),
        e.tabs.len() > 1 ==> 0 <= idx < e.tabs.len(),
    ensures
        e.after_close(idx).wf(),
        e.after_select(idx).wf(),
        e.after_navigate(url).wf(),
        e.after_can_go(idx, back, forward).wf(),
        e.with_tab_opened(url, true).wf(),
        e.with_tab_opened(url, false).wf(),
{
}

// ── Laws stated tab by tab ───────────────────────────────────────────────────

/// Closing tab `idx` among several removes exactly that tab: the tabs before
/// it stay where they were, the ones after it move down by one, and the shown
/// tab keeps its index unless that index fell off the end, in which case the
/// new last tab is shown.
pub proof fn lemma_close_removes_that_tab(e: EngineView, idx: int)
    requires
        e.wf(),
        e.tabs.len() > 1,
        0 <= idx < e.tabs.len(),
    ensures
        e.after_close(idx).tabs.len() == e.tabs.len() - 1,
        forall|j: int| 0 <= j < idx ==> e.after_close(idx).tabs[j] == e.tabs[j],
        forall|j: int| idx <= j < e.tabs.len() - 1 ==> e.after_close(idx).tabs[j] == e.tabs[j + 1],
        e.after_close(idx).active == (if e.active <= e.tabs.len() - 2 { e.active } else { e.tabs.len() - 2 }),
        e.after_close(idx).attached == e.attached,
        e.after_close(idx).bounds == e.bounds,
{
}

/// With a single tab, closing changes nothing.
pub proof fn lemma_close_single_tab(e: EngineView, idx: int)
    requires
        e.tabs.len() <= 1,
    ensures
        e.after_close(idx) == e,
{
}

/// Opening a tab appends one fresh record at the given address (titled
/// "New Tab", no favicon, no history, not loading) after the existing tabs,
/// which stay as they were. Opened in the background it leaves the shown tab
/// and, when there is one, the current address as they were; opened to be
/// shown it becomes the shown tab and the current address.
pub proof fn lemma_open_appends_tab(e: EngineView, url: Seq<char>, activate: bool)
    requires
        e.wf(),
    ensures
        e.with_tab_opened(url, activate).tabs.len() == e.tabs.len() + 1,
        forall|j: int| 0 <= j < e.tabs.len() ==> e.with_tab_opened(url, activate).tabs[j] == e.tabs[j],
        e.with_tab_opened(url, activate).tabs[e.tabs.len() as int].url == url,
        e.with_tab_opened(url, activate).tabs[e.tabs.len() as int].title == "New Tab"@,
        e.with_tab_opened(url, activate).tabs[e.tabs.len() as int].favicon_url is None,
        !e.with_tab_opened(url, activate).tabs[e.tabs.len() as int].can_go_back,
        !e.with_tab_opened(url, activate).tabs[e.tabs.len() as int].can_go_forward,
        !e.with_tab_opened(url, activate).tabs[e.tabs.len() as int].is_loading,
        !activate ==> e.with_tab_opened(url, activate).active == e.active,
        !activate && e.tabs.len() > 0 ==> e.with_tab_opened(url, activate).current_url() == e.current_url(),
        activate ==> e.with_tab_opened(url, activate).active == e.tabs.len(),
        activate ==> e.with_tab_opened(url, activate).current_url() == url,
        e.with_tab_opened(url, activate).attached == e.attached,
        e.with_tab_opened(url, activate).bounds == e.bounds,
{
}

/// Selecting an existing tab shows it and changes nothing else; selecting a
/// tab that does not exist changes nothing.
pub proof fn lemma_select_law(e: EngineView, idx: int)
    ensures
        0 <= idx < e.tabs.len() ==> e.after_select(idx).active == idx,
        e.after_select(idx).tabs == e.tabs,
        e.after_select(idx).attached == e.attached,
        e.after_select(idx).bounds == e.bounds,
        !(0 <= idx < e.tabs.len()) ==> e.after_select(idx) == e,
{
}

/// Navigating changes only the shown tab's address: its other fields, every
/// other tab, and which tab is shown stay as they were.
pub proof fn lemma_navigate_law(e: EngineView, url: Seq<char>)
    requires
        e.wf(),
        0 <= e.active < e.tabs.len(),
    ensures
        e.after_navigate(url).tabs.len() == e.tabs.len(),
        e.after_navigate(url).active == e.active,
        e.after_navigate(url).tabs[e.active].url == url,
        e.after_navigate(url).tabs[e.active].title == e.tabs[e.active].title,
        e.after_navigate(url).tabs[e.active].favicon_url == e.tabs[e.active].favicon_url,
        e.after_navigate(url).tabs[e.active].can_go_back == e.tabs[e.active].can_go_back,
        e.after_navigate(url).tabs[e.active].can_go_forward == e.tabs[e.active].can_go_forward,
        e.after_navigate(url).tabs[e.active].is_loading == e.tabs[e.active].is_loading,
        forall|j: int| 0 <= j < e.tabs.len() && j != e.active ==> e.after_navigate(url).tabs[j] == e.tabs[j],
{
}

/// Without a shown tab, navigating changes nothing.
pub proof fn lemma_navigate_without_tabs(e: EngineView, url: Seq<char>)
    requires
        !(0 <= e.active < e.tabs.len()),
    ensures
        e.after_navigate(url) == e,
{
}

/// Recording history flags sets exactly those two flags of exactly that tab.
pub proof fn lemma_can_go_law(e: EngineView, tab_id: int, back: bool, forward: bool)
    ensures
        e.after_can_go(tab_id, back, forward).tabs.len() == e.tabs.len(),
        e.after_can_go(tab_id, back, forward).active == e.active,
        0 <= tab_id < e.tabs.len() ==> e.after_can_go(tab_id, back, forward).tabs[tab_id].can_go_back == back,
        0 <= tab_id < e.tabs.len() ==> e.after_can_go(tab_id, back, forward).tabs[tab_id].can_go_forward == forward,
        0 <= tab_id < e.tabs.len() ==> e.after_can_go(tab_id, back, forward).tabs[tab_id].url == e.tabs[tab_id].url,
        0 <= tab_id < e.tabs.len() ==> e.after_can_go(tab_id, back, forward).tabs[tab_id].title == e.tabs[tab_id].title,
        forall|j: int| 0 <= j < e.tabs.len() && j != tab_id ==> e.after_can_go(tab_id, back, forward).tabs[j] == e.tabs[j],
        !(0 <= tab_id < e.tabs.len()) ==> e.after_can_go(tab_id, back, forward) == e,
{
}

/// The current address is the shown tab's, or `about:blank` without one; the
/// engine goes back, forward, reloads or zooms in the shown tab, and goes back
/// or forward only when that tab's flag allows it.
pub proof fn lemma_shown_tab_targets(e: EngineView)
    ensures
        0 <= e.active < e.tabs.len() ==> e.current_url() == e.tabs[e.active].url,
        !(0 <= e.active < e.tabs.len()) ==> e.current_url() == "about:blank"@,
        e.active_target() == (if 0 <= e.active < e.tabs.len() { Some(e.active) } else { None::<int> }),
        e.back_target() == (if 0 <= e.active < e.tabs.len() && e.tabs[e.active].can_go_back {
            Some(e.active)
        } else {
            None::<int>
        }),
        e.forward_target() == (if 0 <= e.active < e.tabs.len() && e.tabs[e.active].can_go_forward {
            Some(e.active)
        } else {
            None::<int>
        }),
{
}

// ── Laws of normalisation, case by case ──────────────────────────────────────

/// The scheme part is none of the passthrough schemes.
pub open spec fn not_passthrough(input: Seq<char>) -> bool {
    let p = scheme_part(input);
    p != "about"@ && p != "file"@ && p != "data"@ && p != "view-source"@ && p != "blob"@
}

/// The parser did not read the input as an `http`/`https` URL.
pub open spec fn not_web(parsed: Option<(Seq<char>, Option<Seq<char>>)>) -> bool {
    parsed matches Some((sch, _)) ==> sch != "http"@ && sch != "https"@
}

/// The input begins with `localhost`, `127.` or `[::1]`.
pub open spec fn begins_local(input: Seq<char>) -> bool {
    ||| (input.len() >= 9 && input.subrange(0, 9) == "localhost"@)
    ||| (input.len() >= 4 && input.subrange(0, 4) == "127."@)
    ||| (input.len() >= 5 && input.subrange(0, 5) == "[::1]"@)
}

/// Addresses with a passthrough scheme are kept as typed.
pub proof fn lemma_normalize_passthrough(input: Seq<char>, parsed: Option<(Seq<char>, Option<Seq<char>>)>)
    requires
        !not_passthrough(input),
    ensures
        normalized(input, parsed) == input,
{
}

/// Input that the parser read as an `http`/`https` URL is kept as typed.
pub proof fn lemma_normalize_web(input: Seq<char>, scheme: Seq<char>, host: Option<Seq<char>>)
    requires
        scheme == "http"@ || scheme == "https"@,
    ensures
        normalized(input, Some((scheme, host))) == input,
{
}

/// Input beginning with `localhost`, `127.` or `[::1]` (and neither kept as
/// typed) is opened over `http`: `http://` followed by the input.
pub proof fn lemma_normalize_local(input: Seq<char>, parsed: Option<(Seq<char>, Option<Seq<char>>)>)
    requires
        not_passthrough(input),
        not_web(parsed),
        begins_local(input),
    ensures
        normalized(input, parsed) == "http://"@ + input,
{
    reveal_strlit("localhost");
    reveal_strlit("127.");
    reveal_strlit("[::1]");
    assert(input.take(9) =~= input.subrange(0, 9));
    assert(input.take(4) =~= input.subrange(0, 4));
    assert(input.take(5) =~= input.subrange(0, 5));
}

/// Other input that has a dot, no space, no `?`, and does not begin with a dot
/// is opened over `https`.
pub proof fn lemma_normalize_host(input: Seq<char>, parsed: Option<(Seq<char>, Option<Seq<char>>)>)
    requires
        not_passthrough(input),
        not_web(parsed),
        !begins_local(input),
        exists|j: int| 0 <= j < input.len() && input[j] == '.',
        forall|j: int| 0 <= j < input.len() ==> input[j] != ' ' && input[j] != '?',
        input.len() > 0 && input[0] != '.',
    ensures
        normalized(input, parsed) == "https://"@ + input,
{
    reveal_strlit("localhost");
    reveal_strlit("127.");
    reveal_strlit("[::1]");
    reveal_strlit(".");
    assert(input.take(9) =~= input.subrange(0, 9));
    assert(input.take(4) =~= input.subrange(0, 4));
    assert(input.take(5) =~= input.subrange(0, 5));
    let j = choose|j: int| 0 <= j < input.len() && input[j] == '.';
    assert(input.contains('.'));
    assert(!seq_starts_with(input, "."@)) by {
        if seq_starts_with(input, "."@) {
            assert(input.take(1)[0] == input[0]);
        }
    }
}

/// Any other input becomes a Brave search for the text, percent-encoded.
pub proof fn lemma_normalize_search(input: Seq<char>, parsed: Option<(Seq<char>, Option<Seq<char>>)>)
    requires
        not_passthrough(input),
        not_web(parsed),
        !begins_local(input),
        (forall|j: int| 0 <= j < input.len() ==> input[j] != '.')
            || (exists|j: int| 0 <= j < input.len() && (input[j] == ' ' || input[j] == '?'))
            || (input.len() > 0 && input[0] == '.'),
    ensures
        normalized(input, parsed) == "https://search.brave.com/search?q="@ + url_encoded(input),
{
    reveal_strlit("localhost");
    reveal_strlit("127.");
    reveal_strlit("[::1]");
    reveal_strlit(".");
    assert(input.take(9) =~= input.subrange(0, 9));
    assert(input.take(4) =~= input.subrange(0, 4));
    assert(input.take(5) =~= input.subrange(0, 5));
    if input.len() > 0 && input[0] == '.' {
        assert(input.take(1) =~= "."@);
    }
    if exists|j: int| 0 <= j < input.len() && (input[j] == ' ' || input[j] == '?') {
        let j = choose|j: int| 0 <= j < input.len() && (input[j] == ' ' || input[j] == '?');
        if input[j] == ' ' {
            assert(input.contains(' '));
        } else {
            assert(input.contains('?'));
        }
    }
}

/// A navigation is allowed exactly when the text before the first `':'` is
/// one of `http`, `https`, `about`, `file`, `data`, `blob`, `view-source`;
/// an allowed one reports the new address, a refused one reports the block,
/// both for the same tab and address.
pub proof fn lemma_navigation_law(tab_id: usize, url: String)
    ensures
        navigation_outcome(tab_id, url).0 == (scheme_part(url@) == "http"@ || scheme_part(url@) == "https"@
            || scheme_part(url@) == "about"@ || scheme_part(url@) == "file"@ || scheme_part(url@) == "data"@
            || scheme_part(url@) == "blob"@ || scheme_part(url@) == "view-source"@),
        navigation_outcome(tab_id, url).0 ==> navigation_outcome(tab_id, url).1 == (WebViewEvent::UrlChanged { tab_id, url }),
        !navigation_outcome(tab_id, url).0 ==> navigation_outcome(tab_id, url).1 == (WebViewEvent::NavigationBlocked { tab_id, url }),
{
}

} // verus!
