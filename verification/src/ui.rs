//! The browser window's state and how each message changes it. The window
//! itself, the native web views and the floating-point layout live in the
//! program that runs this state; `update` tells it what to do with them.

use vstd::prelude::*;
use vstd::string::*;
use crate::browser::Bounds;
use crate::ipc::WebViewEvent;
use crate::sidebar::{SidebarTab, SidebarTabView};

verus! {

/// What the window handles.
#[derive(Debug)]
pub enum Message {
    Navigate(String),
    AddressChanged(String),
    Back,
    Forward,
    Reload,
    NewTab,
    CloseTab(usize),
    SelectTab(usize),
    WebViewEvent(WebViewEvent),
    /// The content area moved or changed size (already rounded to pixels).
    ContentBoundsChanged(Bounds),
    WindowReady,
}

/// What the window asks of the tab engine after a message.
#[derive(Debug)]
pub enum Effect {
    Nothing,
    Navigate(String),
    Back,
    Forward,
    Reload,
    OpenTab { url: String, activate: bool },
    CloseTab(usize),
    SelectTab(usize),
    UpdateCanGo { tab_id: usize, back: bool, forward: bool },
    SetBounds(Bounds),
    /// Attach the web views to the window, if the window exists yet.
    TryAttach,
}

/// The contents of an effect.
pub enum EffectView {
    Nothing,
    Navigate(Seq<char>),
    Back,
    Forward,
    Reload,
    OpenTab { url: Seq<char>, activate: bool },
    CloseTab(usize),
    SelectTab(usize),
    UpdateCanGo { tab_id: usize, back: bool, forward: bool },
    SetBounds(Bounds),
    TryAttach,
}

impl View for Effect {
    type V = EffectView;

    open spec fn view(&self) -> EffectView {
        match self {
            Effect::Nothing => EffectView::Nothing,
            Effect::Navigate(u) => EffectView::Navigate(u@),
            Effect::Back => EffectView::Back,
            Effect::Forward => EffectView::Forward,
            Effect::Reload => EffectView::Reload,
            Effect::OpenTab { url, activate } => EffectView::OpenTab { url: url@, activate: *activate },
            Effect::CloseTab(i) => EffectView::CloseTab(*i),
            Effect::SelectTab(i) => EffectView::SelectTab(*i),
            Effect::UpdateCanGo { tab_id, back, forward } => EffectView::UpdateCanGo {
                tab_id: *tab_id,
                back: *back,
                forward: *forward,
            },
            Effect::SetBounds(b) => EffectView::SetBounds(*b),
            Effect::TryAttach => EffectView::TryAttach,
        }
    }
}

/// How the page-load progress shown in the status bar changes.
#[derive(Debug, Clone, Copy, PartialEq, Eq, Structural)]
pub enum ProgressChange {
    /// It stays.
    Keep,
    /// It goes to 0.
    Reset,
    /// It goes to 1.
    Complete,
    /// It takes the value that the web view reported.
    Reported,
}

/// The window's state: the sidebar's tabs, which of them is active, the
/// address bar's text, whether the active tab is loading, and whether the web
/// views are attached to the window.
pub struct CosmicBrowser {
    tabs: Vec<SidebarTab>,
    active_tab: usize,
    address_input: String,
    is_loading: bool,
    webview_attached: bool,
}

/// The contents of the window's state.
pub struct BrowserView {
    pub tabs: Seq<SidebarTabView>,
    pub active_tab: int,
    pub address: Seq<char>,
    pub is_loading: bool,
    pub webview_attached: bool,
}

impl View for CosmicBrowser {
    type V = BrowserView;

    closed spec fn view(&self) -> BrowserView {
        BrowserView {
            tabs: self.tabs@.map_values(|t: SidebarTab| t@),
            active_tab: self.active_tab as int,
            address: self.address_input@,
            is_loading: self.is_loading,
            webview_attached: self.webview_attached,
        }
    }
}

/// The sidebar entry of a new tab.
pub open spec fn blank_tab() -> SidebarTabView {
    SidebarTabView { title: "New Tab"@, url: "about:blank"@, favicon: None }
}

impl BrowserView {
    /// The sidebar always lists at least one tab.
    pub open spec fn wf(self) -> bool {
        self.tabs.len() >= 1
    }

    /// Tab `i` exists.
    pub open spec fn has_tab(self, i: int) -> bool {
        0 <= i < self.tabs.len()
    }

    /// A blank tab added last and made active, with its address in the bar.
    pub open spec fn with_new_tab(self) -> BrowserView {
        BrowserView {
            tabs: self.tabs.push(blank_tab()),
            active_tab: self.tabs.len() as int,
            address: "about:blank"@,
            ..self
        }
    }

    /// Tab `i`'s entry replaced by `t`, when there is such a tab.
    pub open spec fn with_tab(self, i: int, t: SidebarTabView) -> BrowserView {
        if self.has_tab(i) {
            BrowserView { tabs: self.tabs.update(i, t), ..self }
        } else {
            self
        }
    }

    /// The new state after an attempt to attach the web views, and whether
    /// they are to be attached now: only when they are not attached yet and
    /// the window exists.
    pub open spec fn attach_step(self, window_realized: bool) -> (BrowserView, bool) {
        if !self.webview_attached && window_realized {
            (BrowserView { webview_attached: true, ..self }, true)
        } else {
            (self, false)
        }
    }

    /// The new state, the effect, and the progress change after `ev`.
    pub open spec fn on_event(self, ev: WebViewEvent) -> (BrowserView, EffectView, ProgressChange) {
        match ev {
            WebViewEvent::TitleChanged { tab_id, title } => (
                self.with_tab(tab_id as int, SidebarTabView { title: title@, ..self.tabs[tab_id as int] }),
                EffectView::Nothing,
                ProgressChange::Keep,
            ),
            WebViewEvent::UrlChanged { tab_id, url } => {
                let s = if tab_id as int == self.active_tab {
                    BrowserView { address: url@, ..self }
                } else {
                    self
                };
                (
                    s.with_tab(tab_id as int, SidebarTabView { url: url@, ..self.tabs[tab_id as int] }),
                    EffectView::Nothing,
                    ProgressChange::Keep,
                )
            },
            WebViewEvent::LoadStarted { tab_id } => if tab_id as int == self.active_tab {
                (BrowserView { is_loading: true, ..self }, EffectView::Nothing, ProgressChange::Reset)
            } else {
                (self, EffectView::Nothing, ProgressChange::Keep)
            },
            WebViewEvent::LoadFinished { tab_id } => if tab_id as int == self.active_tab {
                (BrowserView { is_loading: false, ..self }, EffectView::Nothing, ProgressChange::Complete)
            } else {
                (self, EffectView::Nothing, ProgressChange::Keep)
            },
            WebViewEvent::LoadProgress { tab_id } => if tab_id as int == self.active_tab {
                (self, EffectView::Nothing, ProgressChange::Reported)
            } else {
                (self, EffectView::Nothing, ProgressChange::Keep)
            },
            WebViewEvent::NewWindowRequested { .. } => (
                self.with_new_tab(),
                EffectView::OpenTab { url: "about:blank"@, activate: true },
                ProgressChange::Keep,
            ),
            WebViewEvent::FaviconUrl { tab_id, url } => (
                self.with_tab(tab_id as int, SidebarTabView { favicon: Some(url@), ..self.tabs[tab_id as int] }),
                EffectView::Nothing,
                ProgressChange::Keep,
            ),
            WebViewEvent::CanGoChanged { tab_id, back, forward } => (
                self,
                EffectView::UpdateCanGo { tab_id, back, forward },
                ProgressChange::Keep,
            ),
            _ => (self, EffectView::Nothing, ProgressChange::Keep),
        }
    }

    /// The new state, the effect, and the progress change after message `m`.
    pub open spec fn step(self, m: Message) -> (BrowserView, EffectView, ProgressChange) {
        match m {
            Message::WindowReady => (self, EffectView::TryAttach, ProgressChange::Keep),
            Message::Navigate(url) => (
                BrowserView { address: url@, ..self }.with_tab(
                    self.active_tab,
                    SidebarTabView { url: url@, ..self.tabs[self.active_tab] },
                ),
                EffectView::Navigate(url@),
                ProgressChange::Keep,
            ),
            Message::AddressChanged(a) => (BrowserView { address: a@, ..self }, EffectView::Nothing, ProgressChange::Keep),
            Message::Back => (self, EffectView::Back, ProgressChange::Keep),
            Message::Forward => (self, EffectView::Forward, ProgressChange::Keep),
            Message::Reload => (self, EffectView::Reload, ProgressChange::Keep),
            Message::NewTab => (
                self.with_new_tab(),
                EffectView::OpenTab { url: "about:blank"@, activate: true },
                ProgressChange::Keep,
            ),
            Message::CloseTab(i) => if self.tabs.len() > 1 {
                let tabs = self.tabs.remove(i as int);
                (
                    BrowserView {
                        tabs,
                        active_tab: if self.active_tab < tabs.len() { self.active_tab } else { tabs.len() - 1 },
                        ..self
                    },
                    EffectView::CloseTab(i),
                    ProgressChange::Keep,
                )
            } else {
                (self, EffectView::Nothing, ProgressChange::Keep)
            },
            Message::SelectTab(i) => (
                BrowserView {
                    active_tab: i as int,
                    address: if self.has_tab(i as int) { self.tabs[i as int].url } else { self.address },
                    ..self
                },
                EffectView::SelectTab(i),
                ProgressChange::Keep,
            ),
            Message::WebViewEvent(ev) => self.on_event(ev),
            Message::ContentBoundsChanged(b) => if self.webview_attached {
                (self, EffectView::SetBounds(b), ProgressChange::Keep)
            } else {
                (self, EffectView::TryAttach, ProgressChange::Keep)
            },
        }
    }
}

/// What `update` needs of a message: a tab to close must exist whenever
/// closing is possible.
pub open spec fn message_ok(s: BrowserView, m: Message) -> bool {
    match m {
        Message::CloseTab(i) => s.tabs.len() > 1 ==> i < s.tabs.len(),
        _ => true,
    }
}

/// Replacing one entry and then viewing the entries is viewing them and then
/// replacing that view.
proof fn lemma_update_then_view(tabs: Seq<SidebarTab>, i: int, t: SidebarTab)
    requires
        0 <= i < tabs.len(),
    ensures
        tabs.update(i, t).map_values(|x: SidebarTab| x@) =~= tabs.map_values(|x: SidebarTab| x@).update(
            i,
            t@,
        ),
{
}

impl CosmicBrowser {
    /// The window's state is well formed.
    pub open spec fn wf(&self) -> bool {
        self@.wf()
    }

    /// The window at start: one tab at `https://start.page`, shown in the
    /// address bar, nothing loading, web views not yet attached.
    pub fn init() -> (r: CosmicBrowser)
        ensures
            r@ == (BrowserView {
                tabs: seq![SidebarTabView { title: "New Tab"@, url: "https://start.page"@, favicon: None }],
                active_tab: 0,
                address: "https://start.page"@,
                is_loading: false,
                webview_attached: false,
            }),
            r.wf(),
    {
        let mut tabs = Vec::new();
        tabs.push(SidebarTab::new("New Tab", "https://start.page"));
        let r = CosmicBrowser {
            tabs,
            active_tab: 0,
            address_input: String::from_str("https://start.page"),
            is_loading: false,
            webview_attached: false,
        };
        assert(r@.tabs =~= seq![SidebarTabView { title: "New Tab"@, url: "https://start.page"@, favicon: None }]);
        r
    }

    /// Adds a blank tab, makes it active and shows its address.
    fn push_blank_tab(&mut self) -> (r: (Effect, ProgressChange))
        ensures
            final(self)@ == old(self)@.with_new_tab(),
            r.0@ == (EffectView::OpenTab { url: "about:blank"@, activate: true }),
            r.1 == ProgressChange::Keep,
    {
        self.tabs.push(SidebarTab::new("New Tab", "about:blank"));
        self.active_tab = self.tabs.len() - 1;
        self.address_input = String::from_str("about:blank");
        assert(self@.tabs =~= old(self)@.tabs.push(blank_tab()));
        (Effect::OpenTab { url: String::from_str("about:blank"), activate: true }, ProgressChange::Keep)
    }

    /// Applies a web view's event.
    fn on_event(&mut self, ev: WebViewEvent) -> (r: (Effect, ProgressChange))
        ensures
            (final(self)@, r.0@, r.1) == old(self)@.on_event(ev),
    {
        match ev {
            WebViewEvent::TitleChanged { tab_id, title } => {
                if tab_id < self.tabs.len() {
                    self.tabs[tab_id].title = title;
                    proof {
                        lemma_update_then_view(old(self).tabs@, tab_id as int, self.tabs@[tab_id as int]);
                    }
                }
                (Effect::Nothing, ProgressChange::Keep)
            },
            WebViewEvent::UrlChanged { tab_id, url } => {
                if tab_id == self.active_tab {
                    self.address_input = url.clone();
                }
                if tab_id < self.tabs.len() {
                    self.tabs[tab_id].url = url;
                    proof {
                        lemma_update_then_view(old(self).tabs@, tab_id as int, self.tabs@[tab_id as int]);
                    }
                }
                (Effect::Nothing, ProgressChange::Keep)
            },
            WebViewEvent::LoadStarted { tab_id } => {
                if tab_id == self.active_tab {
                    self.is_loading = true;
                    (Effect::Nothing, ProgressChange::Reset)
                } else {
                    (Effect::Nothing, ProgressChange::Keep)
                }
            },
            WebViewEvent::LoadFinished { tab_id } => {
                if tab_id == self.active_tab {
                    self.is_loading = false;
                    (Effect::Nothing, ProgressChange::Complete)
                } else {
                    (Effect::Nothing, ProgressChange::Keep)
                }
            },
            WebViewEvent::LoadProgress { tab_id } => {
                if tab_id == self.active_tab {
                    (Effect::Nothing, ProgressChange::Reported)
                } else {
                    (Effect::Nothing, ProgressChange::Keep)
                }
            },
            WebViewEvent::NewWindowRequested { .. } => self.push_blank_tab(),
            WebViewEvent::FaviconUrl { tab_id, url } => {
                if tab_id < self.tabs.len() {
                    self.tabs[tab_id].favicon = Some(url);
                    proof {
                        lemma_update_then_view(old(self).tabs@, tab_id as int, self.tabs@[tab_id as int]);
                    }
                }
                (Effect::Nothing, ProgressChange::Keep)
            },
            WebViewEvent::CanGoChanged { tab_id, back, forward } => {
                (Effect::UpdateCanGo { tab_id, back, forward }, ProgressChange::Keep)
            },
            _ => (Effect::Nothing, ProgressChange::Keep),
        }
    }

    /// Applies message `message`: updates the window's state and says what the
    /// tab engine and the progress display are to do.
    pub fn update(&mut self, message: Message) -> (r: (Effect, ProgressChange))
        requires
            old(self).wf(),
            message_ok(old(self)@, message),
        ensures
            (final(self)@, r.0@, r.1) == old(self)@.step(message),
            final(self).wf(),
    {
        match message {
            Message::WindowReady => (Effect::TryAttach, ProgressChange::Keep),
            Message::Navigate(url) => {
                self.address_input = url.clone();
                if self.active_tab < self.tabs.len() {
                    let i = self.active_tab;
                    self.tabs[i].url = url.clone();
                    proof {
                        lemma_update_then_view(old(self).tabs@, i as int, self.tabs@[i as int]);
                    }
                }
                (Effect::Navigate(url), ProgressChange::Keep)
            },
            Message::AddressChanged(s) => {
                self.address_input = s;
                (Effect::Nothing, ProgressChange::Keep)
            },
            Message::Back => (Effect::Back, ProgressChange::Keep),
            Message::Forward => (Effect::Forward, ProgressChange::Keep),
            Message::Reload => (Effect::Reload, ProgressChange::Keep),
            Message::NewTab => self.push_blank_tab(),
            Message::CloseTab(i) => {
                if self.tabs.len() > 1 {
                    self.tabs.remove(i);
                    let last = self.tabs.len() - 1;
                    if self.active_tab > last {
                        self.active_tab = last;
                    }
                    assert(self@.tabs =~= old(self)@.tabs.remove(i as int));
                    (Effect::CloseTab(i), ProgressChange::Keep)
                } else {
                    (Effect::Nothing, ProgressChange::Keep)
                }
            },
            Message::SelectTab(i) => {
                self.active_tab = i;
                if i < self.tabs.len() {
                    self.address_input = self.tabs[i].url.clone();
                }
                (Effect::SelectTab(i), ProgressChange::Keep)
            },
            Message::WebViewEvent(ev) => self.on_event(ev),
            Message::ContentBoundsChanged(b) => {
                if self.webview_attached {
                    (Effect::SetBounds(b), ProgressChange::Keep)
                } else {
                    (Effect::TryAttach, ProgressChange::Keep)
                }
            },
        }
    }

    /// Marks the web views attached when they are not yet and the window
    /// exists. Returns whether the caller is to attach them now.
    pub fn try_attach_webview(&mut self, window_realized: bool) -> (r: bool)
        ensures
            (final(self)@, r) == old(self)@.attach_step(window_realized),
    {
        if self.webview_attached {
            return false;
        }
        if !window_realized {
            return false;
        }
        self.webview_attached = true;
        true
    }

    /// The sidebar's tabs.
    pub fn tabs(&self) -> (r: &Vec<SidebarTab>)
        ensures
            r@.map_values(|t: SidebarTab| t@) == self@.tabs,
    {
        &self.tabs
    }

    /// The active tab's index.
    pub fn active_tab(&self) -> (r: usize)
        ensures
            r as int == self@.active_tab,
    {
        self.active_tab
    }

    /// The address bar's text.
    pub fn address_input(&self) -> (r: &str)
        ensures
            r@ == self@.address,
    {
        self.address_input.as_str()
    }

    /// Whether the active tab is loading.
    pub fn is_loading(&self) -> (r: bool)
        ensures
            r == self@.is_loading,
    {
        self.is_loading
    }

    /// Whether the web views are attached to the window.
    pub fn webview_attached(&self) -> (r: bool)
        ensures
            r == self@.webview_attached,
    {
        self.webview_attached
    }
}

// ── Laws of the window ───────────────────────────────────────────────────────

/// A new tab, whether asked for by the user or by a page opening a window,
/// is added last, becomes the active tab, and puts `about:blank` in the
/// address bar; the engine is asked to open and show it.
pub proof fn lemma_new_tab_is_active(s: BrowserView, ev: WebViewEvent)
    requires
        s.wf(),
        ev is NewWindowRequested,
    ensures
        s.step(Message::NewTab).0.tabs.len() == s.tabs.len() + 1,
        s.step(Message::NewTab).0.active_tab == s.tabs.len(),
        s.step(Message::NewTab).0.tabs[s.tabs.len() as int] == blank_tab(),
        s.step(Message::NewTab).0.address == "about:blank"@,
        s.step(Message::NewTab).1 == (EffectView::OpenTab { url: "about:blank"@, activate: true }),
        s.step(Message::WebViewEvent(ev)) == s.step(Message::NewTab),
{
}

/// Load events of a tab other than the active one change neither the loading
/// flag nor the progress display.
pub proof fn lemma_background_load_events(s: BrowserView, tab_id: usize)
    requires
        tab_id as int != s.active_tab,
    ensures
        s.step(Message::WebViewEvent(WebViewEvent::LoadStarted { tab_id })) == (s, EffectView::Nothing, ProgressChange::Keep),
        s.step(Message::WebViewEvent(WebViewEvent::LoadFinished { tab_id })) == (s, EffectView::Nothing, ProgressChange::Keep),
        s.step(Message::WebViewEvent(WebViewEvent::LoadProgress { tab_id })) == (s, EffectView::Nothing, ProgressChange::Keep),
{
}

/// A load that starts in the active tab shows it loading from 0, and one that
/// finishes there shows it done at 1.
pub proof fn lemma_active_load_events(s: BrowserView, tab_id: usize)
    requires
        tab_id as int == s.active_tab,
    ensures
        s.step(Message::WebViewEvent(WebViewEvent::LoadStarted { tab_id })).0.is_loading,
        s.step(Message::WebViewEvent(WebViewEvent::LoadStarted { tab_id })).2 == ProgressChange::Reset,
        !s.step(Message::WebViewEvent(WebViewEvent::LoadFinished { tab_id })).0.is_loading,
        s.step(Message::WebViewEvent(WebViewEvent::LoadFinished { tab_id })).2 == ProgressChange::Complete,
{
}

/// When the active tab's page moves to a new address, the address bar shows
/// it and the tab's entry records it.
pub proof fn lemma_address_follows_active_tab(s: BrowserView, tab_id: usize, url: String)
    requires
        tab_id as int == s.active_tab,
        s.has_tab(tab_id as int),
    ensures
        s.step(Message::WebViewEvent(WebViewEvent::UrlChanged { tab_id, url })).0.address == url@,
        s.step(Message::WebViewEvent(WebViewEvent::UrlChanged { tab_id, url })).0.tabs[tab_id as int].url == url@,
{
}

/// Selecting an existing tab makes it active and shows its address.
pub proof fn lemma_select_shows_tab(s: BrowserView, i: usize)
    requires
        s.has_tab(i as int),
    ensures
        s.step(Message::SelectTab(i)).0.active_tab == i,
        s.step(Message::SelectTab(i)).0.address == s.tabs[i as int].url,
        s.step(Message::SelectTab(i)).1 == EffectView::SelectTab(i),
{
}

/// Navigating puts the typed address in the bar and in the active tab's
/// entry, and asks the engine to load it.
pub proof fn lemma_navigate_records_address(s: BrowserView, url: String)
    requires
        s.has_tab(s.active_tab),
    ensures
        s.step(Message::Navigate(url)).0.address == url@,
        s.step(Message::Navigate(url)).0.tabs[s.active_tab].url == url@,
        s.step(Message::Navigate(url)).1 == EffectView::Navigate(url@),
{
}

/// Every message leaves at least one tab in the sidebar; closing removes
/// exactly one tab when there are several and keeps the active index inside
/// the list.
pub proof fn lemma_close_tab(s: BrowserView, i: usize)
    requires
        s.wf(),
        s.tabs.len() > 1 ==> i < s.tabs.len(),
    ensures
        s.step(Message::CloseTab(i)).0.wf(),
        s.tabs.len() > 1 ==> s.step(Message::CloseTab(i)).0.tabs.len() == s.tabs.len() - 1,
        s.tabs.len() > 1 && 0 <= s.active_tab ==> s.step(Message::CloseTab(i)).0.has_tab(
            s.step(Message::CloseTab(i)).0.active_tab,
        ),
        s.tabs.len() == 1 ==> s.step(Message::CloseTab(i)).0 == s,
{
}

/// The web views are attached at most once: after an attempt that attaches
/// them, no later attempt does.
pub proof fn lemma_attach_once(s: BrowserView, first: bool, later: bool)
    requires
        s.attach_step(first).1,
    ensures
        s.attach_step(first).0.webview_attached,
        !s.attach_step(first).0.attach_step(later).1,
{
}

// ── Laws of the window, entry by entry ───────────────────────────────────────

/// Closing tab `i` among several removes exactly that entry from the sidebar:
/// the entries before it stay where they were, those after it move down by
/// one, and the active index stays unless it fell off the end, in which case
/// the new last entry becomes active. The address bar, the loading flag and
/// the attachment stay, and the engine is asked to close tab `i`.
pub proof fn lemma_close_tab_removes_entry(s: BrowserView, i: usize)
    requires
        s.tabs.len() > 1,
        i < s.tabs.len(),
    ensures
        s.step(Message::CloseTab(i)).0.tabs.len() == s.tabs.len() - 1,
        forall|j: int| 0 <= j < i ==> s.step(Message::CloseTab(i)).0.tabs[j] == s.tabs[j],
        forall|j: int| i <= j < s.tabs.len() - 1 ==> s.step(Message::CloseTab(i)).0.tabs[j] == s.tabs[j + 1],
        s.step(Message::CloseTab(i)).0.tabs == s.tabs.remove(i as int),
        s.step(Message::CloseTab(i)).0.active_tab == (if s.active_tab <= s.tabs.len() - 2 {
            s.active_tab
        } else {
            s.tabs.len() - 2
        }),
        s.step(Message::CloseTab(i)).0.address == s.address,
        s.step(Message::CloseTab(i)).0.is_loading == s.is_loading,
        s.step(Message::CloseTab(i)).0.webview_attached == s.webview_attached,
        s.step(Message::CloseTab(i)).1 == EffectView::CloseTab(i),
        s.step(Message::CloseTab(i)).2 == ProgressChange::Keep,
{
}

/// A favicon reported for an existing tab is recorded in that tab's entry,
/// whichever tab is active; its title and address, every other entry, the
/// active index, the address bar and the loading flag stay. One reported for
/// a tab that does not exist changes nothing.
pub proof fn lemma_favicon_sets_that_entry(s: BrowserView, tab_id: usize, url: String)
    ensures
        s.has_tab(tab_id as int) ==> s.step(
            Message::WebViewEvent(WebViewEvent::FaviconUrl { tab_id, url }),
        ).0.tabs[tab_id as int].favicon == Some(url@),
        s.has_tab(tab_id as int) ==> s.step(
            Message::WebViewEvent(WebViewEvent::FaviconUrl { tab_id, url }),
        ).0.tabs[tab_id as int].title == s.tabs[tab_id as int].title,
        s.has_tab(tab_id as int) ==> s.step(
            Message::WebViewEvent(WebViewEvent::FaviconUrl { tab_id, url }),
        ).0.tabs[tab_id as int].url == s.tabs[tab_id as int].url,
        s.step(Message::WebViewEvent(WebViewEvent::FaviconUrl { tab_id, url })).0.tabs.len() == s.tabs.len(),
        forall|j: int| 0 <= j < s.tabs.len() && j != tab_id ==> s.step(
            Message::WebViewEvent(WebViewEvent::FaviconUrl { tab_id, url }),
        ).0.tabs[j] == s.tabs[j],
        s.step(Message::WebViewEvent(WebViewEvent::FaviconUrl { tab_id, url })).0.active_tab == s.active_tab,
        s.step(Message::WebViewEvent(WebViewEvent::FaviconUrl { tab_id, url })).0.address == s.address,
        s.step(Message::WebViewEvent(WebViewEvent::FaviconUrl { tab_id, url })).0.is_loading == s.is_loading,
        s.step(Message::WebViewEvent(WebViewEvent::FaviconUrl { tab_id, url })).0.webview_attached
            == s.webview_attached,
        s.step(Message::WebViewEvent(WebViewEvent::FaviconUrl { tab_id, url })).1 == EffectView::Nothing,
        s.step(Message::WebViewEvent(WebViewEvent::FaviconUrl { tab_id, url })).2 == ProgressChange::Keep,
        !s.has_tab(tab_id as int) ==> s.step(
            Message::WebViewEvent(WebViewEvent::FaviconUrl { tab_id, url }),
        ).0 == s,
{
}

/// A title reported for an existing tab is recorded in that tab's entry,
/// whichever tab is active; its address and favicon, every other entry and
/// the rest of the window stay. One reported for a tab that does not exist
/// changes nothing.
pub proof fn lemma_title_sets_that_entry(s: BrowserView, tab_id: usize, title: String)
    ensures
        s.has_tab(tab_id as int) ==> s.step(
            Message::WebViewEvent(WebViewEvent::TitleChanged { tab_id, title }),
        ).0.tabs[tab_id as int].title == title@,
        s.has_tab(tab_id as int) ==> s.step(
            Message::WebViewEvent(WebViewEvent::TitleChanged { tab_id, title }),
        ).0.tabs[tab_id as int].url == s.tabs[tab_id as int].url,
        s.has_tab(tab_id as int) ==> s.step(
            Message::WebViewEvent(WebViewEvent::TitleChanged { tab_id, title }),
        ).0.tabs[tab_id as int].favicon == s.tabs[tab_id as int].favicon,
        s.step(Message::WebViewEvent(WebViewEvent::TitleChanged { tab_id, title })).0.tabs.len() == s.tabs.len(),
        forall|j: int| 0 <= j < s.tabs.len() && j != tab_id ==> s.step(
            Message::WebViewEvent(WebViewEvent::TitleChanged { tab_id, title }),
        ).0.tabs[j] == s.tabs[j],
        s.step(Message::WebViewEvent(WebViewEvent::TitleChanged { tab_id, title })).0.active_tab == s.active_tab,
        s.step(Message::WebViewEvent(WebViewEvent::TitleChanged { tab_id, title })).0.address == s.address,
        s.step(Message::WebViewEvent(WebViewEvent::TitleChanged { tab_id, title })).0.is_loading == s.is_loading,
        s.step(Message::WebViewEvent(WebViewEvent::TitleChanged { tab_id, title })).1 == EffectView::Nothing,
        !s.has_tab(tab_id as int) ==> s.step(
            Message::WebViewEvent(WebViewEvent::TitleChanged { tab_id, title }),
        ).0 == s,
{
}

/// A new address reported for an existing tab is recorded in that tab's
/// entry, and it goes into the address bar exactly when that tab is the active
/// one; every other entry, the active index and the loading flag stay.
pub proof fn lemma_url_sets_that_entry(s: BrowserView, tab_id: usize, url: String)
    ensures
        s.has_tab(tab_id as int) ==> s.step(
            Message::WebViewEvent(WebViewEvent::UrlChanged { tab_id, url }),
        ).0.tabs[tab_id as int].url == url@,
        s.has_tab(tab_id as int) ==> s.step(
            Message::WebViewEvent(WebViewEvent::UrlChanged { tab_id, url }),
        ).0.tabs[tab_id as int].title == s.tabs[tab_id as int].title,
        s.has_tab(tab_id as int) ==> s.step(
            Message::WebViewEvent(WebViewEvent::UrlChanged { tab_id, url }),
        ).0.tabs[tab_id as int].favicon == s.tabs[tab_id as int].favicon,
        s.step(Message::WebViewEvent(WebViewEvent::UrlChanged { tab_id, url })).0.tabs.len() == s.tabs.len(),
        forall|j: int| 0 <= j < s.tabs.len() && j != tab_id ==> s.step(
            Message::WebViewEvent(WebViewEvent::UrlChanged { tab_id, url }),
        ).0.tabs[j] == s.tabs[j],
        s.step(Message::WebViewEvent(WebViewEvent::UrlChanged { tab_id, url })).0.address == (if tab_id
            == s.active_tab {
            url@
        } else {
            s.address
        }),
        s.step(Message::WebViewEvent(WebViewEvent::UrlChanged { tab_id, url })).0.active_tab == s.active_tab,
        s.step(Message::WebViewEvent(WebViewEvent::UrlChanged { tab_id, url })).0.is_loading == s.is_loading,
        s.step(Message::WebViewEvent(WebViewEvent::UrlChanged { tab_id, url })).1 == EffectView::Nothing,
{
}

/// Navigating changes only the active tab's address and the address bar:
/// the active tab keeps its title and favicon, every other entry and the
/// active index stay.
pub proof fn lemma_navigate_changes_only_active_entry(s: BrowserView, url: String)
    requires
        s.has_tab(s.active_tab),
    ensures
        s.step(Message::Navigate(url)).0.tabs.len() == s.tabs.len(),
        s.step(Message::Navigate(url)).0.tabs[s.active_tab].title == s.tabs[s.active_tab].title,
        s.step(Message::Navigate(url)).0.tabs[s.active_tab].favicon == s.tabs[s.active_tab].favicon,
        forall|j: int| 0 <= j < s.tabs.len() && j != s.active_tab ==> s.step(Message::Navigate(url)).0.tabs[j]
            == s.tabs[j],
        s.step(Message::Navigate(url)).0.active_tab == s.active_tab,
        s.step(Message::Navigate(url)).0.is_loading == s.is_loading,
        s.step(Message::Navigate(url)).0.webview_attached == s.webview_attached,
{
}

/// A new tab keeps every existing entry where it was.
pub proof fn lemma_new_tab_keeps_entries(s: BrowserView)
    ensures
        forall|j: int| 0 <= j < s.tabs.len() ==> s.step(Message::NewTab).0.tabs[j] == s.tabs[j],
        s.step(Message::NewTab).0.is_loading == s.is_loading,
        s.step(Message::NewTab).0.webview_attached == s.webview_attached,
{
}

/// Selecting makes the index active and asks the engine to show it; the
/// entries stay, and the address bar changes only to an existing tab's
/// address.
pub proof fn lemma_select_keeps_entries(s: BrowserView, i: usize)
    ensures
        s.step(Message::SelectTab(i)).0.active_tab == i,
        s.step(Message::SelectTab(i)).0.tabs == s.tabs,
        !s.has_tab(i as int) ==> s.step(Message::SelectTab(i)).0.address == s.address,
        s.step(Message::SelectTab(i)).0.is_loading == s.is_loading,
        s.step(Message::SelectTab(i)).1 == EffectView::SelectTab(i),
{
}

/// Editing the address bar changes only its text.
pub proof fn lemma_address_edit(s: BrowserView, a: String)
    ensures
        s.step(Message::AddressChanged(a)).0.address == a@,
        s.step(Message::AddressChanged(a)).0.tabs == s.tabs,
        s.step(Message::AddressChanged(a)).0.active_tab == s.active_tab,
        s.step(Message::AddressChanged(a)).0.is_loading == s.is_loading,
        s.step(Message::AddressChanged(a)).0.webview_attached == s.webview_attached,
        s.step(Message::AddressChanged(a)).1 == EffectView::Nothing,
{
}

/// Back, forward, reload and a ready window leave the window's state as it
/// was and pass the request on to the engine; history flags reported by a web
/// view go to the engine unchanged.
pub proof fn lemma_requests_pass_through(s: BrowserView, tab_id: usize, back: bool, forward: bool)
    ensures
        s.step(Message::Back) == (s, EffectView::Back, ProgressChange::Keep),
        s.step(Message::Forward) == (s, EffectView::Forward, ProgressChange::Keep),
        s.step(Message::Reload) == (s, EffectView::Reload, ProgressChange::Keep),
        s.step(Message::WindowReady) == (s, EffectView::TryAttach, ProgressChange::Keep),
        s.step(Message::WebViewEvent(WebViewEvent::CanGoChanged { tab_id, back, forward })) == (
            s,
            EffectView::UpdateCanGo { tab_id, back, forward },
            ProgressChange::Keep,
        ),
{
}

/// New content bounds are passed to the attached web views, or, while they
/// are not attached yet, prompt an attempt to attach them; the state stays.
pub proof fn lemma_bounds_follow_attachment(s: BrowserView, b: Bounds)
    ensures
        s.step(Message::ContentBoundsChanged(b)).0 == s,
        s.webview_attached ==> s.step(Message::ContentBoundsChanged(b)).1 == EffectView::SetBounds(b),
        !s.webview_attached ==> s.step(Message::ContentBoundsChanged(b)).1 == EffectView::TryAttach,
{
}

/// Downloads, permission requests, page messages and blocked navigations
/// change nothing in the window and ask nothing of the engine.
pub proof fn lemma_reports_change_nothing(s: BrowserView, ev: WebViewEvent)
    requires
        ev is DownloadStarted || ev is PermissionRequested || ev is IpcMessage || ev is NavigationBlocked,
    ensures
        s.step(Message::WebViewEvent(ev)) == (s, EffectView::Nothing, ProgressChange::Keep),
{
}

/// An attempt to attach the web views attaches them exactly when they are not
/// attached yet and the window exists; afterwards they are attached if they
/// were before or the window exists, and nothing else changes.
pub proof fn lemma_attach_step_law(s: BrowserView, window_realized: bool)
    ensures
        s.attach_step(window_realized).1 == (!s.webview_attached && window_realized),
        s.attach_step(window_realized).0.webview_attached == (s.webview_attached || window_realized),
        s.attach_step(window_realized).0.tabs == s.tabs,
        s.attach_step(window_realized).0.active_tab == s.active_tab,
        s.attach_step(window_realized).0.address == s.address,
        s.attach_step(window_realized).0.is_loading == s.is_loading,
{
}

} // verus!
