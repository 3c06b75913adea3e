use cosmic_browser::ipc::WebViewEvent;
use cosmic_browser::ui::{CosmicBrowser, Effect, Message, ProgressChange};

fn titles(b: &CosmicBrowser) -> Vec<String> {
    b.tabs().iter().map(|t| t.title.clone()).collect()
}

fn urls(b: &CosmicBrowser) -> Vec<String> {
    b.tabs().iter().map(|t| t.url.clone()).collect()
}

#[test]
fn window_at_start() {
    let b = CosmicBrowser::init();
    assert_eq!(titles(&b), vec!["New Tab"]);
    assert_eq!(urls(&b), vec!["https://start.page"]);
    assert_eq!(b.active_tab(), 0);
    assert_eq!(b.address_input(), "https://start.page");
    assert!(!b.is_loading());
    assert!(!b.webview_attached());
}

#[test]
fn navigate_and_type() {
    let mut b = CosmicBrowser::init();
    match b.update(Message::AddressChanged("exa".to_string())) {
        (Effect::Nothing, ProgressChange::Keep) => {}
        _ => panic!(),
    }
    assert_eq!(b.address_input(), "exa");
    match b.update(Message::Navigate("example.com".to_string())) {
        (Effect::Navigate(u), ProgressChange::Keep) => assert_eq!(u, "example.com"),
        _ => panic!(),
    }
    assert_eq!(b.address_input(), "example.com");
    assert_eq!(urls(&b), vec!["example.com"]);
}

#[test]
fn history_buttons_go_to_the_engine() {
    let mut b = CosmicBrowser::init();
    assert!(matches!(b.update(Message::Back), (Effect::Back, ProgressChange::Keep)));
    assert!(matches!(b.update(Message::Forward), (Effect::Forward, ProgressChange::Keep)));
    assert!(matches!(b.update(Message::Reload), (Effect::Reload, ProgressChange::Keep)));
}

#[test]
fn new_tabs_become_active() {
    let mut b = CosmicBrowser::init();
    match b.update(Message::NewTab) {
        (Effect::OpenTab { url, activate: true }, ProgressChange::Keep) => assert_eq!(url, "about:blank"),
        _ => panic!(),
    }
    assert_eq!(b.active_tab(), 1);
    assert_eq!(b.address_input(), "about:blank");
    assert_eq!(urls(&b), vec!["https://start.page", "about:blank"]);
    let ev = WebViewEvent::NewWindowRequested { tab_id: 0, url: "https://pop.up".to_string() };
    match b.update(Message::WebViewEvent(ev)) {
        (Effect::OpenTab { url, activate: true }, _) => assert_eq!(url, "about:blank"),
        _ => panic!(),
    }
    assert_eq!(b.active_tab(), 2);
    assert_eq!(b.tabs().len(), 3);
}

#[test]
fn closing_keeps_one_tab() {
    let mut b = CosmicBrowser::init();
    assert!(matches!(b.update(Message::CloseTab(0)), (Effect::Nothing, _)));
    assert_eq!(b.tabs().len(), 1);
    b.update(Message::NewTab);
    b.update(Message::NewTab);
    assert_eq!(b.active_tab(), 2);
    assert!(matches!(b.update(Message::CloseTab(2)), (Effect::CloseTab(2), _)));
    assert_eq!(b.active_tab(), 1);
    assert!(matches!(b.update(Message::CloseTab(0)), (Effect::CloseTab(0), _)));
    assert_eq!(b.active_tab(), 0);
    assert_eq!(b.tabs().len(), 1);
}

#[test]
fn selecting_shows_the_tab_address() {
    let mut b = CosmicBrowser::init();
    b.update(Message::NewTab);
    assert!(matches!(b.update(Message::SelectTab(0)), (Effect::SelectTab(0), _)));
    assert_eq!(b.active_tab(), 0);
    assert_eq!(b.address_input(), "https://start.page");
    // An index past the list still becomes active; the address bar stays.
    assert!(matches!(b.update(Message::SelectTab(9)), (Effect::SelectTab(9), _)));
    assert_eq!(b.active_tab(), 9);
    assert_eq!(b.address_input(), "https://start.page");
}

#[test]
fn page_events_update_tabs() {
    let mut b = CosmicBrowser::init();
    b.update(Message::NewTab);
    b.update(Message::WebViewEvent(WebViewEvent::TitleChanged { tab_id: 0, title: "Start".to_string() }));
    assert_eq!(titles(&b), vec!["Start", "New Tab"]);
    b.update(Message::WebViewEvent(WebViewEvent::UrlChanged { tab_id: 0, url: "https://a.b".to_string() }));
    assert_eq!(urls(&b), vec!["https://a.b", "about:blank"]);
    assert_eq!(b.address_input(), "about:blank");
    b.update(Message::WebViewEvent(WebViewEvent::UrlChanged { tab_id: 1, url: "https://c.d".to_string() }));
    assert_eq!(b.address_input(), "https://c.d");
    b.update(Message::WebViewEvent(WebViewEvent::FaviconUrl { tab_id: 1, url: "https://c.d/favicon.ico".to_string() }));
    assert_eq!(b.tabs()[1].favicon.as_deref(), Some("https://c.d/favicon.ico"));
    // events for tabs the sidebar does not have change nothing
    b.update(Message::WebViewEvent(WebViewEvent::TitleChanged { tab_id: 5, title: "x".to_string() }));
    assert_eq!(titles(&b), vec!["Start", "New Tab"]);
}

#[test]
fn loading_follows_the_active_tab() {
    let mut b = CosmicBrowser::init();
    assert!(matches!(b.update(Message::WebViewEvent(WebViewEvent::LoadStarted { tab_id: 1 })), (Effect::Nothing, ProgressChange::Keep)));
    assert!(!b.is_loading());
    assert!(matches!(b.update(Message::WebViewEvent(WebViewEvent::LoadStarted { tab_id: 0 })), (Effect::Nothing, ProgressChange::Reset)));
    assert!(b.is_loading());
    assert!(matches!(b.update(Message::WebViewEvent(WebViewEvent::LoadProgress { tab_id: 0 })), (_, ProgressChange::Reported)));
    assert!(matches!(b.update(Message::WebViewEvent(WebViewEvent::LoadProgress { tab_id: 3 })), (_, ProgressChange::Keep)));
    assert!(matches!(b.update(Message::WebViewEvent(WebViewEvent::LoadFinished { tab_id: 3 })), (_, ProgressChange::Keep)));
    assert!(b.is_loading());
    assert!(matches!(b.update(Message::WebViewEvent(WebViewEvent::LoadFinished { tab_id: 0 })), (_, ProgressChange::Complete)));
    assert!(!b.is_loading());
}

#[test]
fn history_flags_and_reports() {
    let mut b = CosmicBrowser::init();
    match b.update(Message::WebViewEvent(WebViewEvent::CanGoChanged { tab_id: 0, back: true, forward: false })) {
        (Effect::UpdateCanGo { tab_id: 0, back: true, forward: false }, ProgressChange::Keep) => {}
        _ => panic!(),
    }
    for ev in [
        WebViewEvent::IpcMessage { tab_id: 0, body: "{}".to_string() },
        WebViewEvent::DownloadStarted { tab_id: 0, url: "https://a/b.zip".to_string(), suggested_path: None },
        WebViewEvent::PermissionRequested { tab_id: 0, permission: "Camera".to_string() },
        WebViewEvent::NavigationBlocked { tab_id: 0, url: "javascript:x".to_string() },
    ] {
        assert!(matches!(b.update(Message::WebViewEvent(ev)), (Effect::Nothing, ProgressChange::Keep)));
    }
    assert_eq!(urls(&b), vec!["https://start.page"]);
}

#[test]
fn attaching_the_web_views() {
    let mut b = CosmicBrowser::init();
    assert!(matches!(b.update(Message::WindowReady), (Effect::TryAttach, _)));
    assert!(matches!(b.update(Message::ContentBoundsChanged((1, 2, 3, 4))), (Effect::TryAttach, _)));
    assert!(!b.try_attach_webview(false));
    assert!(!b.webview_attached());
    assert!(b.try_attach_webview(true));
    assert!(b.webview_attached());
    assert!(!b.try_attach_webview(true));
    match b.update(Message::ContentBoundsChanged((1, 2, 3, 4))) {
        (Effect::SetBounds(r), _) => assert_eq!(r, (1, 2, 3, 4)),
        _ => panic!(),
    }
}
