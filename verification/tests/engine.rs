use cosmic_browser::browser::BrowserEngine;

fn engine_with_tabs(n: usize) -> BrowserEngine {
    let mut e = BrowserEngine::new();
    let plan = e.attach(10, 20, 300, 400).expect("attach asks for a tab");
    assert_eq!(plan.tab_id, 0);
    assert_eq!(plan.url, "https://start.page");
    assert_eq!(plan.bounds, (10, 20, 300, 400));
    assert!(plan.activate);
    assert_eq!(e.tab_created(&plan.url, plan.activate), 0);
    for _ in 1..n {
        let p = e.open_tab("example.com", true).unwrap();
        e.tab_created(&p.url, p.activate);
    }
    e
}

#[test]
fn fresh_engine() {
    let e = BrowserEngine::new();
    assert!(!e.is_attached());
    assert_eq!(e.tab_count(), 0);
    assert_eq!(e.current_url(), "about:blank");
    assert!(e.open_tab("example.com", true).is_none());
    assert!(e.active_tab().is_none());
    assert!(e.back().is_none());
    assert!(e.reload().is_none());
}

#[test]
fn opening_tabs() {
    let mut e = engine_with_tabs(1);
    assert!(e.is_attached());
    assert_eq!(e.current_url(), "https://start.page");
    let p = e.open_tab("hello world", false).unwrap();
    assert_eq!(p.tab_id, 1);
    assert_eq!(p.url, "https://search.brave.com/search?q=hello%20world");
    assert_eq!(p.bounds, (10, 20, 300, 400));
    assert_eq!(e.tab_created(&p.url, p.activate), 1);
    assert_eq!(e.tab_count(), 2);
    // not activated: the start page stays shown
    assert_eq!(e.current_url(), "https://start.page");
    let p = e.open_tab("example.org", true).unwrap();
    assert_eq!(e.tab_created(&p.url, true), 2);
    assert_eq!(e.current_url(), "https://example.org");
    let t = e.active_tab().unwrap();
    assert_eq!(t.title, "New Tab");
    assert!(!t.can_go_back && !t.can_go_forward && !t.is_loading);
    assert!(t.favicon_url.is_none());
}

#[test]
fn closing_tabs() {
    let mut e = engine_with_tabs(3);
    assert_eq!(e.current_url(), "https://example.com");
    assert_eq!(e.close_tab(0), Some(1));
    assert_eq!(e.tab_count(), 2);
    assert_eq!(e.close_tab(1), Some(0));
    assert_eq!(e.tab_count(), 1);
    // the last tab is never closed
    assert_eq!(e.close_tab(0), None);
    assert_eq!(e.tab_count(), 1);
}

#[test]
fn selecting_tabs() {
    let mut e = engine_with_tabs(3);
    assert_eq!(e.select_tab(0), Some(2));
    assert_eq!(e.current_url(), "https://start.page");
    assert_eq!(e.select_tab(5), None);
    assert_eq!(e.current_url(), "https://start.page");
    assert_eq!(e.select_tab(1), Some(0));
    assert_eq!(e.current_url(), "https://example.com");
}

#[test]
fn navigating_the_shown_tab() {
    let mut e = BrowserEngine::new();
    assert!(e.navigate("example.com").is_none());
    let mut e = engine_with_tabs(2);
    let (i, url) = e.navigate("rust lang").unwrap();
    assert_eq!(i, 1);
    assert_eq!(url, "https://search.brave.com/search?q=rust%20lang");
    assert_eq!(e.current_url(), "https://search.brave.com/search?q=rust%20lang");
}

#[test]
fn history_flags_gate_back_and_forward() {
    let mut e = engine_with_tabs(2);
    assert_eq!(e.back(), None);
    assert_eq!(e.forward(), None);
    e.update_can_go(1, true, false);
    assert_eq!(e.back(), Some(1));
    assert_eq!(e.forward(), None);
    e.update_can_go(0, false, true);
    assert_eq!(e.forward(), None);
    e.select_tab(0);
    assert_eq!(e.forward(), Some(0));
    e.update_can_go(9, true, true);
    assert_eq!(e.back(), None);
}

#[test]
fn shown_tab_targets() {
    let e = engine_with_tabs(2);
    assert_eq!(e.reload(), Some(1));
    assert_eq!(e.zoom_in(), Some(1));
    assert_eq!(e.zoom_out(), Some(1));
    assert_eq!(e.zoom_reset(), Some(1));
}

#[test]
fn bounds_apply_to_later_tabs() {
    let mut e = engine_with_tabs(1);
    e.set_bounds(1, 2, 3, 4);
    assert_eq!(e.open_tab("a.b", true).unwrap().bounds, (1, 2, 3, 4));
}

#[test]
fn editing_tab_records_in_place() {
    let mut e = engine_with_tabs(2);
    e.tab_mut(0).unwrap().title = "Start".to_string();
    assert!(e.tab_mut(7).is_none());
    e.active_tab_mut().unwrap().is_loading = true;
    e.select_tab(0);
    assert_eq!(e.active_tab().unwrap().title, "Start");
    e.select_tab(1);
    assert!(e.active_tab().unwrap().is_loading);
}

#[test]
fn tab_record_navigation() {
    let mut e = engine_with_tabs(1);
    let t = e.active_tab_mut().unwrap();
    t.navigate("https://x.y");
    assert_eq!(t.url, "https://x.y");
    t.can_go_back = true;
    assert!(t.back());
    assert!(!t.forward());
    assert_eq!(e.current_url(), "https://x.y");
}
