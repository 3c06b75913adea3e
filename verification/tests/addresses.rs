use cosmic_browser::browser::{
    favicon_event, favicon_url, initialization_script, is_allowed_scheme, normalize_parsed,
    normalize_url, on_navigation, TabWebView,
};
use cosmic_browser::ipc::WebViewEvent;
use cosmic_browser::text::{decimal_string, replace_all, scheme_of, starts_with, str_eq};
use cosmic_browser::urls::ParsedUrl;

#[test]
fn passthrough_schemes_are_kept() {
    assert_eq!(normalize_url("about:blank"), "about:blank");
    assert_eq!(normalize_url("file:///home/user/a.html"), "file:///home/user/a.html");
    assert_eq!(normalize_url("data:text/plain,hi there"), "data:text/plain,hi there");
    assert_eq!(normalize_url("view-source:https://a.b"), "view-source:https://a.b");
    assert_eq!(normalize_url("blob:https://a.b/x"), "blob:https://a.b/x");
}

#[test]
fn web_urls_are_kept() {
    assert_eq!(normalize_url("https://example.com/a?b=c"), "https://example.com/a?b=c");
    assert_eq!(normalize_url("http://example.com"), "http://example.com");
    // The parser reads the scheme case-insensitively; the text is kept as typed.
    assert_eq!(normalize_url("HTTPS://Example.com"), "HTTPS://Example.com");
}

#[test]
fn local_addresses_get_http() {
    assert_eq!(normalize_url("localhost:8080"), "http://localhost:8080");
    assert_eq!(normalize_url("127.0.0.1:3000/x"), "http://127.0.0.1:3000/x");
    assert_eq!(normalize_url("[::1]:8000"), "http://[::1]:8000");
}

#[test]
fn host_like_text_gets_https() {
    assert_eq!(normalize_url("example.com"), "https://example.com");
    assert_eq!(normalize_url("docs.rs/verus"), "https://docs.rs/verus");
}

#[test]
fn other_text_becomes_a_search() {
    assert_eq!(normalize_url("hello world"), "https://search.brave.com/search?q=hello%20world");
    assert_eq!(normalize_url("what is rust?"), "https://search.brave.com/search?q=what%20is%20rust%3F");
    assert_eq!(normalize_url(".hidden"), "https://search.brave.com/search?q=.hidden");
    assert_eq!(normalize_url("rust"), "https://search.brave.com/search?q=rust");
    assert_eq!(normalize_url("café"), "https://search.brave.com/search?q=caf%C3%A9");
    assert_eq!(normalize_url("a.b c"), "https://search.brave.com/search?q=a.b%20c");
    assert_eq!(normalize_url(""), "https://search.brave.com/search?q=");
}

#[test]
fn normalize_given_parse_results() {
    let web = Some(ParsedUrl { scheme: "https".to_string(), host: Some("x".to_string()) });
    assert_eq!(normalize_parsed("whatever text", &web), "whatever text");
    let other = Some(ParsedUrl { scheme: "mailto".to_string(), host: None });
    assert_eq!(normalize_parsed("mailto:me@example.org", &other), "https://mailto:me@example.org");
    assert_eq!(normalize_parsed("two words", &None), "https://search.brave.com/search?q=two%20words");
    assert_eq!(normalize_parsed("about:config", &None), "about:config");
}

#[test]
fn normalized_addresses_pass_the_allowlist() {
    for input in ["example.com", "hello world", "localhost", "127.1", "[::1]", "about:blank", "mailto:a@b.c", "tel:123"] {
        let n = normalize_url(input);
        assert!(is_allowed_scheme(&n), "{input} -> {n}");
    }
}

#[test]
fn scheme_allowlist() {
    assert!(is_allowed_scheme("https://example.com"));
    assert!(is_allowed_scheme("http://example.com"));
    assert!(is_allowed_scheme("about:blank"));
    assert!(is_allowed_scheme("file:///etc/hosts"));
    assert!(is_allowed_scheme("data:,x"));
    assert!(is_allowed_scheme("blob:https://a"));
    assert!(is_allowed_scheme("view-source:https://a"));
    assert!(!is_allowed_scheme("javascript:alert(1)"));
    assert!(!is_allowed_scheme("ftp://example.com"));
    assert!(!is_allowed_scheme("HTTPS://example.com"));
    assert!(!is_allowed_scheme(""));
    // Text with no colon is its own scheme part.
    assert!(is_allowed_scheme("https"));
    assert!(!is_allowed_scheme("example.com"));
}

#[test]
fn navigation_handler_blocks_other_schemes() {
    match on_navigation(3, "https://a.b".to_string()) {
        (true, WebViewEvent::UrlChanged { tab_id: 3, url }) => assert_eq!(url, "https://a.b"),
        _ => panic!("allowed navigation was not reported"),
    }
    match on_navigation(1, "javascript:void(0)".to_string()) {
        (false, WebViewEvent::NavigationBlocked { tab_id: 1, url }) => assert_eq!(url, "javascript:void(0)"),
        _ => panic!("blocked navigation was not reported"),
    }
}

#[test]
fn favicon_addresses() {
    let p = ParsedUrl { scheme: "https".to_string(), host: Some("example.com".to_string()) };
    assert_eq!(favicon_url(&p), "https://example.com/favicon.ico");
    let p = ParsedUrl { scheme: "file".to_string(), host: None };
    assert_eq!(favicon_url(&p), "file:///favicon.ico");
    match favicon_event(2, "https://www.rust-lang.org/learn?x=1") {
        Some(WebViewEvent::FaviconUrl { tab_id: 2, url }) => {
            assert_eq!(url, "https://www.rust-lang.org/favicon.ico")
        }
        _ => panic!("no favicon event"),
    }
    assert!(favicon_event(0, "not a url").is_none());
    match favicon_event(4, "file:///tmp/page.html") {
        Some(WebViewEvent::FaviconUrl { tab_id: 4, url }) => assert_eq!(url, "file:///favicon.ico"),
        _ => panic!("no favicon event"),
    }
}

#[test]
fn injected_script_names_the_tab() {
    let s = initialization_script(42);
    assert_eq!(
        s,
        "\n                    window.__cosmicBrowser = {\n                        ipc: (msg) => window.ipc.postMessage(JSON.stringify(msg)),\n                        tabId: 42,\n                    };\n                "
    );
    assert!(initialization_script(0).contains("tabId: 0,"));
}

#[test]
fn posted_messages_are_wrapped_in_an_event() {
    let t = TabWebView::new("about:blank");
    assert_eq!(
        t.post_message("{\"a\":1}"),
        "window.dispatchEvent(new MessageEvent('cosmicBrowser', { data: {\"a\":1} }));"
    );
}

#[test]
fn text_helpers() {
    assert_eq!(replace_all("a%sb%s", "%s", "X"), "aXbX");
    assert_eq!(replace_all("%%ss", "%s", "-"), "%-s");
    assert_eq!(replace_all("none", "%s", "-"), "none");
    assert_eq!(decimal_string(0), "0");
    assert_eq!(decimal_string(1234567890), "1234567890");
    assert_eq!(scheme_of("https://x:1"), "https");
    assert_eq!(scheme_of("plain"), "plain");
    assert!(starts_with("localhost:1", "localhost"));
    assert!(!starts_with("local", "localhost"));
    assert!(str_eq("é", "é"));
    assert!(!str_eq("ab", "abc"));
}

#[test]
fn plain_text_always_loads() {
    for input in ["http://x", "https:foo", "ftp://x", "mailto:a@b.c", "http:", "a:b", "x.y/z", "-", "%41"] {
        let n = normalize_url(input);
        assert!(is_allowed_scheme(&n), "{input} -> {n}");
    }
}

#[test]
fn normalizing_twice_changes_nothing() {
    for input in ["example.com", "hello world", "localhost:1", "about:blank", "https://a.b/c", "x"] {
        let n = normalize_url(input);
        assert_eq!(normalize_url(&n), n, "{input}");
    }
}
