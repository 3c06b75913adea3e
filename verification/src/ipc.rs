//! Events that a tab's web view reports to the browser.

use vstd::prelude::*;

verus! {

/// What a web view reports about tab `tab_id`.
///
/// `LoadProgress` carries only the tab: the estimated progress itself is a
/// floating-point fraction, which travels beside the event in the program
/// that owns the web views.
#[derive(Debug, Clone)]
pub enum WebViewEvent {
    TitleChanged { tab_id: usize, title: String },
    UrlChanged { tab_id: usize, url: String },
    FaviconUrl { tab_id: usize, url: String },
    LoadStarted { tab_id: usize },
    LoadFinished { tab_id: usize },
    LoadProgress { tab_id: usize },
    CanGoChanged { tab_id: usize, back: bool, forward: bool },
    IpcMessage { tab_id: usize, body: String },
    NewWindowRequested { tab_id: usize, url: String },
    DownloadStarted { tab_id: usize, url: String, suggested_path: Option<String> },
    PermissionRequested { tab_id: usize, permission: String },
    NavigationBlocked { tab_id: usize, url: String },
}

} // verus!
