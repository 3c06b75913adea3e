//! The tabs listed in the sidebar.

use vstd::prelude::*;
use vstd::string::*;
use crate::urls::opt_chars;

verus! {

/// One entry of the sidebar.
#[derive(Debug, Clone)]
pub struct SidebarTab {
    pub title: String,
    pub url: String,
    pub favicon: Option<String>,
}

/// The characters of a sidebar entry.
pub struct SidebarTabView {
    pub title: Seq<char>,
    pub url: Seq<char>,
    pub favicon: Option<Seq<char>>,
}

impl View for SidebarTab {
    type V = SidebarTabView;

    open spec fn view(&self) -> SidebarTabView {
        SidebarTabView { title: self.title@, url: self.url@, favicon: opt_chars(self.favicon) }
    }
}

impl SidebarTab {
    /// A new entry with the given title and address and no favicon.
    pub fn new(title: &str, url: &str) -> (r: SidebarTab)
        ensures
            r@ == (SidebarTabView { title: title@, url: url@, favicon: None }),
    {
        SidebarTab { title: String::from_str(title), url: String::from_str(url), favicon: None }
    }
}

} // verus!
