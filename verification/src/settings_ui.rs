//! What the settings page reports when the user changes something.

use vstd::prelude::*;
use crate::settings::{SearchEngine, SidebarPosition, Theme};

verus! {

/// A change made on the settings page, or one of its two buttons.
#[derive(Debug, Clone)]
pub enum SettingsMessage {
    HomepageChanged(String),
    NewTabUrlChanged(String),
    RestoreSessionToggled(bool),
    JavascriptToggled(bool),
    CookiesToggled(bool),
    BlockThirdPartyToggled(bool),
    DoNotTrackToggled(bool),
    ClearOnCloseToggled(bool),
    ThemeSelected(Theme),
    SidebarPositionSelected(SidebarPosition),
    StatusBarToggled(bool),
    SearchEngineSelected(SearchEngine),
    CustomSearchUrlChanged(String),
    SuggestToggled(bool),
    Save,
    Close,
}

} // verus!
