//! A verified core for a tabbed web browser: address normalisation, the
//! scheme allowlist, search URLs, the tab engine, and the browser's message
//! handling, each with a contract proved by Verus.

use vstd::prelude::*;

pub mod text;
pub mod urls;
pub mod ipc;
pub mod sidebar;
pub mod browser;
pub mod settings;
pub mod settings_ui;
pub mod ui;

verus! {

/// Errors the browser reports to its callers.
#[derive(Debug, Clone, Copy, PartialEq, Eq, Structural)]
pub enum CosmicError {
    NotFound,
    BadRequest,
    Unauthorized,
    InternalServerError,
}

impl CosmicError {
    /// The text shown for an error: the variant's name.
    pub open spec fn text(self) -> Seq<char> {
        match self {
            CosmicError::NotFound => "NotFound"@,
            CosmicError::BadRequest => "BadRequest"@,
            CosmicError::Unauthorized => "Unauthorized"@,
            CosmicError::InternalServerError => "InternalServerError"@,
        }
    }

    /// Renders the error as its variant's name.
    pub fn to_string(&self) -> (r: String)
        ensures
            r@ == self.text(),
    {
        match self {
            CosmicError::NotFound => String::from_str("NotFound"),
            CosmicError::BadRequest => String::from_str("BadRequest"),
            CosmicError::Unauthorized => String::from_str("Unauthorized"),
            CosmicError::InternalServerError => String::from_str("InternalServerError"),
        }
    }
}

} // verus!
