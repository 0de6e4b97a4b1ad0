//! The error taxonomy of the routing engine and the adapters.

use vstd::prelude::*;

verus! {

/// Why an operation of the router or of an adapter failed.
#[derive(Debug, Clone)]
pub enum AIError {
    /// A transport-level failure reaching a backend.
    Network(String),
    /// No adapter could be tried, or a named adapter does not exist.
    ProviderUnavailable(String),
    /// Missing, invalid or expired credentials, or an unmet precondition.
    InvalidConfig(String),
    /// The backend was reachable but rejected or mishandled the request.
    ApiError(String),
    /// Malformed JSON on either side of the wire.
    Serialization(String),
}

/// The mathematical shape of an [`AIError`]: the same five kinds over
/// character sequences.
pub ghost enum ErrorView {
    Network(Seq<char>),
    ProviderUnavailable(Seq<char>),
    InvalidConfig(Seq<char>),
    ApiError(Seq<char>),
    Serialization(Seq<char>),
}

impl ErrorView {
    /// The rendered text of the error: a fixed prefix naming the kind,
    /// then the detail carried by the variant.
    pub open spec fn text(self) -> Seq<char> {
        match self {
            ErrorView::Network(s) => "Network error: "@ + s,
            ErrorView::ProviderUnavailable(s) => "Provider not available: "@ + s,
            ErrorView::InvalidConfig(s) => "Invalid configuration: "@ + s,
            ErrorView::ApiError(s) => "API error: "@ + s,
            ErrorView::Serialization(s) => "Serialization error: "@ + s,
        }
    }
}

impl View for AIError {
    type V = ErrorView;

    open spec fn view(&self) -> ErrorView {
        match self {
            AIError::Network(s) => ErrorView::Network(s@),
            AIError::ProviderUnavailable(s) => ErrorView::ProviderUnavailable(s@),
            AIError::InvalidConfig(s) => ErrorView::InvalidConfig(s@),
            AIError::ApiError(s) => ErrorView::ApiError(s@),
            AIError::Serialization(s) => ErrorView::Serialization(s@),
        }
    }
}

impl AIError {
    /// Render the error as plain descriptive text.
    pub fn message(&self) -> (r: String)
        ensures
            r@ == self@.text(),
    {
        match self {
            AIError::Network(s) => {
                let mut t = "Network error: ".to_owned();
                t.append(s.as_str());
                t
            },
            AIError::ProviderUnavailable(s) => {
                let mut t = "Provider not available: ".to_owned();
                t.append(s.as_str());
                t
            },
            AIError::InvalidConfig(s) => {
                let mut t = "Invalid configuration: ".to_owned();
                t.append(s.as_str());
                t
            },
            AIError::ApiError(s) => {
                let mut t = "API error: ".to_owned();
                t.append(s.as_str());
                t
            },
            AIError::Serialization(s) => {
                let mut t = "Serialization error: ".to_owned();
                t.append(s.as_str());
                t
            },
        }
    }
}

} // verus!
