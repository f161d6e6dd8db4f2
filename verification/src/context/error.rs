//! Why a plugin's context could not be made.

use vstd::prelude::*;
use vstd::string::StringExecFns;

verus! {

/// Why a plugin's context could not be made: building it failed, reading
/// failed, or its description was not valid TOML.  Each carries the text of
/// the underlying error.
pub enum ContextError {
    Build(String),
    Io(String),
    Toml(String),
}

/// The model of a `ContextError`.
pub enum ContextErrorView {
    Build(Seq<char>),
    Io(Seq<char>),
    Toml(Seq<char>),
}

impl View for ContextError {
    type V = ContextErrorView;

    open spec fn view(&self) -> ContextErrorView {
        match self {
            ContextError::Build(e) => ContextErrorView::Build(e@),
            ContextError::Io(e) => ContextErrorView::Io(e@),
            ContextError::Toml(e) => ContextErrorView::Toml(e@),
        }
    }
}

/// The text a context error is shown as.
pub open spec fn context_error_text(e: ContextErrorView) -> Seq<char> {
    match e {
        ContextErrorView::Build(m) => "Build error: "@ + m,
        ContextErrorView::Io(m) => "IO error: "@ + m,
        ContextErrorView::Toml(m) => "TOML error: "@ + m,
    }
}

impl ContextError {
    /// The text the error is shown as.
    pub fn message(&self) -> (r: String)
        ensures
            r@ == context_error_text(self@),
    {
        let (mut s, detail) = match self {
            ContextError::Build(e) => (String::from_str("Build error: "), e),
            ContextError::Io(e) => (String::from_str("IO error: "), e),
            ContextError::Toml(e) => (String::from_str("TOML error: "), e),
        };
        s.append(detail.as_str());
        s
    }
}

} // verus!
