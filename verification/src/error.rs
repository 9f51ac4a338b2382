//! Errors of the configuration load. An optional-flagged import whose
//! document is absent is skipped, never an error; everything here
//! aborts the whole load.

use vstd::prelude::*;

verus! {

/// Why a load failed.
#[derive(Debug, Clone, PartialEq, Eq)]
pub enum ConfigError {
    /// A required local document or remote document is absent.
    NotFound(String),
    /// A document or remote payload could not be parsed.
    Parse(String),
    /// A remote import was requested without its connection settings;
    /// never suppressed by an `optional:` flag.
    MissingConnectionConfig(String),
    /// The merged tree does not materialize into the typed structure.
    Decode(String),
}

/// The model of an error: its kind and the text it carries.
pub enum ErrorView {
    NotFound(Seq<char>),
    Parse(Seq<char>),
    MissingConnectionConfig(Seq<char>),
    Decode(Seq<char>),
}

impl View for ConfigError {
    type V = ErrorView;

    open spec fn view(&self) -> ErrorView {
        match self {
            ConfigError::NotFound(m) => ErrorView::NotFound(m@),
            ConfigError::Parse(m) => ErrorView::Parse(m@),
            ConfigError::MissingConnectionConfig(m) => ErrorView::MissingConnectionConfig(m@),
            ConfigError::Decode(m) => ErrorView::Decode(m@),
        }
    }
}

impl ConfigError {
    /// The text the error carries.
    pub fn message(&self) -> (r: &String)
        ensures
            match self@ {
                ErrorView::NotFound(m) => r@ == m,
                ErrorView::Parse(m) => r@ == m,
                ErrorView::MissingConnectionConfig(m) => r@ == m,
                ErrorView::Decode(m) => r@ == m,
            },
    {
        match self {
            ConfigError::NotFound(m) => m,
            ConfigError::Parse(m) => m,
            ConfigError::MissingConnectionConfig(m) => m,
            ConfigError::Decode(m) => m,
        }
    }
}

} // verus!
