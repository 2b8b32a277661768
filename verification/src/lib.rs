//! An OAuth2 authorization-code client for one identity provider.
//!
//! The library holds the rules of the flow: which configuration is complete,
//! which authorization belongs to which callback, and what a login attempt
//! does with each event that reaches it. Windows and network traffic are left
//! to the caller, who reports what happened and is told what to do next.

use vstd::prelude::*;

pub mod authorization;
pub mod provider;
pub mod query;
pub mod token;
pub mod ui;
pub mod web;

pub use crate::authorization::Authorization;
pub use crate::provider::{Kind, Provider, ProviderOptions};
pub use crate::token::{RequestError, Token};
pub use crate::ui::UI;

verus! {

/// Why a provider could not be built or a login did not give a token.
#[derive(Debug)]
pub enum Error {
    /// A failure of no other kind.
    Unknown,
    /// The user closed the browser surface before the login was through.
    Interrupted,
    /// The token endpoint could not be reached, refused, or answered with
    /// something that is no token.
    OAuth2(RequestError),
    /// A required option of the configuration, or a required parameter of the
    /// callback, is absent.
    MissingOption(&'static str),
    /// A text that should be a URL is none.
    InvalidUrl(url::ParseError),
    /// The callback's state is not the one that the authorization was made
    /// with.
    InvalidState,
}

/// An error as contracts speak of it: with the text of each string.
pub enum ErrorView {
    Unknown,
    Interrupted,
    OAuth2(RequestError),
    MissingOption(Seq<char>),
    InvalidUrl(url::ParseError),
    InvalidState,
}

impl View for Error {
    type V = ErrorView;

    open spec fn view(&self) -> ErrorView {
        match *self {
            Error::Unknown => ErrorView::Unknown,
            Error::Interrupted => ErrorView::Interrupted,
            Error::OAuth2(error) => ErrorView::OAuth2(error),
            Error::MissingOption(name) => ErrorView::MissingOption(name@),
            Error::InvalidUrl(error) => ErrorView::InvalidUrl(error),
            Error::InvalidState => ErrorView::InvalidState,
        }
    }
}

impl From<url::ParseError> for Error {
    fn from(error: url::ParseError) -> (r: Error) {
        Error::InvalidUrl(error)
    }
}

impl vstd::std_specs::convert::FromSpecImpl<url::ParseError> for Error {
    open spec fn obeys_from_spec() -> bool {
        true
    }

    open spec fn from_spec(error: url::ParseError) -> Error {
        Error::InvalidUrl(error)
    }
}

} // verus!
