//! What is asked of the token endpoint, and what it answers.

use vstd::prelude::*;
use crate::Error;

verus! {

/// The kind of an access token.
#[derive(Clone, Copy, Debug, PartialEq, Eq, Structural)]
pub enum TokenType {
    Bearer,
    Mac,
}

/// What the token endpoint grants.
#[derive(Clone, Debug, PartialEq, Eq)]
pub struct Token {
    pub access_token: String,
    pub token_type: TokenType,
    /// The lifetime of the access token in seconds, where the endpoint gave
    /// one.
    pub expires_in: Option<u64>,
    pub refresh_token: Option<String>,
    pub scopes: Option<Vec<String>>,
}

/// The error that the token endpoint reports in the body of a refusal.
#[derive(Clone, Debug, PartialEq, Eq)]
pub struct ErrorResponse {
    /// The error code, such as `invalid_grant`.
    pub error: String,
    pub description: Option<String>,
    pub uri: Option<String>,
}

/// Why a request to the token endpoint gave no token.
#[derive(Clone, Debug, PartialEq, Eq)]
pub enum RequestError {
    /// The endpoint refused, and said why.
    ServerResponse(ErrorResponse),
    /// The request did not reach the endpoint, or its answer did not arrive.
    Request(String),
    /// The answer could not be read: the reason, and the answer's body.
    Parse(String, Vec<u8>),
    /// Anything else, such as an answer without a body.
    Other(String),
}

/// What is handed in for a token.
#[derive(Debug, PartialEq, Eq)]
pub enum Grant {
    /// The code that the callback of a login carried.
    AuthorizationCode(String),
    /// A refresh token from an earlier grant.
    RefreshToken(String),
}

pub enum GrantView {
    AuthorizationCode(Seq<char>),
    RefreshToken(Seq<char>),
}

impl View for Grant {
    type V = GrantView;

    open spec fn view(&self) -> GrantView {
        match *self {
            Grant::AuthorizationCode(code) => GrantView::AuthorizationCode(code@),
            Grant::RefreshToken(token) => GrantView::RefreshToken(token@),
        }
    }
}

/// A request to the token endpoint: where it goes, who asks, and what is
/// handed in.
#[derive(Debug, PartialEq, Eq)]
pub struct TokenRequest {
    pub token_url: String,
    pub client_id: String,
    pub client_secret: String,
    pub redirect_url: String,
    pub grant: Grant,
}

pub struct TokenRequestView {
    pub token_url: Seq<char>,
    pub client_id: Seq<char>,
    pub client_secret: Seq<char>,
    pub redirect_url: Seq<char>,
    pub grant: GrantView,
}

impl View for TokenRequest {
    type V = TokenRequestView;

    open spec fn view(&self) -> TokenRequestView {
        TokenRequestView {
            token_url: self.token_url@,
            client_id: self.client_id@,
            client_secret: self.client_secret@,
            redirect_url: self.redirect_url@,
            grant: self.grant@,
        }
    }
}

/// What a request comes to, given the endpoint's answer: the token, or the
/// reason why there is none as an `OAuth2` error.
pub open spec fn answered(reply: Result<Token, RequestError>) -> Result<Token, Error> {
    match reply {
        Ok(token) => Ok(token),
        Err(error) => Err(Error::OAuth2(error)),
    }
}

impl TokenRequest {
    /// What this request comes to, given the endpoint's answer.
    pub fn answered(self, reply: Result<Token, RequestError>) -> (r: Result<Token, Error>)
        ensures
            r == answered(reply),
    {
        match reply {
            Ok(token) => Ok(token),
            Err(error) => Err(Error::OAuth2(error)),
        }
    }
}

} // verus!
