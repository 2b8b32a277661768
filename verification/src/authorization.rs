//! One login attempt's authorization: where the user is sent, and the state
//! that the callback has to bring back.

use vstd::prelude::*;
use crate::query::Params;
use crate::{Error, ErrorView};

verus! {

/// The URL that a login attempt visits, together with the state token that
/// was made for this attempt and for no other.
pub struct Authorization {
    pub(crate) state: String,
    pub(crate) url: String,
}

pub struct AuthorizationView {
    pub state: Seq<char>,
    pub url: Seq<char>,
}

impl View for Authorization {
    type V = AuthorizationView;

    closed spec fn view(&self) -> AuthorizationView {
        AuthorizationView { state: self.state@, url: self.url@ }
    }
}

/// What the parameters of a callback give, held against the state of the
/// authorization it answers: the code to exchange, where both `code` and
/// `state` are there and the state is the authorization's own.
pub open spec fn callback_code(state: Seq<char>, params: Map<Seq<char>, Seq<char>>) -> Result<
    Seq<char>,
    ErrorView,
> {
    if !params.contains_key("code"@) {
        Err(ErrorView::MissingOption("code"@))
    } else if !params.contains_key("state"@) {
        Err(ErrorView::MissingOption("state"@))
    } else if params["state"@] != state {
        Err(ErrorView::InvalidState)
    } else {
        Ok(params["code"@])
    }
}

/// A code or an error as contracts speak of it.
pub open spec fn code_view(r: Result<String, Error>) -> Result<Seq<char>, ErrorView> {
    match r {
        Ok(code) => Ok(code@),
        Err(error) => Err(error@),
    }
}

impl Authorization {
    /// The authorization that sends the user to `url` and expects `state`
    /// back.
    pub(crate) fn new(state: String, url: String) -> (a: Authorization)
        ensures
            a@ == (AuthorizationView { state: state@, url: url@ }),
    {
        Authorization { state, url }
    }

    /// The URL to visit.
    pub fn url(&self) -> (url: String)
        ensures
            url@ == self@.url,
    {
        self.url.clone()
    }

    /// The code that a callback with the parameters `params` brings, if it
    /// answers this authorization.
    pub fn code(&self, params: &Params) -> (r: Result<String, Error>)
        ensures
            code_view(r) == callback_code(self@.state, params@),
    {
        let code = match params.get("code") {
            Some(code) => code,
            None => {
                return Err(Error::MissingOption("code"));
            },
        };
        let state = match params.get("state") {
            Some(state) => state,
            None => {
                return Err(Error::MissingOption("state"));
            },
        };
        if *state != self.state {
            Err(Error::InvalidState)
        } else {
            Ok(code.clone())
        }
    }
}

/// A callback whose state is not the authorization's own gives no code,
/// whatever else it carries.
pub proof fn lemma_foreign_state_gives_no_code(
    state: Seq<char>,
    params: Map<Seq<char>, Seq<char>>,
)
    requires
        params.contains_key("state"@),
        params["state"@] != state,
    ensures
        callback_code(state, params) is Err,
        params.contains_key("code"@) ==> callback_code(state, params) == Err::<
            Seq<char>,
            ErrorView,
        >(ErrorView::InvalidState),
{
}

/// A callback without `code` is refused for the missing `code`; one with
/// `code` and without `state` is refused for the missing `state`.
pub proof fn lemma_missing_parameter(state: Seq<char>, params: Map<Seq<char>, Seq<char>>)
    ensures
        !params.contains_key("code"@) ==> callback_code(state, params) == Err::<
            Seq<char>,
            ErrorView,
        >(ErrorView::MissingOption("code"@)),
        params.contains_key("code"@) && !params.contains_key("state"@) ==> callback_code(
            state,
            params,
        ) == Err::<Seq<char>, ErrorView>(ErrorView::MissingOption("state"@)),
{
}

} // verus!
