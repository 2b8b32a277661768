//! The interactive login as a state machine. Whoever drives it shows pages
//! and talks to the token endpoint; the machine is told what happened and
//! decides what the login has come to.

use vstd::prelude::*;
use crate::authorization::{callback_code, Authorization, AuthorizationView};
use crate::provider::{is_state_token, issued_by, token_request, Provider, ProviderView};
use crate::query::{decode_url, decoded, params_view, Params};
use crate::token::{GrantView, RequestError, Token, TokenRequest, TokenRequestView};
use crate::{Error, ErrorView};

verus! {

/// What the driver reports to the login.
pub enum Event {
    /// The provider gave this authorization for the attempt.
    Authorized(Authorization),
    /// The browser surface went to this address.
    Navigated(String),
    /// The user closed the browser surface.
    Closed,
    /// The token endpoint answered, or could not be asked.
    Answered(Result<Token, RequestError>),
}

pub enum EventView {
    Authorized(AuthorizationView),
    Navigated(Seq<char>),
    Closed,
    Answered(Result<Token, RequestError>),
}

impl View for Event {
    type V = EventView;

    open spec fn view(&self) -> EventView {
        match *self {
            Event::Authorized(authorization) => EventView::Authorized(authorization@),
            Event::Navigated(address) => EventView::Navigated(address@),
            Event::Closed => EventView::Closed,
            Event::Answered(reply) => EventView::Answered(reply),
        }
    }
}

/// Where a login stands.
pub enum Flow {
    /// Nothing has happened yet.
    Start,
    /// The user is at the provider's pages; the login waits for the browser
    /// to come back to the redirect URL.
    AwaitingRedirect { authorization: Authorization },
    /// The callback answered the authorization; its code is to be exchanged.
    StateValidated { request: TokenRequest },
    /// The callback carried another state than the authorization's.
    StateMismatch,
    /// The callback was no URL, or lacked a parameter.
    Malformed { error: Error },
    /// The token endpoint granted a token.
    TokenExchanged { token: Token },
    /// The token endpoint granted none.
    ExchangeFailed { reason: RequestError },
    /// The user closed the browser surface before it came back.
    Cancelled,
}

pub enum FlowView {
    Start,
    AwaitingRedirect { authorization: AuthorizationView },
    StateValidated { request: TokenRequestView },
    StateMismatch,
    Malformed { error: ErrorView },
    TokenExchanged { token: Token },
    ExchangeFailed { reason: RequestError },
    Cancelled,
}

impl View for Flow {
    type V = FlowView;

    open spec fn view(&self) -> FlowView {
        match *self {
            Flow::Start => FlowView::Start,
            Flow::AwaitingRedirect { authorization } => FlowView::AwaitingRedirect {
                authorization: authorization@,
            },
            Flow::StateValidated { request } => FlowView::StateValidated { request: request@ },
            Flow::StateMismatch => FlowView::StateMismatch,
            Flow::Malformed { error } => FlowView::Malformed { error: error@ },
            Flow::TokenExchanged { token } => FlowView::TokenExchanged { token },
            Flow::ExchangeFailed { reason } => FlowView::ExchangeFailed { reason },
            Flow::Cancelled => FlowView::Cancelled,
        }
    }
}

/// What the driver has to do for a login to go on.
#[derive(Clone, Copy, Debug, PartialEq, Eq, Structural)]
pub enum Action {
    /// Ask the provider for an authorization and report it.
    Authorize,
    /// Show the authorization's URL and report where the browser goes, or
    /// that it was closed.
    Display,
    /// Send the request to the token endpoint and report the answer.
    Exchange,
    /// Nothing: the login is over.
    Finish,
}

impl FlowView {
    /// What the driver has to do in this state.
    pub open spec fn action(self) -> Action {
        match self {
            FlowView::Start => Action::Authorize,
            FlowView::AwaitingRedirect { .. } => Action::Display,
            FlowView::StateValidated { .. } => Action::Exchange,
            _ => Action::Finish,
        }
    }

    /// What the login has come to, once it is over.
    pub open spec fn outcome(self) -> Option<Result<Token, ErrorView>> {
        match self {
            FlowView::StateMismatch => Some(Err(ErrorView::InvalidState)),
            FlowView::Malformed { error } => Some(Err(error)),
            FlowView::TokenExchanged { token } => Some(Ok(token)),
            FlowView::ExchangeFailed { reason } => Some(Err(ErrorView::OAuth2(reason))),
            FlowView::Cancelled => Some(Err(ErrorView::Interrupted)),
            _ => None,
        }
    }
}

/// The state that a login waiting with the state token `state` goes to on a
/// callback with the parameters `params`, or on one that could not be read:
/// only a callback that answers the authorization leads on to the exchange of
/// its code.
pub open spec fn callback(
    provider: ProviderView,
    state: Seq<char>,
    params: Result<Map<Seq<char>, Seq<char>>, ErrorView>,
) -> FlowView {
    match params {
        Err(error) => FlowView::Malformed { error },
        Ok(params) => match callback_code(state, params) {
            Ok(code) => FlowView::StateValidated {
                request: token_request(provider, GrantView::AuthorizationCode(code)),
            },
            Err(ErrorView::InvalidState) => FlowView::StateMismatch,
            Err(error) => FlowView::Malformed { error },
        },
    }
}

/// The state that a login of the client `provider` goes to from `flow` when
/// `event` is reported. An event that the state does not wait for changes
/// nothing.
pub open spec fn step(provider: ProviderView, flow: FlowView, event: EventView) -> FlowView {
    match flow {
        FlowView::Start => match event {
            EventView::Authorized(authorization) => FlowView::AwaitingRedirect { authorization },
            _ => flow,
        },
        FlowView::AwaitingRedirect { authorization } => match event {
            EventView::Navigated(address) => if provider.is_redirect(address) {
                callback(provider, authorization.state, decoded(address))
            } else {
                flow
            },
            EventView::Closed => FlowView::Cancelled,
            _ => flow,
        },
        FlowView::StateValidated { .. } => match event {
            EventView::Answered(Ok(token)) => FlowView::TokenExchanged { token },
            EventView::Answered(Err(reason)) => FlowView::ExchangeFailed { reason },
            _ => flow,
        },
        _ => flow,
    }
}

/// A token or an error as contracts speak of it.
pub open spec fn outcome_view(r: Option<Result<Token, Error>>) -> Option<Result<Token, ErrorView>> {
    match r {
        Some(Ok(token)) => Some(Ok(token)),
        Some(Err(error)) => Some(Err(error@)),
        None => None,
    }
}

impl Flow {
    /// What the driver has to do in this state.
    pub fn action(&self) -> (r: Action)
        ensures
            r == self@.action(),
    {
        match self {
            Flow::Start => Action::Authorize,
            Flow::AwaitingRedirect { .. } => Action::Display,
            Flow::StateValidated { .. } => Action::Exchange,
            _ => Action::Finish,
        }
    }
}

/// The interactive login of one client.
pub struct UI {
    provider: Provider,
}

impl View for UI {
    type V = ProviderView;

    closed spec fn view(&self) -> ProviderView {
        self.provider@
    }
}

impl UI {
    /// The login of the client `provider`.
    pub fn new(provider: Provider) -> (ui: UI)
        ensures
            ui@ == provider@,
    {
        UI { provider }
    }

    /// The client.
    pub fn provider(&self) -> (provider: &Provider)
        ensures
            provider@ == self@,
    {
        &self.provider
    }

    /// A login that has its authorization, drawn anew, and waits for the
    /// browser.
    pub fn start(&self) -> (flow: Flow)
        ensures
            flow@ matches FlowView::AwaitingRedirect { authorization } && is_state_token(
                authorization.state,
            ) && issued_by(self@, authorization),
    {
        self.step(Flow::Start, Event::Authorized(self.provider.authorization()))
    }

    /// The state that a login with the authorization `authorization` goes to
    /// on a callback with the parameters `params`, or on one that could not
    /// be read.
    pub fn callback(&self, authorization: &Authorization, params: Result<Params, Error>) -> (flow:
        Flow)
        ensures
            flow@ == callback(self@, authorization@.state, params_view(params)),
    {
        let params = match params {
            Ok(params) => params,
            Err(error) => {
                return Flow::Malformed { error };
            },
        };
        match authorization.code(&params) {
            Ok(code) => Flow::StateValidated { request: self.provider.token(code) },
            Err(Error::InvalidState) => Flow::StateMismatch,
            Err(error) => Flow::Malformed { error },
        }
    }

    /// The state that the login goes to from `flow` when `event` is reported.
    pub fn step(&self, flow: Flow, event: Event) -> (next: Flow)
        ensures
            next@ == step(self@, flow@, event@),
    {
        match flow {
            Flow::Start => match event {
                Event::Authorized(authorization) => Flow::AwaitingRedirect { authorization },
                _ => Flow::Start,
            },
            Flow::AwaitingRedirect { authorization } => match event {
                Event::Navigated(address) => if self.provider.is_redirect(address.as_str()) {
                    self.callback(&authorization, decode_url(address))
                } else {
                    Flow::AwaitingRedirect { authorization }
                },
                Event::Closed => Flow::Cancelled,
                _ => Flow::AwaitingRedirect { authorization },
            },
            Flow::StateValidated { request } => match event {
                Event::Answered(reply) => match reply {
                    Ok(token) => Flow::TokenExchanged { token },
                    Err(reason) => Flow::ExchangeFailed { reason },
                },
                _ => Flow::StateValidated { request },
            },
            other => other,
        }
    }

    /// What the login has come to: the token or the error, once it is over,
    /// and nothing before.
    pub fn token(&self, flow: Flow) -> (r: Option<Result<Token, Error>>)
        ensures
            outcome_view(r) == flow@.outcome(),
    {
        match flow {
            Flow::StateMismatch => Some(Err(Error::InvalidState)),
            Flow::Malformed { error } => Some(Err(error)),
            Flow::TokenExchanged { token } => Some(Ok(token)),
            Flow::ExchangeFailed { reason } => Some(Err(Error::OAuth2(reason))),
            Flow::Cancelled => Some(Err(Error::Interrupted)),
            _ => None,
        }
    }
}

/// The parameters that the callback `address` carries, where it is a URL.
pub open spec fn callback_params(address: Seq<char>) -> Map<Seq<char>, Seq<char>> {
    decoded(address)->Ok_0
}

/// A login leaves the wait for the browser towards the token endpoint only
/// on a callback: an address that begins with the redirect URL, is a URL, and
/// carries a code together with the state of the login's own authorization.
/// The request is then the one that hands in this code.
pub proof fn lemma_exchange_needs_own_state(
    provider: ProviderView,
    authorization: AuthorizationView,
    event: EventView,
)
    requires
        step(provider, FlowView::AwaitingRedirect { authorization }, event).action()
            == Action::Exchange,
    ensures
        event matches EventView::Navigated(address) && provider.is_redirect(address)
            && decoded(address) is Ok && callback_params(address).contains_key("code"@)
            && callback_params(address).contains_key("state"@) && callback_params(
            address,
        )["state"@] == authorization.state && step(
            provider,
            FlowView::AwaitingRedirect { authorization },
            event,
        ) == (FlowView::StateValidated {
            request: token_request(
                provider,
                GrantView::AuthorizationCode(callback_params(address)["code"@]),
            ),
        }),
{
}

/// A callback that carries another state than the authorization's never
/// leads to an exchange; where it carries a code too, the login ends with
/// `InvalidState`.
pub proof fn lemma_foreign_state_ends_login(
    provider: ProviderView,
    authorization: AuthorizationView,
    address: Seq<char>,
)
    requires
        provider.is_redirect(address),
        decoded(address) is Ok,
        callback_params(address).contains_key("state"@),
        callback_params(address)["state"@] != authorization.state,
    ensures
        ({
            let next = step(
                provider,
                FlowView::AwaitingRedirect { authorization },
                EventView::Navigated(address),
            );
            &&& next.action() == Action::Finish
            &&& next.outcome() is Some
            &&& next.outcome()->0 is Err
            &&& callback_params(address).contains_key("code"@) ==> next == FlowView::StateMismatch
                && next.outcome() == Some(Err::<Token, ErrorView>(ErrorView::InvalidState))
        }),
{
}

/// A callback without a code ends the login with the missing option `code`;
/// one with a code and without a state ends it with the missing option
/// `state`.
pub proof fn lemma_missing_parameter_ends_login(
    provider: ProviderView,
    authorization: AuthorizationView,
    address: Seq<char>,
)
    requires
        provider.is_redirect(address),
        decoded(address) is Ok,
    ensures
        ({
            let next = step(
                provider,
                FlowView::AwaitingRedirect { authorization },
                EventView::Navigated(address),
            );
            &&& !callback_params(address).contains_key("code"@) ==> next.outcome() == Some(
                Err::<Token, ErrorView>(ErrorView::MissingOption("code"@)),
            )
            &&& callback_params(address).contains_key("code"@) && !callback_params(
                address,
            ).contains_key("state"@) ==> next.outcome() == Some(
                Err::<Token, ErrorView>(ErrorView::MissingOption("state"@)),
            )
        }),
{
}

/// A login that is over stays as it is, whatever is reported; and one that is
/// not over has no outcome.
pub proof fn lemma_finished_is_final(provider: ProviderView, flow: FlowView, event: EventView)
    ensures
        flow.action() == Action::Finish ==> step(provider, flow, event) == flow,
        flow.action() == Action::Finish <==> flow.outcome() is Some,
{
}

/// The browser going anywhere but to the redirect URL leaves a waiting login
/// waiting; its being closed cancels the login.
pub proof fn lemma_waiting(
    provider: ProviderView,
    authorization: AuthorizationView,
    address: Seq<char>,
)
    ensures
        !provider.is_redirect(address) ==> step(
            provider,
            FlowView::AwaitingRedirect { authorization },
            EventView::Navigated(address),
        ) == (FlowView::AwaitingRedirect { authorization }),
        step(provider, FlowView::AwaitingRedirect { authorization }, EventView::Closed).outcome()
            == Some(Err::<Token, ErrorView>(ErrorView::Interrupted)),
{
}

/// The state of a login after the browser has gone to each of `addresses` in
/// turn.
pub open spec fn navigated(provider: ProviderView, flow: FlowView, addresses: Seq<Seq<char>>)
    -> FlowView
    decreases addresses.len(),
{
    if addresses.len() == 0 {
        flow
    } else {
        step(
            provider,
            navigated(provider, flow, addresses.drop_last()),
            EventView::Navigated(addresses.last()),
        )
    }
}

/// As long as the browser goes to no address that begins with the redirect
/// URL, the login waits as it did; if the browser is closed then, the login
/// ends with `Interrupted`, and no exchange is asked for.
pub proof fn lemma_wait_lasts_until_redirect(
    provider: ProviderView,
    authorization: AuthorizationView,
    addresses: Seq<Seq<char>>,
)
    requires
        forall|i: int| 0 <= i < addresses.len() ==> !provider.is_redirect(#[trigger] addresses[i]),
    ensures
        navigated(provider, FlowView::AwaitingRedirect { authorization }, addresses) == (
        FlowView::AwaitingRedirect { authorization }),
        step(
            provider,
            navigated(provider, FlowView::AwaitingRedirect { authorization }, addresses),
            EventView::Closed,
        ) == FlowView::Cancelled,
        FlowView::Cancelled.outcome() == Some(Err::<Token, ErrorView>(ErrorView::Interrupted)),
        FlowView::Cancelled.action() == Action::Finish,
    decreases addresses.len(),
{
    if addresses.len() > 0 {
        let front = addresses.drop_last();
        assert forall|i: int| 0 <= i < front.len() implies !provider.is_redirect(
            #[trigger] front[i],
        ) by {
            assert(front[i] == addresses[i]);
        }
        lemma_wait_lasts_until_redirect(provider, authorization, front);
        assert(!provider.is_redirect(addresses[addresses.len() - 1]));
    }
}

/// The first address that begins with the redirect URL ends the wait, and it
/// alone decides what the login goes to: the addresses before it play no
/// part.
pub proof fn lemma_first_redirect_decides(
    provider: ProviderView,
    authorization: AuthorizationView,
    addresses: Seq<Seq<char>>,
    first: int,
)
    requires
        0 <= first < addresses.len(),
        forall|i: int| 0 <= i < first ==> !provider.is_redirect(#[trigger] addresses[i]),
        provider.is_redirect(addresses[first]),
    ensures
        navigated(
            provider,
            FlowView::AwaitingRedirect { authorization },
            addresses.subrange(0, first + 1),
        ) == callback(provider, authorization.state, decoded(addresses[first])),
        callback(provider, authorization.state, decoded(addresses[first])).action()
            != Action::Display,
{
    let upto = addresses.subrange(0, first + 1);
    let before = upto.drop_last();
    assert forall|i: int| 0 <= i < before.len() implies !provider.is_redirect(
        #[trigger] before[i],
    ) by {
        assert(before[i] == addresses[i]);
    }
    lemma_wait_lasts_until_redirect(provider, authorization, before);
    assert(upto.last() == addresses[first]);
}

} // verus!
