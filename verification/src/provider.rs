//! The provider: who the client is, where the provider's endpoints are, and
//! what is asked of them.

use vstd::prelude::*;
use oauth2::basic::BasicClient;
use oauth2::prelude::{NewType, SecretNewType};
use oauth2::{AuthUrl, ClientId, CsrfToken, RedirectUrl, Scope};
use crate::authorization::{Authorization, AuthorizationView};
use crate::token::{Grant, GrantView, TokenRequest, TokenRequestView};
use crate::web::{url_parse, ParsedUrl};
use crate::{Error, ErrorView};

verus! {

/// The authorization URL that `oauth2::Client::authorize_url` writes for a
/// client with the identifier `client_id`, the authorization endpoint
/// `auth_url`, the redirect URL `redirect_url` and the scopes `scopes`, in
/// this order, where the state is `state`. The two URLs are given by their
/// serializations.
pub uninterp spec fn authorize_url_text(
    client_id: Seq<char>,
    auth_url: Seq<char>,
    redirect_url: Seq<char>,
    scopes: Seq<Seq<char>>,
    state: Seq<char>,
) -> Seq<char>;

/// Calls `oauth2::Client::authorize_url` on a client made of the arguments
/// (`Client::new`, `set_redirect_url`, and `add_scope` for each scope in
/// turn), with `state` as the token that the state function gives, and hands
/// back the URL's serialization. The contract only gives that text its name.
/// The two URLs are read again from the texts they were parsed from, which
/// the invariant of `ParsedUrl` says can be parsed.
#[verifier::external_body]
fn authorize_url(
    client_id: &String,
    auth_url: &ParsedUrl,
    redirect_url: &ParsedUrl,
    scopes: &Vec<String>,
    state: &String,
) -> (url: String)
    ensures
        url@ == authorize_url_text(
            client_id@,
            auth_url@,
            redirect_url@,
            scopes.deep_view(),
            state@,
        ),
{
    let auth = AuthUrl::new(url::Url::parse(&auth_url.source).unwrap());
    let redirect = RedirectUrl::new(url::Url::parse(&redirect_url.source).unwrap());
    let mut client = BasicClient::new(ClientId::new(client_id.clone()), None, auth, None)
        .set_redirect_url(redirect);
    for scope in scopes {
        client = client.add_scope(Scope::new(scope.clone()));
    }
    let token = CsrfToken::new(state.clone());
    client.authorize_url(move || token).0.into_string()
}

/// Whether `c` is a character of the URL-safe base64 alphabet.
pub open spec fn is_token_char(c: char) -> bool {
    ('A' <= c && c <= 'Z') || ('a' <= c && c <= 'z') || ('0' <= c && c <= '9') || c == '-' || c
        == '_'
}

/// Whether `state` has the form of a state token: 128 bits in URL-safe base64
/// without padding, which are 22 characters.
pub open spec fn is_state_token(state: Seq<char>) -> bool {
    state.len() == 22 && forall|i: int| 0 <= i < state.len() ==> is_token_char(#[trigger] state[i])
}

/// Calls `oauth2::CsrfToken::new_random` and hands back the token's secret.
/// The token is the URL-safe base64 encoding, without padding, of 16 bytes
/// from the thread's random number generator: the contract states the form
/// that every such token has, and nothing of its value.
#[verifier::external_body]
fn random_state() -> (state: String)
    ensures
        is_state_token(state@),
{
    CsrfToken::new_random().secret().clone()
}

/// A kind of provider, with what is fixed for it: its name and its endpoints.
pub enum Kind {
    OAuth2 { name: &'static str, auth_url: ParsedUrl, token_url: ParsedUrl },
}

pub enum KindView {
    OAuth2 { name: Seq<char>, auth_url: Seq<char>, token_url: Seq<char> },
}

impl View for Kind {
    type V = KindView;

    open spec fn view(&self) -> KindView {
        match *self {
            Kind::OAuth2 { name, auth_url, token_url } => KindView::OAuth2 {
                name: name@,
                auth_url: auth_url@,
                token_url: token_url@,
            },
        }
    }
}

impl KindView {
    pub open spec fn name(self) -> Seq<char> {
        match self {
            KindView::OAuth2 { name, .. } => name,
        }
    }

    pub open spec fn auth_url(self) -> Seq<char> {
        match self {
            KindView::OAuth2 { auth_url, .. } => auth_url,
        }
    }

    pub open spec fn token_url(self) -> Seq<char> {
        match self {
            KindView::OAuth2 { token_url, .. } => token_url,
        }
    }
}

impl Kind {
    /// The authorization endpoint.
    pub fn auth_url(&self) -> (url: ParsedUrl)
        ensures
            url@ == self@.auth_url(),
    {
        match self {
            Kind::OAuth2 { auth_url, .. } => auth_url.clone(),
        }
    }

    /// The token endpoint.
    pub fn token_url(&self) -> (url: ParsedUrl)
        ensures
            url@ == self@.token_url(),
    {
        match self {
            Kind::OAuth2 { token_url, .. } => token_url.clone(),
        }
    }

    /// The provider's name.
    pub fn name(&self) -> (name: String)
        ensures
            name@ == self@.name(),
    {
        match self {
            Kind::OAuth2 { name, .. } => (*name).to_owned(),
        }
    }
}

impl Clone for Kind {
    fn clone(&self) -> (r: Kind)
        ensures
            r@ == self@,
    {
        match self {
            Kind::OAuth2 { name, auth_url, token_url } => Kind::OAuth2 {
                name: *name,
                auth_url: auth_url.clone(),
                token_url: token_url.clone(),
            },
        }
    }
}

/// A copy of a list of strings.
fn clone_strings(list: &Vec<String>) -> (r: Vec<String>)
    ensures
        r.deep_view() == list.deep_view(),
{
    let mut copy: Vec<String> = Vec::new();
    let mut i: usize = 0;
    while i < list.len()
        invariant
            i <= list.len(),
            copy.deep_view() =~= list.deep_view().subrange(0, i as int),
        decreases list.len() - i,
    {
        let ghost before = copy.deep_view();
        copy.push(list[i].clone());
        assert(copy.deep_view() =~= before.push(list[i as int]@));
        assert(list.deep_view()[i as int] == list[i as int]@);
        i += 1;
    }
    assert(list.deep_view().subrange(0, list.len() as int) =~= list.deep_view());
    copy
}

/// A client of one provider: its credentials, the URL the provider sends the
/// user back to, the scopes it asks for, and the provider's kind.
pub struct Provider {
    client_id: String,
    client_secret: String,
    redirect_url: ParsedUrl,
    scopes: Vec<String>,
    provider: Kind,
}

pub struct ProviderView {
    pub client_id: Seq<char>,
    pub client_secret: Seq<char>,
    pub redirect_url: Seq<char>,
    pub scopes: Seq<Seq<char>>,
    pub kind: KindView,
}

impl ProviderView {
    /// Whether `address` begins with the redirect URL.
    pub open spec fn is_redirect(self, address: Seq<char>) -> bool {
        self.redirect_url.is_prefix_of(address)
    }
}

impl View for Provider {
    type V = ProviderView;

    closed spec fn view(&self) -> ProviderView {
        ProviderView {
            client_id: self.client_id@,
            client_secret: self.client_secret@,
            redirect_url: self.redirect_url@,
            scopes: self.scopes.deep_view(),
            kind: self.provider@,
        }
    }
}

/// The URL at which a user authorizes the client `provider`, for a login
/// attempt with the state `state`.
pub open spec fn authorization_url(provider: ProviderView, state: Seq<char>) -> Seq<char> {
    authorize_url_text(
        provider.client_id,
        provider.kind.auth_url(),
        provider.redirect_url,
        provider.scopes,
        state,
    )
}

/// Whether `authorization` is one that the client `provider` gives: its URL is
/// the client's authorization URL for its state.
pub open spec fn issued_by(provider: ProviderView, authorization: AuthorizationView) -> bool {
    authorization.url == authorization_url(provider, authorization.state)
}

/// Two authorizations of one client differ in their URLs only through their
/// states: with one state they are one authorization.
pub proof fn lemma_url_follows_state(
    provider: ProviderView,
    first: AuthorizationView,
    second: AuthorizationView,
)
    requires
        issued_by(provider, first),
        issued_by(provider, second),
    ensures
        first.state == second.state ==> first == second,
        first.url != second.url ==> first.state != second.state,
{
}

/// The request that the client `provider` makes to hand in `grant`.
pub open spec fn token_request(provider: ProviderView, grant: GrantView) -> TokenRequestView {
    TokenRequestView {
        token_url: provider.kind.token_url(),
        client_id: provider.client_id,
        client_secret: provider.client_secret,
        redirect_url: provider.redirect_url,
        grant,
    }
}

/// The kind of the EVE Online single sign-on, given what the parser makes of
/// its two endpoints.
pub open spec fn eve_online_kind() -> Result<KindView, ErrorView> {
    match url_parse("https://login.eveonline.com/oauth/authorize"@) {
        Err(e) => Err(ErrorView::InvalidUrl(e)),
        Ok(auth_url) => match url_parse("https://login.eveonline.com/oauth/token"@) {
            Err(e) => Err(ErrorView::InvalidUrl(e)),
            Ok(token_url) => Ok(KindView::OAuth2 { name: "EveOnline"@, auth_url, token_url }),
        },
    }
}

/// A kind or an error as contracts speak of it.
pub open spec fn kind_view(r: Result<Kind, Error>) -> Result<KindView, ErrorView> {
    match r {
        Ok(kind) => Ok(kind@),
        Err(error) => Err(error@),
    }
}

impl Provider {
    /// A client with these credentials, redirect URL, scopes and kind.
    pub fn new(
        client_id: String,
        client_secret: String,
        redirect_url: ParsedUrl,
        scopes: Vec<String>,
        provider: Kind,
    ) -> (r: Provider)
        ensures
            r@ == (ProviderView {
                client_id: client_id@,
                client_secret: client_secret@,
                redirect_url: redirect_url@,
                scopes: scopes.deep_view(),
                kind: provider@,
            }),
    {
        Provider { client_id, client_secret, redirect_url, scopes, provider }
    }

    /// The authorization for a login attempt with the state `state`.
    pub fn authorize(&self, state: String) -> (a: Authorization)
        ensures
            a@.state == state@,
            issued_by(self@, a@),
    {
        let url = match &self.provider {
            Kind::OAuth2 { auth_url, .. } => authorize_url(
                &self.client_id,
                auth_url,
                &self.redirect_url,
                &self.scopes,
                &state,
            ),
        };
        Authorization::new(state, url)
    }

    /// The authorization for a new login attempt, with a state token that is
    /// drawn at random for it.
    pub fn authorization(&self) -> (a: Authorization)
        ensures
            is_state_token(a@.state),
            issued_by(self@, a@),
    {
        self.authorize(random_state())
    }

    /// The request that exchanges the authorization code `code` for a token.
    pub fn token(&self, code: String) -> (request: TokenRequest)
        ensures
            request@ == token_request(self@, GrantView::AuthorizationCode(code@)),
    {
        self.request(Grant::AuthorizationCode(code))
    }

    /// The request that exchanges `refresh_token` for a new access token.
    pub fn access_token(&self, refresh_token: &str) -> (request: TokenRequest)
        ensures
            request@ == token_request(self@, GrantView::RefreshToken(refresh_token@)),
    {
        self.request(Grant::RefreshToken(refresh_token.to_owned()))
    }

    /// The request to the token endpoint that hands in `grant`.
    fn request(&self, grant: Grant) -> (request: TokenRequest)
        ensures
            request@ == token_request(self@, grant@),
    {
        let token_url = match &self.provider {
            Kind::OAuth2 { token_url, .. } => token_url.text(),
        };
        TokenRequest {
            token_url,
            client_id: self.client_id.clone(),
            client_secret: self.client_secret.clone(),
            redirect_url: self.redirect_url.text(),
            grant,
        }
    }

    /// The kind of the EVE Online single sign-on. Its two endpoints are
    /// parsed here; should the parser refuse one, the error is `InvalidUrl`.
    pub fn eve_online() -> (r: Result<Kind, Error>)
        ensures
            kind_view(r) == eve_online_kind(),
    {
        let auth_url = match ParsedUrl::parse("https://login.eveonline.com/oauth/authorize") {
            Ok(url) => url,
            Err(e) => {
                return Err(Error::InvalidUrl(e));
            },
        };
        let token_url = match ParsedUrl::parse("https://login.eveonline.com/oauth/token") {
            Ok(url) => url,
            Err(e) => {
                return Err(Error::InvalidUrl(e));
            },
        };
        Ok(Kind::OAuth2 { name: "EveOnline", auth_url, token_url })
    }

    /// The URL that the provider sends the user back to.
    pub fn redirect_url(&self) -> (url: String)
        ensures
            url@ == self@.redirect_url,
    {
        self.redirect_url.text()
    }

    /// The provider's name.
    pub fn name(&self) -> (name: String)
        ensures
            name@ == self@.kind.name(),
    {
        self.provider.name()
    }

    /// Whether `address` begins with the redirect URL: whether a browser that
    /// went there has come back from the provider.
    pub fn is_redirect(&self, address: &str) -> (r: bool)
        ensures
            r == self@.is_redirect(address@),
    {
        self.redirect_url.is_prefix_of(address)
    }
}

impl Clone for Provider {
    fn clone(&self) -> (r: Provider)
        ensures
            r@ == self@,
    {
        Provider {
            client_id: self.client_id.clone(),
            client_secret: self.client_secret.clone(),
            redirect_url: self.redirect_url.clone(),
            scopes: clone_strings(&self.scopes),
            provider: self.provider.clone(),
        }
    }
}

/// A configuration in the making: what has been given so far.
pub struct ProviderOptions {
    id: Option<String>,
    secret: Option<String>,
    redirect_url: Option<String>,
    scopes: Vec<String>,
    provider: Option<Kind>,
}

pub struct ProviderOptionsView {
    pub id: Option<Seq<char>>,
    pub secret: Option<Seq<char>>,
    pub redirect_url: Option<Seq<char>>,
    pub scopes: Seq<Seq<char>>,
    pub provider: Option<KindView>,
}

impl View for ProviderOptions {
    type V = ProviderOptionsView;

    closed spec fn view(&self) -> ProviderOptionsView {
        ProviderOptionsView {
            id: self.id.deep_view(),
            secret: self.secret.deep_view(),
            redirect_url: self.redirect_url.deep_view(),
            scopes: self.scopes.deep_view(),
            provider: match self.provider {
                Some(kind) => Some(kind@),
                None => None,
            },
        }
    }
}

/// What building comes to. The options are looked at in this order: the
/// client's identifier, its secret, the redirect URL, which must also be a
/// URL, and the provider's kind; the first that is wanting decides the error.
pub open spec fn build_outcome(options: ProviderOptionsView) -> Result<ProviderView, ErrorView> {
    if options.id is None {
        Err(ErrorView::MissingOption("client_id"@))
    } else if options.secret is None {
        Err(ErrorView::MissingOption("client_secret"@))
    } else if options.redirect_url is None {
        Err(ErrorView::MissingOption("redirect_url"@))
    } else {
        match url_parse(options.redirect_url->0) {
            Err(e) => Err(ErrorView::InvalidUrl(e)),
            Ok(redirect_url) => if options.provider is None {
                Err(ErrorView::MissingOption("provider"@))
            } else {
                Ok(
                    ProviderView {
                        client_id: options.id->0,
                        client_secret: options.secret->0,
                        redirect_url,
                        scopes: options.scopes,
                        kind: options.provider->0,
                    },
                )
            },
        }
    }
}

/// A provider or an error as contracts speak of it.
pub open spec fn provider_view(r: Result<Provider, Error>) -> Result<ProviderView, ErrorView> {
    match r {
        Ok(provider) => Ok(provider@),
        Err(error) => Err(error@),
    }
}

/// Building succeeds exactly if the client's identifier, its secret, the
/// redirect URL and the provider's kind are all given and the redirect URL is
/// a URL.
pub proof fn lemma_build_succeeds_iff_complete(options: ProviderOptionsView)
    ensures
        build_outcome(options) is Ok <==> options.id is Some && options.secret is Some
            && options.redirect_url is Some && options.provider is Some && url_parse(
            options.redirect_url->0,
        ) is Ok,
{
}

impl ProviderOptions {
    /// Nothing given yet.
    pub fn new() -> (r: ProviderOptions)
        ensures
            r@ == (ProviderOptionsView {
                id: None,
                secret: None,
                redirect_url: None,
                scopes: Seq::empty(),
                provider: None,
            }),
    {
        let scopes: Vec<String> = Vec::new();
        assert(scopes.deep_view() =~= Seq::<Seq<char>>::empty());
        ProviderOptions { id: None, secret: None, redirect_url: None, scopes, provider: None }
    }

    /// These options with `value` as the client's identifier.
    pub fn client_id(self, value: &str) -> (r: ProviderOptions)
        ensures
            r@ == (ProviderOptionsView { id: Some(value@), ..self@ }),
    {
        let mut options = self;
        options.id = Some(value.to_owned());
        options
    }

    /// These options with `value` as the client's secret.
    pub fn client_secret(self, value: &str) -> (r: ProviderOptions)
        ensures
            r@ == (ProviderOptionsView { secret: Some(value@), ..self@ }),
    {
        let mut options = self;
        options.secret = Some(value.to_owned());
        options
    }

    /// These options with `value` as the redirect URL. Whether it is a URL is
    /// found out when the provider is built.
    pub fn redirect_url(self, value: &str) -> (r: ProviderOptions)
        ensures
            r@ == (ProviderOptionsView { redirect_url: Some(value@), ..self@ }),
    {
        let mut options = self;
        options.redirect_url = Some(value.to_owned());
        options
    }

    /// These options with `scope` after the scopes given before.
    pub fn scope(self, scope: &str) -> (r: ProviderOptions)
        ensures
            r@ == (ProviderOptionsView { scopes: self@.scopes.push(scope@), ..self@ }),
    {
        let mut options = self;
        let ghost before = options.scopes.deep_view();
        options.scopes.push(scope.to_owned());
        assert(options.scopes.deep_view() =~= before.push(scope@));
        options
    }

    /// These options with `provider` as the provider's kind.
    pub fn provider(self, provider: Kind) -> (r: ProviderOptions)
        ensures
            r@ == (ProviderOptionsView { provider: Some(provider@), ..self@ }),
    {
        let mut options = self;
        options.provider = Some(provider);
        options
    }

    /// The provider that these options describe, or what is wanting.
    pub fn build(self) -> (r: Result<Provider, Error>)
        ensures
            provider_view(r) == build_outcome(self@),
    {
        let client_id = match self.id {
            Some(id) => id,
            None => {
                return Err(Error::MissingOption("client_id"));
            },
        };
        let client_secret = match self.secret {
            Some(secret) => secret,
            None => {
                return Err(Error::MissingOption("client_secret"));
            },
        };
        let redirect_url = match self.redirect_url {
            Some(text) => match ParsedUrl::parse(text.as_str()) {
                Ok(url) => url,
                Err(e) => {
                    return Err(Error::from(e));
                },
            },
            None => {
                return Err(Error::MissingOption("redirect_url"));
            },
        };
        let provider = match self.provider {
            Some(kind) => kind,
            None => {
                return Err(Error::MissingOption("provider"));
            },
        };
        Ok(Provider::new(client_id, client_secret, redirect_url, self.scopes, provider))
    }
}

} // verus!
