use oauth2_eveonline::provider::{Kind, Provider, ProviderOptions};
use oauth2_eveonline::query::decode_url;
use oauth2_eveonline::token::Grant;
use oauth2_eveonline::web::ParsedUrl;
use oauth2_eveonline::Error;

fn options() -> ProviderOptions {
    ProviderOptions::new()
        .client_id("abc")
        .client_secret("xyz")
        .redirect_url("app://cb")
        .scope("publicData")
        .provider(Provider::eve_online().unwrap())
}

fn state_of(url: &str) -> String {
    decode_url(url.to_string()).unwrap().get("state").unwrap().clone()
}

#[test]
fn eve_online_has_its_name_and_endpoints() {
    let kind = Provider::eve_online().unwrap();
    assert_eq!(kind.name(), "EveOnline");
    assert_eq!(kind.auth_url().as_str(), "https://login.eveonline.com/oauth/authorize");
    assert_eq!(kind.token_url().as_str(), "https://login.eveonline.com/oauth/token");
}

#[test]
fn kind_clone_keeps_everything() {
    let kind = Provider::eve_online().unwrap().clone();
    assert_eq!(kind.name(), "EveOnline");
    assert_eq!(kind.auth_url().as_str(), "https://login.eveonline.com/oauth/authorize");
    assert_eq!(kind.token_url().as_str(), "https://login.eveonline.com/oauth/token");
}

#[test]
fn build_succeeds_with_every_option() {
    let provider = options().build().unwrap();
    assert_eq!(provider.redirect_url(), "app://cb/");
    assert_eq!(provider.name(), "EveOnline");
}

#[test]
fn build_needs_no_scope() {
    let provider = ProviderOptions::new()
        .client_id("abc")
        .client_secret("xyz")
        .redirect_url("app://cb")
        .provider(Provider::eve_online().unwrap())
        .build();
    assert!(provider.is_ok());
}

#[test]
fn build_without_client_id_fails() {
    let r = ProviderOptions::new()
        .client_secret("xyz")
        .redirect_url("app://cb")
        .provider(Provider::eve_online().unwrap())
        .build();
    assert!(matches!(r, Err(Error::MissingOption("client_id"))));
}

#[test]
fn build_without_client_secret_fails() {
    let r = ProviderOptions::new()
        .client_id("abc")
        .redirect_url("app://cb")
        .provider(Provider::eve_online().unwrap())
        .build();
    assert!(matches!(r, Err(Error::MissingOption("client_secret"))));
}

#[test]
fn build_without_redirect_url_fails() {
    let r = ProviderOptions::new()
        .client_id("abc")
        .client_secret("xyz")
        .provider(Provider::eve_online().unwrap())
        .build();
    assert!(matches!(r, Err(Error::MissingOption("redirect_url"))));
}

#[test]
fn build_without_provider_fails() {
    let r = ProviderOptions::new()
        .client_id("abc")
        .client_secret("xyz")
        .redirect_url("app://cb")
        .build();
    assert!(matches!(r, Err(Error::MissingOption("provider"))));
}

#[test]
fn build_with_a_redirect_url_that_is_none_fails() {
    let r = ProviderOptions::new()
        .client_id("abc")
        .client_secret("xyz")
        .redirect_url("no url at all")
        .provider(Provider::eve_online().unwrap())
        .build();
    assert!(matches!(r, Err(Error::InvalidUrl(url::ParseError::RelativeUrlWithoutBase))));
}

#[test]
fn build_names_the_first_option_that_is_missing() {
    let r = ProviderOptions::new().build();
    assert!(matches!(r, Err(Error::MissingOption("client_id"))));
    let r = ProviderOptions::new().client_id("abc").build();
    assert!(matches!(r, Err(Error::MissingOption("client_secret"))));
    let r = ProviderOptions::new().client_id("abc").client_secret("xyz").build();
    assert!(matches!(r, Err(Error::MissingOption("redirect_url"))));
}

#[test]
fn build_looks_at_the_redirect_url_before_the_provider() {
    let r = ProviderOptions::new()
        .client_id("abc")
        .client_secret("xyz")
        .redirect_url("://")
        .build();
    assert!(matches!(r, Err(Error::InvalidUrl(_))));
}

#[test]
fn a_later_option_replaces_an_earlier_one() {
    let provider = options().redirect_url("app://other").client_id("def").build().unwrap();
    assert_eq!(provider.redirect_url(), "app://other/");
    assert_eq!(provider.token("c".to_string()).client_id, "def");
}

#[test]
fn redirect_url_is_given_in_its_normal_form() {
    let provider = options().redirect_url("HTTPS://Example.COM").build().unwrap();
    assert_eq!(provider.redirect_url(), "https://example.com/");
}

#[test]
fn from_parse_error_is_invalid_url() {
    let e = Error::from(url::ParseError::EmptyHost);
    assert!(matches!(e, Error::InvalidUrl(url::ParseError::EmptyHost)));
}

#[test]
fn authorize_writes_the_authorization_url() {
    let provider = options().build().unwrap();
    let authorization = provider.authorize("STATE".to_string());
    assert_eq!(
        authorization.url(),
        "https://login.eveonline.com/oauth/authorize?response_type=code&client_id=abc&redirect_uri=app%3A%2F%2Fcb%2F&scope=publicData&state=STATE"
    );
}

#[test]
fn authorize_joins_the_scopes_in_order() {
    let provider = options().scope("esi-mail.read_mail.v1").build().unwrap();
    let authorization = provider.authorize("s".to_string());
    assert_eq!(
        authorization.url(),
        "https://login.eveonline.com/oauth/authorize?response_type=code&client_id=abc&redirect_uri=app%3A%2F%2Fcb%2F&scope=publicData+esi-mail.read_mail.v1&state=s"
    );
}

#[test]
fn authorize_without_scopes_leaves_the_scope_out() {
    let provider = ProviderOptions::new()
        .client_id("abc")
        .client_secret("xyz")
        .redirect_url("app://cb")
        .provider(Provider::eve_online().unwrap())
        .build()
        .unwrap();
    assert_eq!(
        provider.authorize("s".to_string()).url(),
        "https://login.eveonline.com/oauth/authorize?response_type=code&client_id=abc&redirect_uri=app%3A%2F%2Fcb%2F&state=s"
    );
}

#[test]
fn authorize_encodes_what_a_query_cannot_hold() {
    let provider = options().client_id("a b&c").build().unwrap();
    let authorization = provider.authorize("x=y".to_string());
    assert_eq!(
        authorization.url(),
        "https://login.eveonline.com/oauth/authorize?response_type=code&client_id=a+b%26c&redirect_uri=app%3A%2F%2Fcb%2F&scope=publicData&state=x%3Dy"
    );
}

#[test]
fn authorize_adds_to_the_query_of_the_endpoint() {
    let kind = Kind::OAuth2 {
        name: "Test",
        auth_url: ParsedUrl::parse("https://example.com/auth?tenant=1").unwrap(),
        token_url: ParsedUrl::parse("https://example.com/token").unwrap(),
    };
    let provider = options().provider(kind).build().unwrap();
    assert_eq!(provider.name(), "Test");
    assert_eq!(
        provider.authorize("s".to_string()).url(),
        "https://example.com/auth?tenant=1&response_type=code&client_id=abc&redirect_uri=app%3A%2F%2Fcb%2F&scope=publicData&state=s"
    );
}

#[test]
fn authorization_starts_at_the_endpoint_and_names_the_client() {
    let provider = options().build().unwrap();
    let url = provider.authorization().url();
    assert!(url.starts_with("https://login.eveonline.com/oauth/authorize?"));
    assert!(url.contains("response_type=code"));
    assert!(url.contains("client_id=abc&redirect_uri=app%3A%2F%2Fcb%2F&scope=publicData"));
    assert!(url.contains("&state="));
}

#[test]
fn authorization_state_is_a_token_of_128_bits() {
    let provider = options().build().unwrap();
    let url = provider.authorization().url();
    let state = state_of(&url);
    assert_eq!(state.len(), 22);
    assert!(state.chars().all(|c| c.is_ascii_alphanumeric() || c == '-' || c == '_'));
    assert!(url.ends_with(&format!("&state={}", state)));
}

#[test]
fn authorization_twice_gives_two_states() {
    let provider = options().build().unwrap();
    let first = provider.authorization().url();
    let second = provider.authorization().url();
    let first_state = state_of(&first);
    let second_state = state_of(&second);
    assert_ne!(first_state, second_state);
    assert_ne!(first, second);
    let first_rest = first.strip_suffix(first_state.as_str()).unwrap();
    let second_rest = second.strip_suffix(second_state.as_str()).unwrap();
    assert_eq!(first_rest, second_rest);
}

#[test]
fn authorization_url_gives_back_what_it_was_made_of() {
    let provider = options().scope("second scope").client_id("id&with=signs").build().unwrap();
    let url = provider.authorize("the/state?".to_string()).url();
    let params = decode_url(url).unwrap();
    assert_eq!(params.len(), 5);
    assert_eq!(params.get("response_type"), Some(&"code".to_string()));
    assert_eq!(params.get("client_id"), Some(&"id&with=signs".to_string()));
    assert_eq!(params.get("redirect_uri"), Some(&provider.redirect_url()));
    assert_eq!(params.get("redirect_uri"), Some(&"app://cb/".to_string()));
    assert_eq!(params.get("scope"), Some(&"publicData second scope".to_string()));
    assert_eq!(params.get("state"), Some(&"the/state?".to_string()));
}

#[test]
fn token_asks_the_token_endpoint_with_the_code() {
    let provider = options().build().unwrap();
    let request = provider.token("XYZ".to_string());
    assert_eq!(request.token_url, "https://login.eveonline.com/oauth/token");
    assert_eq!(request.client_id, "abc");
    assert_eq!(request.client_secret, "xyz");
    assert_eq!(request.redirect_url, "app://cb/");
    assert_eq!(request.grant, Grant::AuthorizationCode("XYZ".to_string()));
}

#[test]
fn access_token_asks_the_token_endpoint_with_the_refresh_token() {
    let provider = options().build().unwrap();
    let request = provider.access_token("refresh-me");
    assert_eq!(request.token_url, "https://login.eveonline.com/oauth/token");
    assert_eq!(request.client_id, "abc");
    assert_eq!(request.client_secret, "xyz");
    assert_eq!(request.redirect_url, "app://cb/");
    assert_eq!(request.grant, Grant::RefreshToken("refresh-me".to_string()));
}

#[test]
fn provider_clone_is_the_same_client() {
    let provider = options().scope("other").build().unwrap();
    let copy = provider.clone();
    assert_eq!(copy.redirect_url(), provider.redirect_url());
    assert_eq!(copy.name(), provider.name());
    assert_eq!(copy.token("c".to_string()), provider.token("c".to_string()));
    assert_eq!(copy.authorize("s".to_string()).url(), provider.authorize("s".to_string()).url());
}

#[test]
fn is_redirect_tells_a_callback_from_other_addresses() {
    let provider = options().build().unwrap();
    assert_eq!(provider.redirect_url(), "app://cb/");
    assert!(provider.is_redirect("app://cb/?code=XYZ&state=abc"));
    assert!(provider.is_redirect("app://cb/"));
    assert!(provider.is_redirect(&provider.redirect_url()));
    assert!(!provider.is_redirect("app://cb?code=XYZ&state=abc"));
    assert!(!provider.is_redirect("app://cb"));
    assert!(!provider.is_redirect("APP://cb/?code=XYZ&state=abc"));
    assert!(!provider.is_redirect("app://cbx/?code=XYZ&state=abc"));
    assert!(!provider.is_redirect("https://login.eveonline.com/account/logon"));
}
