use oauth2_eveonline::web::ParsedUrl;

#[test]
fn parse_keeps_a_plain_url() {
    let url = ParsedUrl::parse("https://login.eveonline.com/oauth/authorize").unwrap();
    assert_eq!(url.as_str(), "https://login.eveonline.com/oauth/authorize");
    assert_eq!(url.text(), "https://login.eveonline.com/oauth/authorize");
}

#[test]
fn parse_writes_the_url_in_its_normal_form() {
    let url = ParsedUrl::parse("HTTP://EXAMPLE.com").unwrap();
    assert_eq!(url.as_str(), "http://example.com/");
}

#[test]
fn parse_takes_a_custom_scheme() {
    let url = ParsedUrl::parse("eveauth-app://callback").unwrap();
    assert_eq!(url.as_str(), "eveauth-app://callback/");
}

#[test]
fn parse_refuses_a_relative_text() {
    let r = ParsedUrl::parse("not a url");
    assert!(matches!(r, Err(url::ParseError::RelativeUrlWithoutBase)));
}

#[test]
fn parse_refuses_an_empty_host() {
    let r = ParsedUrl::parse("https://");
    assert!(matches!(r, Err(url::ParseError::EmptyHost)));
}

#[test]
fn parse_refuses_a_bad_port() {
    let r = ParsedUrl::parse("https://example.com:port/");
    assert!(matches!(r, Err(url::ParseError::InvalidPort)));
}

#[test]
fn clone_keeps_the_text() {
    let url = ParsedUrl::parse("HTTP://EXAMPLE.com/a?b=c").unwrap();
    let copy = url.clone();
    assert_eq!(copy.as_str(), "http://example.com/a?b=c");
    assert_eq!(copy.query_pairs(), url.query_pairs());
}

#[test]
fn prefix_is_told_from_the_text() {
    let url = ParsedUrl::parse("app://cb").unwrap();
    assert!(url.is_prefix_of("app://cb/"));
    assert!(url.is_prefix_of("app://cb/?code=XYZ&state=abc"));
    assert!(!url.is_prefix_of("app://cb"));
    assert!(!url.is_prefix_of("app://cb?code=XYZ&state=abc"));
    assert!(!url.is_prefix_of("https://login.eveonline.com/?next=app://cb/"));
    assert!(!url.is_prefix_of(""));
}

#[test]
fn prefix_is_told_from_the_address_as_it_stands() {
    let url = ParsedUrl::parse("app://cb").unwrap();
    assert!(!url.is_prefix_of("APP://cb/below?code=XYZ"));
    assert!(!url.is_prefix_of("app://cbx/?code=XYZ&state=abc"));
    let url = ParsedUrl::parse("https://example.com").unwrap();
    assert!(url.is_prefix_of("https://example.com/?code=XYZ"));
    assert!(url.is_prefix_of("https://example.com/cb?code=XYZ"));
    assert!(!url.is_prefix_of("https://example.com?code=XYZ"));
    assert!(!url.is_prefix_of("HTTPS://Example.COM/cb?code=XYZ"));
    assert!(!url.is_prefix_of("https://example.community/?code=XYZ"));
    assert!(!url.is_prefix_of("https://example.com.evil.net/?code=XYZ"));
    assert!(!url.is_prefix_of("http://example.com/?code=XYZ"));
}

#[test]
fn query_pairs_come_decoded_and_in_order() {
    let url = ParsedUrl::parse("app://cb?code=X%20Y&state=a+b&code=Z&empty=&bare").unwrap();
    let pairs = url.query_pairs();
    let expected: Vec<(String, String)> = vec![
        ("code".to_string(), "X Y".to_string()),
        ("state".to_string(), "a b".to_string()),
        ("code".to_string(), "Z".to_string()),
        ("empty".to_string(), "".to_string()),
        ("bare".to_string(), "".to_string()),
    ];
    assert_eq!(pairs, expected);
}

#[test]
fn query_pairs_of_a_url_without_query_are_none() {
    let url = ParsedUrl::parse("app://cb").unwrap();
    assert!(url.query_pairs().is_empty());
}

#[test]
fn query_pairs_stop_at_the_fragment() {
    let url = ParsedUrl::parse("https://example.com/cb?code=1#state=2").unwrap();
    let expected: Vec<(String, String)> = vec![("code".to_string(), "1".to_string())];
    assert_eq!(url.query_pairs(), expected);
}
