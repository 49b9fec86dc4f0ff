use snoo::AuthorizationDuration;
use snoo::AuthorizationResponseType;
use snoo::AuthorizationUrlBuilder;
use snoo::AuthorizationUrlError;
use snoo::Scope;

#[test]
fn builds_authorization_code_url() {
    let actual = AuthorizationUrlBuilder::default()
        .client_id("abc123".to_owned())
        .redirect_uri("https://example.com/authorized".to_owned())
        .state("random_state".to_owned())
        .build()
        .unwrap();
    let expected = "https://www.reddit.com/api/v1/authorize\
                ?client_id=abc123\
                &duration=temporary\
                &redirect_uri=https%3A%2F%2Fexample.com%2Fauthorized\
                &response_type=code\
                &scope=identity\
                &state=random_state";
    assert_eq!(actual.as_str(), expected);
}

#[test]
fn builds_authorization_code_url_with_compact() {
    let actual = AuthorizationUrlBuilder::default()
        .client_id("abc123".to_owned())
        .compact(true)
        .redirect_uri("https://example.com/authorized".to_owned())
        .state("random_state".to_owned())
        .build()
        .unwrap();
    let expected = "https://www.reddit.com/api/v1/authorize.compact\
                ?client_id=abc123\
                &duration=temporary\
                &redirect_uri=https%3A%2F%2Fexample.com%2Fauthorized\
                &response_type=code\
                &scope=identity\
                &state=random_state";
    assert_eq!(actual.as_str(), expected);
}

#[test]
fn builds_authorization_code_url_with_custom_duration() {
    let actual = AuthorizationUrlBuilder::default()
        .client_id("abc123".to_owned())
        .duration(AuthorizationDuration::Permanent)
        .redirect_uri("https://example.com/authorized".to_owned())
        .state("random_state".to_owned())
        .build()
        .unwrap();
    let expected = "https://www.reddit.com/api/v1/authorize\
                ?client_id=abc123\
                &duration=permanent\
                &redirect_uri=https%3A%2F%2Fexample.com%2Fauthorized\
                &response_type=code\
                &scope=identity\
                &state=random_state";
    assert_eq!(actual.as_str(), expected);
}

#[test]
fn builds_authorization_code_url_with_custom_scope() {
    let actual = AuthorizationUrlBuilder::default()
        .client_id("abc123".to_owned())
        .redirect_uri("https://example.com/authorized".to_owned())
        .scope(vec![Scope::WikiEdit, Scope::WikiRead])
        .state("random_state".to_owned())
        .build()
        .unwrap();
    let expected = "https://www.reddit.com/api/v1/authorize\
                ?client_id=abc123\
                &duration=temporary\
                &redirect_uri=https%3A%2F%2Fexample.com%2Fauthorized\
                &response_type=code\
                &scope=wikiedit+wikiread\
                &state=random_state";
    assert_eq!(actual.as_str(), expected);
}

#[test]
fn builds_authorization_token_url() {
    let actual = AuthorizationUrlBuilder::default()
        .client_id("abc123".to_owned())
        .redirect_uri("https://example.com/authorized".to_owned())
        .response_type(AuthorizationResponseType::Token)
        .state("random_state".to_owned())
        .build()
        .unwrap();
    let expected = "https://www.reddit.com/api/v1/authorize\
                ?client_id=abc123\
                &redirect_uri=https%3A%2F%2Fexample.com%2Fauthorized\
                &response_type=token\
                &scope=identity\
                &state=random_state";
    assert_eq!(actual.as_str(), expected);
}

#[test]
fn builds_authorization_token_url_ignoring_duration() {
    let actual = AuthorizationUrlBuilder::default()
        .client_id("abc123".to_owned())
        .duration(AuthorizationDuration::Permanent)
        .redirect_uri("https://example.com/authorized".to_owned())
        .response_type(AuthorizationResponseType::Token)
        .state("random_state".to_owned())
        .build()
        .unwrap();
    let expected = "https://www.reddit.com/api/v1/authorize\
                ?client_id=abc123\
                &redirect_uri=https%3A%2F%2Fexample.com%2Fauthorized\
                &response_type=token\
                &scope=identity\
                &state=random_state";
    assert_eq!(actual.as_str(), expected);
}

#[test]
fn fails_building_authorization_code_url_without_client_id() {
    let actual = AuthorizationUrlBuilder::default()
        .redirect_uri("https://example.com/authorized".to_owned())
        .state("random_state".to_owned())
        .build();
    let expected = Err(AuthorizationUrlError::MissingClientId);
    assert_eq!(actual, expected);
}

#[test]
fn fails_building_authorization_code_url_without_redirect_uri() {
    let actual = AuthorizationUrlBuilder::default()
        .client_id("abc123".to_owned())
        .state("random_state".to_owned())
        .build();
    let expected = Err(AuthorizationUrlError::MissingRedirectUri);
    assert_eq!(actual, expected);
}

#[test]
fn fails_building_authorization_code_url_without_state() {
    let actual = AuthorizationUrlBuilder::default()
        .client_id("abc123".to_owned())
        .redirect_uri("https://example.com/authorized".to_owned())
        .build();
    let expected = Err(AuthorizationUrlError::MissingState);
    assert_eq!(actual, expected);
}

#[test]
fn empty_scope_list_falls_back_to_the_default_scope() {
    let actual = AuthorizationUrlBuilder::default()
        .client_id("abc123".to_owned())
        .redirect_uri("https://example.com/authorized".to_owned())
        .scope(vec![])
        .state("random_state".to_owned())
        .build()
        .unwrap();
    assert!(actual.contains("&scope=identity&"));
}
