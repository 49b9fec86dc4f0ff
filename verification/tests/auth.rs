use snoo::AppSecrets;
use snoo::AuthFlow;
use snoo::Authenticator;
use snoo::BearerToken;
use snoo::BearerTokenFuture;
use snoo::BearerTokenPoll;
use snoo::ExchangeOutcome;
use snoo::Scope;
use snoo::ScopeSet;
use snoo::SnooBuilder;
use snoo::SnooBuilderError;
use snoo::SnooErrorKind;

fn password_flow() -> AuthFlow {
    AuthFlow::Password {
        username: "bob".to_owned(),
        password: "hunter2".to_owned(),
        scope: ScopeSet::default(),
    }
}

fn secrets() -> AppSecrets {
    AppSecrets::new("client123".to_owned(), Some("sekrit".to_owned()))
}

fn token_body(refresh: bool) -> Vec<u8> {
    if refresh {
        b"{\"access_token\":\"tok1\",\"token_type\":\"bearer\",\"expires_in\":3600,\"scope\":\"identity\",\"refresh_token\":\"refresh9\"}".to_vec()
    } else {
        b"{\"access_token\":\"tok1\",\"token_type\":\"bearer\",\"expires_in\":3600,\"scope\":\"identity\"}".to_vec()
    }
}

#[test]
fn bearer_token_is_expired() {
    let token = BearerToken::new("abc123".to_owned(), 0, 3600, None, ScopeSet::new());
    assert!(token.is_expired(3601))
}

#[test]
fn authentication_bearer_token_is_expired() {
    let token = BearerToken::new("abc123".to_owned(), 100, 3600, None, ScopeSet::new());
    assert!(token.is_expired(3701))
}

#[test]
fn bearer_token_is_not_expired() {
    let token = BearerToken::new("abc123".to_owned(), 0, 3600, None, ScopeSet::new());
    assert!(!token.is_expired(0))
}

#[test]
fn authentication_bearer_token_is_not_expired() {
    let token = BearerToken::new("abc123".to_owned(), 50, 3600, None, ScopeSet::new());
    assert!(!token.is_expired(50))
}

#[test]
fn bearer_token_expires_exactly_at_the_boundary() {
    let token = BearerToken::new("abc123".to_owned(), 10, 60, None, ScopeSet::new());
    assert!(!token.is_expired(69));
    assert!(token.is_expired(70));
}

#[test]
fn bearer_token_is_renewable_iff_a_refresh_token_is_present() {
    let plain = BearerToken::new("a".to_owned(), 0, 60, None, ScopeSet::new());
    assert!(!plain.is_renewable());
    assert!(!plain.is_refreshable());
    let refreshable =
        BearerToken::new("a".to_owned(), 0, 60, Some("r".to_owned()), ScopeSet::new());
    assert!(refreshable.is_renewable());
    assert!(refreshable.is_refreshable());
    assert_eq!(refreshable.refresh_token(), Some("r"));
}

#[test]
fn bearer_token_matches_scopes() {
    let mut scope = ScopeSet::new();
    scope.insert(Scope::History);
    let token = BearerToken::new("a".to_owned(), 0, 60, None, scope);
    assert!(token.matches_scope(Scope::History));
    assert!(token.matches_scope(Scope::All));
    assert!(!token.matches_scope(Scope::Submit));
    let mut wildcard = ScopeSet::new();
    wildcard.insert(Scope::All);
    let token_all = BearerToken::new("a".to_owned(), 0, 60, None, wildcard);
    assert!(token_all.matches_scope(Scope::Submit));
}

#[test]
fn fixed_acquisition_is_drained_exactly_once() {
    let token = BearerToken::new("abc123".to_owned(), 0, 3600, None, ScopeSet::new());
    let mut fut = BearerTokenFuture::from(token);
    match fut.poll() {
        BearerTokenPoll::Ready(t) => assert_eq!(t.access_token(), "abc123"),
        _ => panic!("first poll must yield the credential"),
    }
    assert!(matches!(fut.poll(), BearerTokenPoll::AlreadyConsumed));
}

#[test]
fn missing_auth_flow_fails_construction() {
    let result = Authenticator::new(secrets(), None, None);
    assert!(result.is_err());
}

#[test]
fn concurrent_obtains_share_one_acquisition() {
    let mut auth = Authenticator::new(secrets(), Some(password_flow()), None).unwrap();
    let h1 = auth.bearer_token(false, 0);
    let h2 = auth.bearer_token(false, 0);
    assert_eq!(h1, h2);
    assert!(matches!(auth.poll(&h1), Some(BearerTokenPoll::NotReady)));
    assert!(matches!(auth.poll(&h2), Some(BearerTokenPoll::NotReady)));
    let outcome = ExchangeOutcome::Response { status: 200, body: token_body(false) };
    auth.deliver(&h1, outcome, 7);
    let t1 = match auth.poll(&h1) {
        Some(BearerTokenPoll::Ready(t)) => t,
        _ => panic!("first holder must observe the credential"),
    };
    let t2 = match auth.poll(&h2) {
        Some(BearerTokenPoll::Ready(t)) => t,
        _ => panic!("second holder must observe the credential"),
    };
    assert_eq!(t1.access_token(), "tok1");
    assert_eq!(t2.access_token(), t1.access_token());
    assert_eq!(t2.issued_at(), 7);
    assert_eq!(t2.expires_in(), 3600);
}

#[test]
fn password_exchange_serializes_the_expected_form_body() {
    let mut scope = ScopeSet::new();
    scope.insert(Scope::WikiEdit);
    scope.insert(Scope::WikiRead);
    let flow = AuthFlow::Password {
        username: "bob".to_owned(),
        password: "hunter2".to_owned(),
        scope,
    };
    let auth = Authenticator::new(secrets(), Some(flow), None).unwrap();
    let req = auth.pending_request().unwrap();
    assert_eq!(
        req.body.as_str(),
        "grant_type=password&username=bob&password=hunter2&scope=wikiedit+wikiread"
    );
    assert_eq!(req.url.as_str(), "https://www.reddit.com/api/v1/access_token");
    assert_eq!(req.basic_username.as_str(), "client123");
    assert_eq!(req.basic_password.as_deref(), Some("sekrit"));
}

#[test]
fn code_exchange_serializes_the_expected_form_body() {
    let flow = AuthFlow::Code {
        code: "abc123".to_owned(),
        redirect_uri: "https://example.com/authorized".to_owned(),
        scope: ScopeSet::default(),
    };
    let auth = Authenticator::new(secrets(), Some(flow), None).unwrap();
    let req = auth.pending_request().unwrap();
    assert_eq!(
        req.body.as_str(),
        "grant_type=authorization_code&code=abc123&redirect_uri=https%3A%2F%2Fexample.com%2Fauthorized"
    );
}

#[test]
fn expired_refreshable_credential_is_refreshed_not_reauthenticated() {
    let token =
        BearerToken::new("old".to_owned(), 0, 10, Some("refresh1".to_owned()), ScopeSet::new());
    let mut auth = Authenticator::new(secrets(), Some(password_flow()), Some(token)).unwrap();
    let h = auth.bearer_token(false, 100);
    let req = auth.pending_request().unwrap();
    assert_eq!(req.body.as_str(), "grant_type=refresh_token&refresh_token=refresh1");
    // The stored password strategy was left untouched: after this exchange
    // fails, a forced renewal still finds it in the slot.
    auth.deliver(&h, ExchangeOutcome::TransportError, 100);
    match auth.poll(&h) {
        Some(BearerTokenPoll::Failed(e)) => {
            assert_eq!(e.kind(), SnooErrorKind::NetworkError)
        },
        _ => panic!("the transport failure must be delivered"),
    }
    let h2 = auth.bearer_token(true, 100);
    assert_ne!(h, h2);
    let req2 = auth.pending_request().unwrap();
    assert!(req2.body.starts_with("grant_type=password"));
}

#[test]
fn expired_plain_credential_reuses_the_stored_password_strategy() {
    let token = BearerToken::new("old".to_owned(), 0, 10, None, ScopeSet::new());
    let mut auth = Authenticator::new(secrets(), Some(password_flow()), Some(token)).unwrap();
    let h = auth.bearer_token(false, 100);
    let req = auth.pending_request().unwrap();
    assert!(req.body.starts_with("grant_type=password&username=bob"));
    // The password strategy remains available for a later renewal.
    auth.deliver(&h, ExchangeOutcome::Response { status: 200, body: token_body(false) }, 100);
    auth.bearer_token(true, 100);
    let req2 = auth.pending_request().unwrap();
    assert!(req2.body.starts_with("grant_type=password&username=bob"));
}

#[test]
fn consumed_code_strategy_leaves_nothing_to_renew_with() {
    let flow = AuthFlow::Code {
        code: "abc123".to_owned(),
        redirect_uri: "https://example.com/authorized".to_owned(),
        scope: ScopeSet::default(),
    };
    let mut auth = Authenticator::new(secrets(), Some(flow), None).unwrap();
    let h1 = auth.bearer_token(false, 0);
    auth.deliver(&h1, ExchangeOutcome::Response { status: 200, body: token_body(false) }, 0);
    // Much later the credential is expired and has no refresh token; the
    // one-time code is consumed, so even a forced renewal is a no-op.
    let h2 = auth.bearer_token(true, 4000);
    assert_eq!(h1, h2);
    match auth.poll(&h2) {
        Some(BearerTokenPoll::Ready(t)) => {
            assert_eq!(t.access_token(), "tok1");
            assert!(t.is_expired(4000));
        },
        _ => panic!("the cached expired credential must still be observable"),
    }
}

#[test]
fn unauthorized_response_fails_every_clone_identically() {
    let mut auth = Authenticator::new(secrets(), Some(password_flow()), None).unwrap();
    let h1 = auth.bearer_token(false, 0);
    let h2 = auth.bearer_token(false, 0);
    auth.deliver(
        &h1,
        ExchangeOutcome::Response { status: 401, body: b"{}".to_vec() },
        0,
    );
    for h in [h1, h2] {
        match auth.poll(&h) {
            Some(BearerTokenPoll::Failed(e)) => {
                assert_eq!(e.kind(), SnooErrorKind::UnsuccessfulResponse(401))
            },
            _ => panic!("every holder must observe the same failure"),
        }
    }
}

#[test]
fn malformed_response_bodies_are_invalid_responses() {
    let mut auth = Authenticator::new(secrets(), Some(password_flow()), None).unwrap();
    let h = auth.bearer_token(false, 0);
    auth.deliver(
        &h,
        ExchangeOutcome::Response { status: 200, body: b"not json".to_vec() },
        0,
    );
    match auth.poll(&h) {
        Some(BearerTokenPoll::Failed(e)) => {
            assert_eq!(e.kind(), SnooErrorKind::InvalidResponse)
        },
        _ => panic!("a malformed body must fail the acquisition"),
    }
}

#[test]
fn unknown_scopes_in_the_response_are_invalid_responses() {
    let mut auth = Authenticator::new(secrets(), Some(password_flow()), None).unwrap();
    let h = auth.bearer_token(false, 0);
    let body = b"{\"access_token\":\"tok1\",\"token_type\":\"bearer\",\"expires_in\":3600,\"scope\":\"mystery\"}".to_vec();
    auth.deliver(&h, ExchangeOutcome::Response { status: 200, body }, 0);
    match auth.poll(&h) {
        Some(BearerTokenPoll::Failed(e)) => {
            assert_eq!(e.kind(), SnooErrorKind::InvalidResponse)
        },
        _ => panic!("an unknown scope must fail the acquisition"),
    }
}

#[test]
fn refresh_token_from_the_response_is_kept() {
    let mut auth = Authenticator::new(secrets(), Some(password_flow()), None).unwrap();
    let h = auth.bearer_token(false, 0);
    auth.deliver(&h, ExchangeOutcome::Response { status: 200, body: token_body(true) }, 0);
    match auth.poll(&h) {
        Some(BearerTokenPoll::Ready(t)) => {
            assert_eq!(t.refresh_token(), Some("refresh9"));
            assert!(t.matches_scope(Scope::Identity));
        },
        _ => panic!("the credential must resolve"),
    }
}

#[test]
fn stale_outcomes_never_resolve_a_newer_acquisition() {
    let mut auth = Authenticator::new(secrets(), Some(password_flow()), None).unwrap();
    let h1 = auth.bearer_token(false, 0);
    let h2 = auth.bearer_token(true, 0);
    assert_ne!(h1, h2);
    // The first exchange's response arrives after a forced renewal has
    // replaced the acquisition: it is discarded, not misattributed.
    auth.deliver(&h1, ExchangeOutcome::Response { status: 200, body: token_body(false) }, 0);
    assert!(matches!(auth.poll(&h2), Some(BearerTokenPoll::NotReady)));
    // The current exchange's own outcome still resolves it.
    auth.deliver(&h2, ExchangeOutcome::TransportError, 0);
    match auth.poll(&h2) {
        Some(BearerTokenPoll::Failed(e)) => {
            assert_eq!(e.kind(), SnooErrorKind::NetworkError)
        },
        _ => panic!("the current exchange's outcome must be installed"),
    }
}

#[test]
fn superseded_handles_observe_nothing() {
    let mut auth = Authenticator::new(secrets(), Some(password_flow()), None).unwrap();
    let h1 = auth.bearer_token(false, 0);
    let h2 = auth.bearer_token(true, 0);
    assert_ne!(h1, h2);
    assert!(auth.poll(&h1).is_none());
    assert!(matches!(auth.poll(&h2), Some(BearerTokenPoll::NotReady)));
}

#[test]
fn builder_requires_secrets_agent_and_a_flow() {
    assert_eq!(
        SnooBuilder::default().build().unwrap_err(),
        SnooBuilderError::MissingAppSecrets
    );
    assert_eq!(
        SnooBuilder::default()
            .app_secrets("client123".to_owned(), None)
            .build()
            .unwrap_err(),
        SnooBuilderError::MissingUserAgent
    );
    assert_eq!(
        SnooBuilder::default()
            .app_secrets("client123".to_owned(), None)
            .user_agent("app", "1.0", "bob")
            .build()
            .unwrap_err(),
        SnooBuilderError::MissingAuthFlow
    );
}

#[test]
fn builder_formats_the_user_agent_and_wires_the_authenticator() {
    let (mut auth, user_agent) = SnooBuilder::default()
        .app_secrets("client123".to_owned(), Some("sekrit".to_owned()))
        .password_auth("bob".to_owned(), "hunter2".to_owned(), vec![Scope::Identity])
        .user_agent("myapp", "0.3", "bob")
        .build()
        .unwrap();
    assert_eq!(user_agent.as_str(), "snoo-rs:myapp:0.3 (/u/bob)");
    auth.bearer_token(false, 0);
    let req = auth.pending_request().unwrap();
    assert_eq!(
        req.body.as_str(),
        "grant_type=password&username=bob&password=hunter2&scope=identity"
    );
}

#[test]
fn builder_drops_a_single_use_flow_when_a_credential_is_supplied() {
    let token = BearerToken::new("abc".to_owned(), 0, 3600, None, ScopeSet::new());
    let (mut auth, _) = SnooBuilder::default()
        .app_secrets("client123".to_owned(), None)
        .refresh_token_auth("r0".to_owned())
        .bearer_token(token)
        .user_agent("myapp", "0.3", "bob")
        .build()
        .unwrap();
    // The single-use strategy was dropped at construction: with the
    // credential still valid a forced renewal has nothing to replay.
    let h = auth.bearer_token(true, 0);
    assert!(matches!(auth.poll(&h), Some(BearerTokenPoll::Ready(_))));
    assert!(auth.pending_request().is_none());
}

#[test]
fn app_secrets_exposes_what_it_was_given() {
    let with = secrets();
    assert_eq!(with.client_id(), "client123");
    assert_eq!(with.client_secret(), Some("sekrit"));
    let without = AppSecrets::new("client123".to_owned(), None);
    assert_eq!(without.client_secret(), None);
}

#[test]
fn auth_flows_classify_themselves() {
    let code = AuthFlow::Code {
        code: "c".to_owned(),
        redirect_uri: "u".to_owned(),
        scope: ScopeSet::new(),
    };
    let password = password_flow();
    let refresh = AuthFlow::RefreshToken("r".to_owned());
    assert!(code.is_code() && !code.is_password() && !code.is_refresh_token());
    assert!(password.is_password() && !password.is_code());
    assert!(refresh.is_refresh_token() && !refresh.is_password());
    assert!(code.is_single_use());
    assert!(refresh.is_single_use());
    assert!(!password.is_single_use());
}
