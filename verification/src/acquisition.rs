//! Acquisitions: memoizing handles to a credential that is either already
//! known or still being fetched, and the token-endpoint exchange they
//! describe.
//!
//! The exchange itself is I/O, so the host drives it: it reads the pending
//! [`TokenRequest`], performs the HTTP call over its own transport, and
//! hands back an [`ExchangeOutcome`].  Every decision about the exchange —
//! what the request contains and what each outcome resolves to — is made
//! here, and verified.

use vstd::prelude::*;
use vstd::string::StringExecFns;

use crate::api::spec_resource_url;
use crate::api::Resource;
use crate::authentication::AppSecrets;
use crate::authentication::AuthFlow;
use crate::authentication::BearerToken;
use crate::encode::parse_token_body;
use crate::encode::spec_pairs_view;
use crate::encode::token_body_fields;
use crate::encode::urlencode_pairs;
use crate::encode::urlencoded_of;
use crate::error::SnooError;
use crate::error::SnooErrorKind;
use crate::scope::spec_join;
use crate::scope::spec_parse_scopes;
use crate::scope::ScopeSet;

verus! {

/// A fully described request to the token endpoint: a POST to the access
/// token URL with HTTP basic authentication and a form-encoded body.
#[derive(Clone, Debug)]
pub struct TokenRequest {
    /// The URL of the token endpoint.
    pub url: String,
    /// The basic-authentication user name: the client identifier.
    pub basic_username: String,
    /// The basic-authentication password: the client secret, if any.
    pub basic_password: Option<String>,
    /// The form-encoded request body.
    pub body: String,
}

/// The form fields a strategy serializes to, in order.
pub open spec fn spec_form_pairs(flow: AuthFlow) -> Seq<(Seq<char>, Seq<char>)> {
    match flow {
        AuthFlow::Code { code, redirect_uri, .. } => seq![
            ("grant_type"@, "authorization_code"@),
            ("code"@, code@),
            ("redirect_uri"@, redirect_uri@),
        ],
        AuthFlow::Password { username, password, scope } => seq![
            ("grant_type"@, "password"@),
            ("username"@, username@),
            ("password"@, password@),
            ("scope"@, spec_join(scope.to_seq())),
        ],
        AuthFlow::RefreshToken(token) => spec_refresh_pairs(token@),
    }
}

/// The form fields of a refresh-token exchange, given the refresh token.
pub open spec fn spec_refresh_pairs(token: Seq<char>) -> Seq<(Seq<char>, Seq<char>)> {
    seq![("grant_type"@, "refresh_token"@), ("refresh_token"@, token)]
}

/// What a token request must hold to be the exchange for a given strategy
/// under given secrets.
pub open spec fn spec_request_matches(req: TokenRequest, flow: AuthFlow, secrets: AppSecrets) -> bool {
    &&& req.url@ == spec_resource_url(Resource::AccessToken)
    &&& req.basic_username@ == secrets.spec_client_id()
    &&& (match req.basic_password {
        Some(p) => Some(p@),
        None => None::<Seq<char>>,
    }) == secrets.spec_client_secret()
    &&& req.body@ == urlencoded_of(spec_form_pairs(flow))
}

/// As [`spec_request_matches`], for the transient refresh exchange that
/// rule 1 of the renewal policy synthesizes from a stored refresh token.
pub open spec fn spec_refresh_request_matches(
    req: TokenRequest,
    token: Seq<char>,
    secrets: AppSecrets,
) -> bool {
    &&& req.url@ == spec_resource_url(Resource::AccessToken)
    &&& req.basic_username@ == secrets.spec_client_id()
    &&& (match req.basic_password {
        Some(p) => Some(p@),
        None => None::<Seq<char>>,
    }) == secrets.spec_client_secret()
    &&& req.body@ == urlencoded_of(spec_refresh_pairs(token))
}

/// Builds the token-endpoint request a strategy serializes to.
pub fn build_token_request(flow: &AuthFlow, secrets: &AppSecrets) -> (r: TokenRequest)
    ensures
        spec_request_matches(r, *flow, *secrets),
{
    let mut pairs: Vec<(String, String)> = Vec::new();
    match flow {
        AuthFlow::Code { code, redirect_uri, .. } => {
            pairs.push(
                (String::from_str("grant_type"), String::from_str("authorization_code")),
            );
            pairs.push((String::from_str("code"), code.clone()));
            pairs.push((String::from_str("redirect_uri"), redirect_uri.clone()));
        },
        AuthFlow::Password { username, password, scope } => {
            pairs.push((String::from_str("grant_type"), String::from_str("password")));
            pairs.push((String::from_str("username"), username.clone()));
            pairs.push((String::from_str("password"), password.clone()));
            pairs.push((String::from_str("scope"), scope.to_scope_string()));
        },
        AuthFlow::RefreshToken(token) => {
            pairs.push((String::from_str("grant_type"), String::from_str("refresh_token")));
            pairs.push((String::from_str("refresh_token"), token.clone()));
        },
    }
    proof {
        assert(spec_pairs_view(pairs@) =~= spec_form_pairs(*flow));
    }
    let body = urlencode_pairs(&pairs);
    let basic_password = match secrets.client_secret() {
        Some(s) => Some(s.to_owned()),
        None => None,
    };
    TokenRequest {
        url: Resource::AccessToken.url(),
        basic_username: secrets.client_id().to_owned(),
        basic_password,
        body,
    }
}

/// What the host hands back after driving a token-endpoint request.
#[derive(Clone, Debug)]
pub enum ExchangeOutcome {
    /// A complete response: the status code and the fully read body.
    Response {
        /// The HTTP status code.
        status: u16,
        /// The fully buffered response body.
        body: Vec<u8>,
    },
    /// The request failed at the transport level before a response was
    /// read.
    TransportError,
}

/// How an exchange outcome resolves, stamped at the given second:
/// transport failures are network errors; a non-2xx status fails with that
/// status; a body whose fields cannot be extracted, or whose scope string
/// does not parse, is an invalid response; otherwise the credential is
/// built from the extracted fields with `issued_at` set to `now`.
pub open spec fn spec_outcome_resolution(
    outcome: ExchangeOutcome,
    now: u64,
    r: Result<BearerToken, SnooError>,
) -> bool {
    match outcome {
        ExchangeOutcome::TransportError => r matches Err(e) && e.spec_kind()
            == SnooErrorKind::NetworkError,
        ExchangeOutcome::Response { status, body } => {
            if !(200 <= status < 300) {
                r matches Err(e) && e.spec_kind() == SnooErrorKind::UnsuccessfulResponse(status)
            } else {
                match token_body_fields(body@) {
                    None => r matches Err(e) && e.spec_kind() == SnooErrorKind::InvalidResponse,
                    Some(f) => match spec_parse_scopes(f.3) {
                        None => r matches Err(e) && e.spec_kind()
                            == SnooErrorKind::InvalidResponse,
                        Some(scopes) => r matches Ok(t) && {
                            &&& t.well_formed()
                            &&& t.spec_access_token() == f.0
                            &&& t.spec_issued_at() == now
                            &&& t.spec_expires_in() == f.1
                            &&& t.spec_refresh_token() == f.2
                            &&& t.spec_scope() == scopes
                        },
                    },
                }
            }
        },
    }
}

/// Resolves a driven exchange into the credential or error every holder of
/// the acquisition will observe.
pub fn resolve_exchange(outcome: ExchangeOutcome, now: u64) -> (r: Result<BearerToken, SnooError>)
    ensures
        spec_outcome_resolution(outcome, now, r),
{
    match outcome {
        ExchangeOutcome::TransportError => Err(SnooError::new(SnooErrorKind::NetworkError)),
        ExchangeOutcome::Response { status, body } => {
            if !(200 <= status && status < 300) {
                Err(SnooError::new(SnooErrorKind::UnsuccessfulResponse(status)))
            } else {
                match parse_token_body(&body) {
                    None => Err(SnooError::new(SnooErrorKind::InvalidResponse)),
                    Some((access_token, expires_in, refresh_token, scope_str)) => {
                        match ScopeSet::from_scope_string(scope_str.as_str()) {
                            None => Err(SnooError::new(SnooErrorKind::InvalidResponse)),
                            Some(scope) => Ok(
                                BearerToken::new(
                                    access_token,
                                    now,
                                    expires_in,
                                    refresh_token,
                                    scope,
                                ),
                            ),
                        }
                    },
                }
            }
        },
    }
}

/// What polling an acquisition yields.
#[derive(Clone, Debug)]
pub enum BearerTokenPoll {
    /// The credential is available.
    Ready(BearerToken),
    /// The acquisition failed; every holder sees the same error.
    Failed(SnooError),
    /// The exchange has not been driven to completion yet.
    NotReady,
    /// A fixed credential was already drained by an earlier poll.
    AlreadyConsumed,
}

/// A memoizing handle to a credential that is either already known or
/// still being fetched.
///
/// A `Fixed` acquisition wraps a pre-supplied credential and hands it out
/// exactly once: polling it again is a fault, reported as
/// [`BearerTokenPoll::AlreadyConsumed`] rather than a crash.  A `Pending`
/// acquisition waits for the host to drive its exchange.  A `Resolved`
/// acquisition has its terminal value memoized: every holder that polls it
/// observes the same credential or error, however often.
#[derive(Debug)]
pub enum BearerTokenFuture {
    /// A pre-supplied credential, drained by the first poll.
    Fixed(Option<BearerToken>),
    /// An exchange the host has yet to finish driving.
    Pending(TokenRequest),
    /// The memoized terminal value.
    Resolved(Result<BearerToken, SnooError>),
}

impl BearerTokenFuture {
    /// Scope sets held anywhere inside are well formed.
    pub open spec fn well_formed(&self) -> bool {
        match self {
            BearerTokenFuture::Fixed(Some(t)) => t.well_formed(),
            BearerTokenFuture::Fixed(None) => true,
            BearerTokenFuture::Pending(_) => true,
            BearerTokenFuture::Resolved(Ok(t)) => t.well_formed(),
            BearerTokenFuture::Resolved(Err(_)) => true,
        }
    }

    /// The credential the renewal policy can see: a pre-supplied one, or
    /// one from a successfully resolved exchange.
    pub open spec fn spec_peek(&self) -> Option<BearerToken> {
        match self {
            BearerTokenFuture::Fixed(Some(t)) => Some(*t),
            BearerTokenFuture::Resolved(Ok(t)) => Some(*t),
            _ => None,
        }
    }

    /// Starts the exchange for a strategy: the acquisition is pending on
    /// the request the strategy serializes to.
    pub fn new(flow: &AuthFlow, secrets: &AppSecrets) -> (r: BearerTokenFuture)
        ensures
            r.well_formed(),
            r matches BearerTokenFuture::Pending(req) && spec_request_matches(
                req,
                *flow,
                *secrets,
            ),
    {
        BearerTokenFuture::Pending(build_token_request(flow, secrets))
    }

    /// The credential the renewal policy can see, if any.
    pub fn peek(&self) -> (r: Option<&BearerToken>)
        ensures
            match r {
                Some(t) => self.spec_peek() == Some(*t),
                None => self.spec_peek() is None,
            },
    {
        match self {
            BearerTokenFuture::Fixed(Some(t)) => Some(t),
            BearerTokenFuture::Resolved(Ok(t)) => Some(t),
            _ => None,
        }
    }

    /// Polls the acquisition without driving any exchange.
    ///
    /// A fixed credential is handed out exactly once and the slot is left
    /// drained; polling the drained slot is the deliberate one-shot fault.
    /// A resolved acquisition answers the same value every time.
    pub fn poll(&mut self) -> (r: BearerTokenPoll)
        requires
            old(self).well_formed(),
        ensures
            final(self).well_formed(),
            match *old(self) {
                BearerTokenFuture::Fixed(Some(t)) => {
                    &&& r matches BearerTokenPoll::Ready(t2)
                    &&& BearerToken::spec_same_credential(&t2, &t)
                    &&& *final(self) == BearerTokenFuture::Fixed(None::<BearerToken>)
                },
                BearerTokenFuture::Fixed(None) => {
                    &&& r is AlreadyConsumed
                    &&& *final(self) == *old(self)
                },
                BearerTokenFuture::Pending(_) => {
                    &&& r is NotReady
                    &&& *final(self) == *old(self)
                },
                BearerTokenFuture::Resolved(Ok(t)) => {
                    &&& r matches BearerTokenPoll::Ready(t2)
                    &&& BearerToken::spec_same_credential(&t2, &t)
                    &&& *final(self) == *old(self)
                },
                BearerTokenFuture::Resolved(Err(e)) => {
                    &&& r == BearerTokenPoll::Failed(e)
                    &&& *final(self) == *old(self)
                },
            },
    {
        match self {
            BearerTokenFuture::Fixed(slot) => {
                match slot.take() {
                    Some(t) => BearerTokenPoll::Ready(t),
                    None => BearerTokenPoll::AlreadyConsumed,
                }
            },
            BearerTokenFuture::Pending(_) => BearerTokenPoll::NotReady,
            BearerTokenFuture::Resolved(Ok(t)) => BearerTokenPoll::Ready(t.duplicate()),
            BearerTokenFuture::Resolved(Err(e)) => BearerTokenPoll::Failed(*e),
        }
    }

    /// Installs the terminal value of the exchange; a no-op unless the
    /// acquisition is pending.
    pub fn resolve_with(&mut self, result: Result<BearerToken, SnooError>)
        requires
            old(self).well_formed(),
            match result {
                Ok(t) => t.well_formed(),
                Err(_) => true,
            },
        ensures
            final(self).well_formed(),
            if *old(self) is Pending {
                *final(self) == BearerTokenFuture::Resolved(result)
            } else {
                *final(self) == *old(self)
            },
    {
        match self {
            BearerTokenFuture::Pending(_) => {
                *self = BearerTokenFuture::Resolved(result);
            },
            _ => {},
        }
    }
}

impl From<BearerToken> for BearerTokenFuture {
    /// Wraps an already-known credential as a fixed acquisition.
    fn from(token: BearerToken) -> (r: BearerTokenFuture) {
        BearerTokenFuture::Fixed(Some(token))
    }
}

impl vstd::std_specs::convert::FromSpecImpl<BearerToken> for BearerTokenFuture {
    open spec fn obeys_from_spec() -> bool {
        true
    }

    open spec fn from_spec(token: BearerToken) -> BearerTokenFuture {
        BearerTokenFuture::Fixed(Some(token))
    }
}

} // verus!
