//! Pure value types of authentication: the application's secrets, the
//! strategies for obtaining a credential, and the bearer credential itself.

use vstd::prelude::*;

use crate::scope::Scope;
use crate::scope::ScopeSet;

verus! {

/// A container for the secrets the application signs token-endpoint
/// requests with.  Immutable after construction.
#[derive(Clone, Debug)]
pub struct AppSecrets {
    client_id: String,
    client_secret: Option<String>,
}

impl AppSecrets {
    /// The client identifier.
    pub closed spec fn spec_client_id(&self) -> Seq<char> {
        self.client_id@
    }

    /// The client secret, if the application has one.
    pub closed spec fn spec_client_secret(&self) -> Option<Seq<char>> {
        match self.client_secret {
            Some(s) => Some(s@),
            None => None,
        }
    }

    /// Creates a new container holding the provided secrets.
    pub fn new(client_id: String, client_secret: Option<String>) -> (r: AppSecrets)
        ensures
            r.spec_client_id() == client_id@,
            r.spec_client_secret() == (match client_secret {
                Some(s) => Some(s@),
                None => None::<Seq<char>>,
            }),
    {
        AppSecrets { client_id, client_secret }
    }

    /// The client identifier.
    pub fn client_id(&self) -> (r: &str)
        ensures
            r@ == self.spec_client_id(),
    {
        self.client_id.as_str()
    }

    /// The client secret, if available.
    pub fn client_secret(&self) -> (r: Option<&str>)
        ensures
            match r {
                Some(s) => self.spec_client_secret() == Some(s@),
                None => self.spec_client_secret() is None,
            },
    {
        match &self.client_secret {
            Some(s) => Some(s.as_str()),
            None => None,
        }
    }
}

/// The method used to obtain a bearer credential.
///
/// A strategy is either reusable (`Password`, which may be replayed for
/// every renewal) or single-use (`Code` and `RefreshToken`, which are
/// consumed by their first exchange).
#[derive(Clone, Debug)]
pub enum AuthFlow {
    /// Exchange an authorization code retrieved from the authorization
    /// page.
    Code {
        /// The one-time authorization code.
        code: String,
        /// The redirect URI registered with the API.
        redirect_uri: String,
        /// The scopes to request during authentication.
        scope: ScopeSet,
    },
    /// Exchange a user's name and password.
    Password {
        /// The user's name.
        username: String,
        /// The user's password.
        password: String,
        /// The scopes to request during authentication.
        scope: ScopeSet,
    },
    /// Exchange a refresh token.
    RefreshToken(String),
}

impl AuthFlow {
    /// The scope set carried by the flow, if any, is well formed.
    pub open spec fn well_formed(&self) -> bool {
        match self {
            AuthFlow::Code { scope, .. } => scope.well_formed(),
            AuthFlow::Password { scope, .. } => scope.well_formed(),
            AuthFlow::RefreshToken(_) => true,
        }
    }

    /// Whether this is an authorization-code exchange.
    pub fn is_code(&self) -> (r: bool)
        ensures
            r == (self is Code),
    {
        match self {
            AuthFlow::Code { .. } => true,
            _ => false,
        }
    }

    /// Whether this is a password exchange.
    pub fn is_password(&self) -> (r: bool)
        ensures
            r == (self is Password),
    {
        match self {
            AuthFlow::Password { .. } => true,
            _ => false,
        }
    }

    /// Whether this is a refresh-token exchange.
    pub fn is_refresh_token(&self) -> (r: bool)
        ensures
            r == (self is RefreshToken),
    {
        match self {
            AuthFlow::RefreshToken(_) => true,
            _ => false,
        }
    }

    /// Whether the strategy is consumed by its first use.  Only a password
    /// strategy may be replayed for future renewals.
    pub fn is_single_use(&self) -> (r: bool)
        ensures
            r == !(self is Password),
    {
        match self {
            AuthFlow::Password { .. } => false,
            _ => true,
        }
    }
}

/// The bearer credential used to authorize API requests.
///
/// The issuance time is stamped by the caller when the credential is
/// constructed; it is never taken from the wire.
#[derive(Clone, Debug)]
pub struct BearerToken {
    access_token: String,
    issued_at: u64,
    expires_in: u64,
    refresh_token: Option<String>,
    scope: ScopeSet,
}

impl BearerToken {
    /// The opaque access token.
    pub closed spec fn spec_access_token(&self) -> Seq<char> {
        self.access_token@
    }

    /// The second at which the credential was issued.
    pub closed spec fn spec_issued_at(&self) -> u64 {
        self.issued_at
    }

    /// The credential's lifetime in seconds.
    pub closed spec fn spec_expires_in(&self) -> u64 {
        self.expires_in
    }

    /// The refresh token, if one was granted.
    pub closed spec fn spec_refresh_token(&self) -> Option<Seq<char>> {
        match self.refresh_token {
            Some(ref s) => Some(s@),
            None => None,
        }
    }

    /// The set of scopes the credential grants.
    pub closed spec fn spec_scope(&self) -> Set<Scope> {
        self.scope@
    }

    /// The canonical member sequence of the granted scopes.
    pub closed spec fn spec_scope_seq(&self) -> Seq<Scope> {
        self.scope.to_seq()
    }

    /// The held scope set is well formed.
    pub closed spec fn well_formed(&self) -> bool {
        self.scope.well_formed()
    }

    /// Two credentials agree on every observable field.
    pub open spec fn spec_same_credential(a: &BearerToken, b: &BearerToken) -> bool {
        &&& a.spec_access_token() == b.spec_access_token()
        &&& a.spec_issued_at() == b.spec_issued_at()
        &&& a.spec_expires_in() == b.spec_expires_in()
        &&& a.spec_refresh_token() == b.spec_refresh_token()
        &&& a.spec_scope_seq() == b.spec_scope_seq()
        &&& a.spec_scope() == b.spec_scope()
    }

    /// Creates a credential issued at the given second.
    pub fn new(
        access_token: String,
        issued_at: u64,
        expires_in: u64,
        refresh_token: Option<String>,
        scope: ScopeSet,
    ) -> (r: BearerToken)
        requires
            scope.well_formed(),
        ensures
            r.well_formed(),
            r.spec_access_token() == access_token@,
            r.spec_issued_at() == issued_at,
            r.spec_expires_in() == expires_in,
            r.spec_refresh_token() == (match refresh_token {
                Some(s) => Some(s@),
                None => None::<Seq<char>>,
            }),
            r.spec_scope() == scope@,
            r.spec_scope_seq() == scope.to_seq(),
    {
        BearerToken { access_token, issued_at, expires_in, refresh_token, scope }
    }

    /// The opaque access token.
    pub fn access_token(&self) -> (r: &str)
        ensures
            r@ == self.spec_access_token(),
    {
        self.access_token.as_str()
    }

    /// The second at which the credential was issued.
    pub fn issued_at(&self) -> (r: u64)
        ensures
            r == self.spec_issued_at(),
    {
        self.issued_at
    }

    /// The credential's lifetime in seconds.
    pub fn expires_in(&self) -> (r: u64)
        ensures
            r == self.spec_expires_in(),
    {
        self.expires_in
    }

    /// The refresh token, if one was granted.
    pub fn refresh_token(&self) -> (r: Option<&str>)
        ensures
            match r {
                Some(s) => self.spec_refresh_token() == Some(s@),
                None => self.spec_refresh_token() is None,
            },
    {
        match &self.refresh_token {
            Some(s) => Some(s.as_str()),
            None => None,
        }
    }

    /// The set of scopes the credential grants.
    pub fn scope(&self) -> (r: &ScopeSet)
        ensures
            r@ == self.spec_scope(),
            r.to_seq() == self.spec_scope_seq(),
            self.well_formed() ==> r.well_formed(),
    {
        &self.scope
    }

    /// Whether the credential is expired at the given second: elapsed time
    /// greater than or equal to the lifetime counts as expired.
    pub open spec fn spec_is_expired(&self, now: u64) -> bool {
        now >= self.spec_issued_at() + self.spec_expires_in()
    }

    /// Whether the credential is expired at the given second.
    pub fn is_expired(&self, now: u64) -> (r: bool)
        ensures
            r == self.spec_is_expired(now),
    {
        if now < self.issued_at {
            false
        } else {
            now - self.issued_at >= self.expires_in
        }
    }

    /// Whether the credential can be renewed with a refresh-token exchange:
    /// true exactly when a refresh token is present.
    pub fn is_renewable(&self) -> (r: bool)
        ensures
            r == (self.spec_refresh_token() is Some),
    {
        self.refresh_token.is_some()
    }

    /// A synonym for [`BearerToken::is_renewable`].
    pub fn is_refreshable(&self) -> (r: bool)
        ensures
            r == (self.spec_refresh_token() is Some),
    {
        self.is_renewable()
    }

    /// Whether the credential satisfies a request for the given scope: the
    /// wildcard satisfies anything, and is satisfied by anything.
    pub fn matches_scope(&self, scope: Scope) -> (r: bool)
        ensures
            r == (scope == Scope::All || self.spec_scope().contains(scope)
                || self.spec_scope().contains(Scope::All)),
    {
        scope == Scope::All || self.scope.contains(scope) || self.scope.contains(Scope::All)
    }

    /// An observably identical copy of the credential.
    pub fn duplicate(&self) -> (r: BearerToken)
        ensures
            BearerToken::spec_same_credential(&r, self),
            self.well_formed() ==> r.well_formed(),
    {
        BearerToken {
            access_token: self.access_token.clone(),
            issued_at: self.issued_at,
            expires_in: self.expires_in,
            refresh_token: match &self.refresh_token {
                Some(s) => Some(s.clone()),
                None => None,
            },
            scope: self.scope.duplicate(),
        }
    }
}

/// A credential with a positive lifetime is never expired at the second it
/// was issued, and is expired at every second from `issued_at +
/// expires_in` on — the boundary itself counting as expired.
pub proof fn lemma_credential_expiry(t: &BearerToken, now: u64)
    ensures
        t.spec_expires_in() > 0 ==> !t.spec_is_expired(t.spec_issued_at()),
        t.spec_is_expired(now) <==> now >= t.spec_issued_at() + t.spec_expires_in(),
{
}

} // verus!
