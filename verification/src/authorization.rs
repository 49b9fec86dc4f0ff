//! Building user-authorization URLs.
//!
//! Some strategies need the user's consent first: the user visits an
//! authorization URL and is then redirected back with the information
//! needed to obtain a credential.

use vstd::prelude::*;
use vstd::string::StringExecFns;

use crate::api::spec_resource_url;
use crate::api::Resource;
use crate::encode::spec_pairs_view;
use crate::encode::urlencode_pairs;
use crate::encode::urlencoded_of;
use crate::scope::spec_fold_insert;
use crate::scope::spec_join;
use crate::scope::spec_rank_sorted;
use crate::scope::Scope;
use crate::scope::ScopeSet;

verus! {

/// The kind of answer the authorization page appends to the redirect URI.
#[derive(Clone, Copy, Debug, PartialEq, Eq, Structural)]
pub enum AuthorizationResponseType {
    /// Append a one-time code to exchange for a credential.
    Code,
    /// Append the credential itself in a single step.
    Token,
}

/// The wire name of a response type.
pub open spec fn spec_response_type_name(t: AuthorizationResponseType) -> Seq<char> {
    match t {
        AuthorizationResponseType::Code => "code"@,
        AuthorizationResponseType::Token => "token"@,
    }
}

impl AuthorizationResponseType {
    /// The wire name of this response type.
    pub fn as_str(self) -> (r: &'static str)
        ensures
            r@ == spec_response_type_name(self),
    {
        match self {
            AuthorizationResponseType::Code => "code",
            AuthorizationResponseType::Token => "token",
        }
    }
}

/// How long an authorization stays valid.
#[derive(Clone, Copy, Debug, PartialEq, Eq, Structural)]
pub enum AuthorizationDuration {
    /// A one-hour authorization without a refresh token.
    Temporary,
    /// A long-term authorization whose credential carries a refresh token.
    Permanent,
}

/// The wire name of a duration.
pub open spec fn spec_duration_name(d: AuthorizationDuration) -> Seq<char> {
    match d {
        AuthorizationDuration::Temporary => "temporary"@,
        AuthorizationDuration::Permanent => "permanent"@,
    }
}

impl AuthorizationDuration {
    /// The wire name of this duration.
    pub fn as_str(self) -> (r: &'static str)
        ensures
            r@ == spec_duration_name(self),
    {
        match self {
            AuthorizationDuration::Temporary => "temporary",
            AuthorizationDuration::Permanent => "permanent",
        }
    }
}

/// An error that may occur when building an authorization URL.
#[derive(Clone, Copy, Debug, PartialEq, Eq, Structural)]
pub enum AuthorizationUrlError {
    /// A client identifier is required, but was not provided.
    MissingClientId,
    /// A redirect URI is required, but was not provided.
    MissingRedirectUri,
    /// A state string is required, but was not provided.
    MissingState,
}

/// A builder for user-authorization URLs.
#[derive(Clone, Debug)]
pub struct AuthorizationUrlBuilder {
    client_id: Option<String>,
    compact: bool,
    duration: AuthorizationDuration,
    redirect_uri: Option<String>,
    response_type: AuthorizationResponseType,
    scope: ScopeSet,
    state: Option<String>,
}

/// A sequence for the content of an optional string, empty when absent.
pub open spec fn spec_opt_chars(o: Option<Seq<char>>) -> Seq<char> {
    match o {
        Some(s) => s,
        None => Seq::empty(),
    }
}

/// The query parameters of an authorization URL, in their serialized
/// order; `duration` is included only for the code response type.
pub open spec fn spec_query_pairs(b: AuthorizationUrlBuilder) -> Seq<(Seq<char>, Seq<char>)> {
    seq![("client_id"@, spec_opt_chars(b.spec_client_id()))] + (if b.spec_response_type()
        is Code {
        seq![("duration"@, spec_duration_name(b.spec_duration()))]
    } else {
        Seq::<(Seq<char>, Seq<char>)>::empty()
    }) + seq![
        ("redirect_uri"@, spec_opt_chars(b.spec_redirect_uri())),
        ("response_type"@, spec_response_type_name(b.spec_response_type())),
        ("scope"@, spec_join(b.spec_scope_seq())),
        ("state"@, spec_opt_chars(b.spec_state())),
    ]
}

impl AuthorizationUrlBuilder {
    /// The client identifier, once set.
    pub closed spec fn spec_client_id(&self) -> Option<Seq<char>> {
        match self.client_id {
            Some(ref s) => Some(s@),
            None => None,
        }
    }

    /// Whether the compact authorization page is requested.
    pub closed spec fn spec_compact(&self) -> bool {
        self.compact
    }

    /// The requested duration.
    pub closed spec fn spec_duration(&self) -> AuthorizationDuration {
        self.duration
    }

    /// The redirect URI, once set.
    pub closed spec fn spec_redirect_uri(&self) -> Option<Seq<char>> {
        match self.redirect_uri {
            Some(ref s) => Some(s@),
            None => None,
        }
    }

    /// The requested response type.
    pub closed spec fn spec_response_type(&self) -> AuthorizationResponseType {
        self.response_type
    }

    /// The requested scopes, in canonical order.
    pub closed spec fn spec_scope_seq(&self) -> Seq<Scope> {
        self.scope.to_seq()
    }

    /// The requested scopes as a set.
    pub closed spec fn spec_scope_set(&self) -> Set<Scope> {
        self.scope@
    }

    /// The state string, once set.
    pub closed spec fn spec_state(&self) -> Option<Seq<char>> {
        match self.state {
            Some(ref s) => Some(s@),
            None => None,
        }
    }

    /// The held scope set is well formed.
    pub closed spec fn well_formed(&self) -> bool {
        self.scope.well_formed()
    }

    /// The builder's scope sequence is the canonical ordering of its
    /// scope set: it holds exactly the set's members, without duplicates,
    /// strictly sorted by rank.
    pub proof fn lemma_scope_canonical(&self)
        requires
            self.well_formed(),
        ensures
            self.spec_scope_seq().to_set() == self.spec_scope_set(),
            forall|s: Scope|
                self.spec_scope_seq().contains(s) <==> self.spec_scope_set().contains(s),
            self.spec_scope_seq().no_duplicates(),
            spec_rank_sorted(self.spec_scope_seq()),
            self.spec_scope_seq().len() == self.spec_scope_set().len(),
    {
        self.scope.lemma_seq_set();
        self.scope.lemma_canonical_order();
    }

    /// The scope sequence — and with it the serialized scope parameter —
    /// is determined by the scope set alone.
    pub proof fn lemma_scope_determined(a: &AuthorizationUrlBuilder, b: &AuthorizationUrlBuilder)
        requires
            a.well_formed(),
            b.well_formed(),
            a.spec_scope_set() == b.spec_scope_set(),
        ensures
            a.spec_scope_seq() == b.spec_scope_seq(),
    {
        ScopeSet::lemma_canonical_unique(&a.scope, &b.scope);
    }

    /// All fields other than the scopes agree.
    pub open spec fn spec_same_but_scope(a: &AuthorizationUrlBuilder, b: &AuthorizationUrlBuilder) -> bool {
        &&& a.spec_client_id() == b.spec_client_id()
        &&& a.spec_compact() == b.spec_compact()
        &&& a.spec_duration() == b.spec_duration()
        &&& a.spec_redirect_uri() == b.spec_redirect_uri()
        &&& a.spec_response_type() == b.spec_response_type()
        &&& a.spec_state() == b.spec_state()
    }

    /// All scope-related fields agree.
    pub open spec fn spec_same_scope(a: &AuthorizationUrlBuilder, b: &AuthorizationUrlBuilder) -> bool {
        &&& a.spec_scope_seq() == b.spec_scope_seq()
        &&& a.spec_scope_set() == b.spec_scope_set()
    }

    /// Sets the required client identifier.
    pub fn client_id(self, client_id: String) -> (r: Self)
        ensures
            r.spec_client_id() == Some(client_id@),
            r.spec_compact() == self.spec_compact(),
            r.spec_duration() == self.spec_duration(),
            r.spec_redirect_uri() == self.spec_redirect_uri(),
            r.spec_response_type() == self.spec_response_type(),
            r.spec_state() == self.spec_state(),
            Self::spec_same_scope(&r, &self),
            self.well_formed() ==> r.well_formed(),
    {
        AuthorizationUrlBuilder { client_id: Some(client_id), ..self }
    }

    /// Sets whether the authorization page should cater to small screens.
    /// Off by default.
    pub fn compact(self, compact: bool) -> (r: Self)
        ensures
            r.spec_compact() == compact,
            r.spec_client_id() == self.spec_client_id(),
            r.spec_duration() == self.spec_duration(),
            r.spec_redirect_uri() == self.spec_redirect_uri(),
            r.spec_response_type() == self.spec_response_type(),
            r.spec_state() == self.spec_state(),
            Self::spec_same_scope(&r, &self),
            self.well_formed() ==> r.well_formed(),
    {
        AuthorizationUrlBuilder { compact, ..self }
    }

    /// Sets the authorization duration; ignored for the token response
    /// type.  Temporary by default.
    pub fn duration(self, duration: AuthorizationDuration) -> (r: Self)
        ensures
            r.spec_duration() == duration,
            r.spec_client_id() == self.spec_client_id(),
            r.spec_compact() == self.spec_compact(),
            r.spec_redirect_uri() == self.spec_redirect_uri(),
            r.spec_response_type() == self.spec_response_type(),
            r.spec_state() == self.spec_state(),
            Self::spec_same_scope(&r, &self),
            self.well_formed() ==> r.well_formed(),
    {
        AuthorizationUrlBuilder { duration, ..self }
    }

    /// Sets the required redirect URI; it must match the URI registered
    /// for the application.
    pub fn redirect_uri(self, redirect_uri: String) -> (r: Self)
        ensures
            r.spec_redirect_uri() == Some(redirect_uri@),
            r.spec_client_id() == self.spec_client_id(),
            r.spec_compact() == self.spec_compact(),
            r.spec_duration() == self.spec_duration(),
            r.spec_response_type() == self.spec_response_type(),
            r.spec_state() == self.spec_state(),
            Self::spec_same_scope(&r, &self),
            self.well_formed() ==> r.well_formed(),
    {
        AuthorizationUrlBuilder { redirect_uri: Some(redirect_uri), ..self }
    }

    /// Sets the response type.  Code by default.
    pub fn response_type(self, response_type: AuthorizationResponseType) -> (r: Self)
        ensures
            r.spec_response_type() == response_type,
            r.spec_client_id() == self.spec_client_id(),
            r.spec_compact() == self.spec_compact(),
            r.spec_duration() == self.spec_duration(),
            r.spec_redirect_uri() == self.spec_redirect_uri(),
            r.spec_state() == self.spec_state(),
            Self::spec_same_scope(&r, &self),
            self.well_formed() ==> r.well_formed(),
    {
        AuthorizationUrlBuilder { response_type, ..self }
    }

    /// Sets the scopes to request from the user.  An empty list falls back
    /// to the default scope set.
    pub fn scope(self, scopes: Vec<Scope>) -> (r: Self)
        ensures
            Self::spec_same_but_scope(&r, &self),
            r.well_formed(),
            r.spec_scope_set() == (if scopes@.len() == 0 {
                Set::<Scope>::empty().insert(Scope::Identity)
            } else {
                spec_fold_insert(Set::<Scope>::empty(), scopes@)
            }),
    {
        if scopes.len() == 0 {
            let scope = ScopeSet::default();
            AuthorizationUrlBuilder { scope, ..self }
        } else {
            let scope = collect_scopes(scopes);
            AuthorizationUrlBuilder { scope, ..self }
        }
    }

    /// Sets the required state string, echoed back in the redirect so the
    /// application can match the response to its request.
    pub fn state(self, state: String) -> (r: Self)
        ensures
            r.spec_state() == Some(state@),
            r.spec_client_id() == self.spec_client_id(),
            r.spec_compact() == self.spec_compact(),
            r.spec_duration() == self.spec_duration(),
            r.spec_redirect_uri() == self.spec_redirect_uri(),
            r.spec_response_type() == self.spec_response_type(),
            Self::spec_same_scope(&r, &self),
            self.well_formed() ==> r.well_formed(),
    {
        AuthorizationUrlBuilder { state: Some(state), ..self }
    }

    /// Builds the authorization URL: the authorization endpoint (compact
    /// or not) followed by the serialized query parameters.  The client
    /// identifier, redirect URI and state are required, and reported
    /// missing in that order.
    pub fn build(self) -> (r: Result<String, AuthorizationUrlError>)
        requires
            self.well_formed(),
        ensures
            if self.spec_client_id() is None {
                r == Err::<String, AuthorizationUrlError>(AuthorizationUrlError::MissingClientId)
            } else if self.spec_redirect_uri() is None {
                r == Err::<String, AuthorizationUrlError>(
                    AuthorizationUrlError::MissingRedirectUri,
                )
            } else if self.spec_state() is None {
                r == Err::<String, AuthorizationUrlError>(AuthorizationUrlError::MissingState)
            } else {
                r matches Ok(u) && u@ == spec_resource_url(
                    if self.spec_compact() {
                        Resource::AuthorizeCompact
                    } else {
                        Resource::Authorize
                    },
                ) + "?"@ + urlencoded_of(spec_query_pairs(self))
            },
    {
        let ghost input = self;
        let endpoint = if self.compact {
            Resource::AuthorizeCompact
        } else {
            Resource::Authorize
        };
        let client_id = match self.client_id {
            Some(s) => s,
            None => {
                return Err(AuthorizationUrlError::MissingClientId);
            },
        };
        let redirect_uri = match self.redirect_uri {
            Some(s) => s,
            None => {
                return Err(AuthorizationUrlError::MissingRedirectUri);
            },
        };
        let state = match self.state {
            Some(s) => s,
            None => {
                return Err(AuthorizationUrlError::MissingState);
            },
        };
        let mut pairs: Vec<(String, String)> = Vec::new();
        pairs.push((String::from_str("client_id"), client_id));
        if self.response_type.is_code() {
            pairs.push(
                (String::from_str("duration"), String::from_str(self.duration.as_str())),
            );
        }
        pairs.push((String::from_str("redirect_uri"), redirect_uri));
        pairs.push(
            (String::from_str("response_type"), String::from_str(self.response_type.as_str())),
        );
        pairs.push((String::from_str("scope"), self.scope.to_scope_string()));
        pairs.push((String::from_str("state"), state));
        proof {
            assert(spec_pairs_view(pairs@) =~= spec_query_pairs(input));
        }
        let query = urlencode_pairs(&pairs);
        let mut url = endpoint.url();
        url.append("?");
        url.append(query.as_str());
        Ok(url)
    }
}

impl AuthorizationResponseType {
    /// Whether this is the code response type.
    pub fn is_code(self) -> (r: bool)
        ensures
            r == (self is Code),
    {
        match self {
            AuthorizationResponseType::Code => true,
            AuthorizationResponseType::Token => false,
        }
    }
}

impl Default for AuthorizationUrlBuilder {
    /// An empty builder: code response type, temporary duration, the
    /// default scope set, and no page compaction.
    fn default() -> (r: AuthorizationUrlBuilder)
        ensures
            r.spec_client_id() is None,
            r.spec_compact() == false,
            r.spec_duration() == AuthorizationDuration::Temporary,
            r.spec_redirect_uri() is None,
            r.spec_response_type() == AuthorizationResponseType::Code,
            r.spec_scope_set() == Set::<Scope>::empty().insert(Scope::Identity),
            r.spec_scope_seq() == seq![Scope::Identity],
            r.spec_state() is None,
            r.well_formed(),
    {
        AuthorizationUrlBuilder {
            client_id: None,
            compact: false,
            duration: AuthorizationDuration::Temporary,
            redirect_uri: None,
            response_type: AuthorizationResponseType::Code,
            scope: ScopeSet::default(),
            state: None,
        }
    }
}

/// Folds a list of scopes into a set.
pub fn collect_scopes(scopes: Vec<Scope>) -> (r: ScopeSet)
    ensures
        r.well_formed(),
        r@ == spec_fold_insert(Set::<Scope>::empty(), scopes@),
{
    let n = scopes.len();
    let mut r = ScopeSet::new();
    let mut i: usize = 0;
    proof {
        assert(scopes@.skip(0) =~= scopes@);
    }
    while i < n
        invariant
            n == scopes@.len(),
            0 <= i <= n,
            r.well_formed(),
            spec_fold_insert(r@, scopes@.skip(i as int)) == spec_fold_insert(
                Set::<Scope>::empty(),
                scopes@,
            ),
        decreases n - i,
    {
        proof {
            let rest = scopes@.skip(i as int);
            assert(rest[0] == scopes@[i as int]);
            assert(rest.drop_first() =~= scopes@.skip(i as int + 1));
        }
        r.insert(scopes[i]);
        i += 1;
    }
    proof {
        assert(scopes@.skip(n as int) =~= Seq::<Scope>::empty());
    }
    r
}

} // verus!
