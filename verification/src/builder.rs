//! Building a client: collects the application secrets, an optional
//! strategy or pre-supplied credential, and the user agent, then
//! constructs the authenticator.  The transport around it is the host's
//! affair.

use vstd::prelude::*;
use vstd::string::StringExecFns;

use crate::authentication::AppSecrets;
use crate::authentication::AuthFlow;
use crate::authentication::BearerToken;
use crate::authenticator::Authenticator;
use crate::authorization::collect_scopes;
use crate::error::SnooBuilderError;
use crate::scope::spec_fold_insert;
use crate::scope::Scope;

verus! {

/// The user-agent string for an application: its identifier, version and
/// operating user in the conventional format.
pub open spec fn spec_user_agent(app_id: Seq<char>, app_version: Seq<char>, username: Seq<char>) -> Seq<char> {
    "snoo-rs:"@ + app_id + ":"@ + app_version + " (/u/"@ + username + ")"@
}

/// A builder for a client: everything the authenticator needs, collected
/// step by step.
#[derive(Debug)]
pub struct SnooBuilder {
    app_secrets: Option<AppSecrets>,
    auth_flow: Option<AuthFlow>,
    bearer_token: Option<BearerToken>,
    user_agent: Option<String>,
}

impl SnooBuilder {
    /// The collected application secrets.
    pub closed spec fn spec_app_secrets(&self) -> Option<AppSecrets> {
        self.app_secrets
    }

    /// The collected strategy.
    pub closed spec fn spec_auth_flow(&self) -> Option<AuthFlow> {
        self.auth_flow
    }

    /// The collected pre-supplied credential.
    pub closed spec fn spec_bearer_token(&self) -> Option<BearerToken> {
        self.bearer_token
    }

    /// The collected user agent.
    pub closed spec fn spec_user_agent_str(&self) -> Option<Seq<char>> {
        match self.user_agent {
            Some(ref s) => Some(s@),
            None => None,
        }
    }

    /// Whatever has been collected is well formed.
    pub closed spec fn well_formed(&self) -> bool {
        &&& match self.auth_flow {
            Some(ref f) => f.well_formed(),
            None => true,
        }
        &&& match self.bearer_token {
            Some(ref t) => t.well_formed(),
            None => true,
        }
    }

    /// Sets the application secrets.
    pub fn app_secrets(self, client_id: String, client_secret: Option<String>) -> (r: Self)
        ensures
            r.spec_app_secrets() matches Some(s) && s.spec_client_id() == client_id@
                && s.spec_client_secret() == (match client_secret {
                Some(cs) => Some(cs@),
                None => None::<Seq<char>>,
            }),
            r.spec_auth_flow() == self.spec_auth_flow(),
            r.spec_bearer_token() == self.spec_bearer_token(),
            r.spec_user_agent_str() == self.spec_user_agent_str(),
            self.well_formed() ==> r.well_formed(),
    {
        let app_secrets = AppSecrets::new(client_id, client_secret);
        SnooBuilder { app_secrets: Some(app_secrets), ..self }
    }

    /// Supplies an already-obtained credential.
    pub fn bearer_token(self, bearer_token: BearerToken) -> (r: Self)
        requires
            bearer_token.well_formed(),
        ensures
            r.spec_bearer_token() == Some(bearer_token),
            r.spec_app_secrets() == self.spec_app_secrets(),
            r.spec_auth_flow() == self.spec_auth_flow(),
            r.spec_user_agent_str() == self.spec_user_agent_str(),
            self.well_formed() ==> r.well_formed(),
    {
        SnooBuilder { bearer_token: Some(bearer_token), ..self }
    }

    /// Authenticates by exchanging a one-time authorization code.
    pub fn code_auth(self, code: String, redirect_uri: String, scope: Vec<Scope>) -> (r: Self)
        ensures
            r.spec_auth_flow() matches Some(f) && f matches AuthFlow::Code {
                code: c,
                redirect_uri: u,
                scope: s,
            } && c@ == code@ && u@ == redirect_uri@ && s.well_formed() && s@ == spec_fold_insert(
                Set::<Scope>::empty(),
                scope@,
            ),
            r.spec_app_secrets() == self.spec_app_secrets(),
            r.spec_bearer_token() == self.spec_bearer_token(),
            r.spec_user_agent_str() == self.spec_user_agent_str(),
            self.well_formed() ==> r.well_formed(),
    {
        let auth_flow = AuthFlow::Code { code, redirect_uri, scope: collect_scopes(scope) };
        SnooBuilder { auth_flow: Some(auth_flow), ..self }
    }

    /// Authenticates on behalf of a user with their name and password.
    pub fn password_auth(self, username: String, password: String, scope: Vec<Scope>) -> (r: Self)
        ensures
            r.spec_auth_flow() matches Some(f) && f matches AuthFlow::Password {
                username: un,
                password: pw,
                scope: s,
            } && un@ == username@ && pw@ == password@ && s.well_formed() && s@
                == spec_fold_insert(Set::<Scope>::empty(), scope@),
            r.spec_app_secrets() == self.spec_app_secrets(),
            r.spec_bearer_token() == self.spec_bearer_token(),
            r.spec_user_agent_str() == self.spec_user_agent_str(),
            self.well_formed() ==> r.well_formed(),
    {
        let auth_flow = AuthFlow::Password {
            username,
            password,
            scope: collect_scopes(scope),
        };
        SnooBuilder { auth_flow: Some(auth_flow), ..self }
    }

    /// Authenticates by exchanging a refresh token.
    pub fn refresh_token_auth(self, refresh_token: String) -> (r: Self)
        ensures
            r.spec_auth_flow() matches Some(f) && f matches AuthFlow::RefreshToken(t) && t@
                == refresh_token@,
            r.spec_app_secrets() == self.spec_app_secrets(),
            r.spec_bearer_token() == self.spec_bearer_token(),
            r.spec_user_agent_str() == self.spec_user_agent_str(),
            self.well_formed() ==> r.well_formed(),
    {
        SnooBuilder { auth_flow: Some(AuthFlow::RefreshToken(refresh_token)), ..self }
    }

    /// Sets the user agent from the application's identifier, version and
    /// operating user.
    pub fn user_agent(self, app_id: &str, app_version: &str, username: &str) -> (r: Self)
        ensures
            r.spec_user_agent_str() == Some(spec_user_agent(app_id@, app_version@, username@)),
            r.spec_app_secrets() == self.spec_app_secrets(),
            r.spec_auth_flow() == self.spec_auth_flow(),
            r.spec_bearer_token() == self.spec_bearer_token(),
            self.well_formed() ==> r.well_formed(),
    {
        let mut ua = String::from_str("snoo-rs:");
        ua.append(app_id);
        ua.append(":");
        ua.append(app_version);
        ua.append(" (/u/");
        ua.append(username);
        ua.append(")");
        proof {
            assert(ua@ =~= spec_user_agent(app_id@, app_version@, username@));
        }
        SnooBuilder { user_agent: Some(ua), ..self }
    }

    /// Builds the authenticator and the user agent the transport must
    /// send.  The secrets and the user agent are required, in that order
    /// of reporting; the authenticator itself requires a credential or a
    /// strategy.
    pub fn build(self) -> (r: Result<(Authenticator, String), SnooBuilderError>)
        requires
            self.well_formed(),
        ensures
            if self.spec_app_secrets() is None {
                r == Err::<(Authenticator, String), SnooBuilderError>(
                    SnooBuilderError::MissingAppSecrets,
                )
            } else if self.spec_user_agent_str() is None {
                r == Err::<(Authenticator, String), SnooBuilderError>(
                    SnooBuilderError::MissingUserAgent,
                )
            } else if self.spec_bearer_token() is None && self.spec_auth_flow() is None {
                r == Err::<(Authenticator, String), SnooBuilderError>(
                    SnooBuilderError::MissingAuthFlow,
                )
            } else {
                &&& r matches Ok(p)
                &&& Some(p.1@) == self.spec_user_agent_str()
                &&& p.0.well_formed()
                &&& Some(p.0.spec_secrets()) == self.spec_app_secrets()
                &&& p.0.spec_generation() == 0
                &&& match self.spec_bearer_token() {
                    Some(t) => p.0.spec_acquisition()
                        == crate::acquisition::BearerTokenFuture::Fixed(Some(t)),
                    None => p.0.spec_acquisition() is Pending,
                }
                &&& p.0.spec_flow() == (match self.spec_auth_flow() {
                    Some(f) => if f is Password {
                        Some(f)
                    } else {
                        None::<AuthFlow>
                    },
                    None => None::<AuthFlow>,
                })
            },
    {
        let app_secrets = match self.app_secrets {
            Some(s) => s,
            None => {
                return Err(SnooBuilderError::MissingAppSecrets);
            },
        };
        let user_agent = match self.user_agent {
            Some(s) => s,
            None => {
                return Err(SnooBuilderError::MissingUserAgent);
            },
        };
        match Authenticator::new(app_secrets, self.auth_flow, self.bearer_token) {
            Ok(authenticator) => Ok((authenticator, user_agent)),
            Err(e) => Err(e),
        }
    }
}

impl Default for SnooBuilder {
    /// An empty builder.
    fn default() -> (r: SnooBuilder)
        ensures
            r.spec_app_secrets() is None,
            r.spec_auth_flow() is None,
            r.spec_bearer_token() is None,
            r.spec_user_agent_str() is None,
            r.well_formed(),
    {
        SnooBuilder { app_secrets: None, auth_flow: None, bearer_token: None, user_agent: None }
    }
}

} // verus!
