//! An OAuth2 client-credential manager for the Reddit API.
//!
//! The crate centres on an `Authenticator` that caches a bearer credential,
//! decides when it must be renewed, and describes the token-endpoint exchange
//! that a host drives over its own transport.

pub mod acquisition;
pub mod api;
pub mod authenticator;
pub mod authentication;
pub mod authorization;
pub mod builder;
mod encode;
pub mod error;
pub mod scope;

pub use acquisition::BearerTokenFuture;
pub use acquisition::BearerTokenPoll;
pub use acquisition::ExchangeOutcome;
pub use acquisition::TokenRequest;
pub use api::Resource;
pub use authentication::AppSecrets;
pub use authentication::AuthFlow;
pub use authentication::BearerToken;
pub use authenticator::Authenticator;
pub use authenticator::SharedBearerTokenFuture;
pub use authorization::AuthorizationDuration;
pub use authorization::AuthorizationResponseType;
pub use authorization::AuthorizationUrlBuilder;
pub use authorization::AuthorizationUrlError;
pub use builder::SnooBuilder;
pub use error::SnooBuilderError;
pub use error::SnooError;
pub use error::SnooErrorKind;
pub use scope::Scope;
pub use scope::ScopeSet;
