//! Resolution of temporary role credentials from a cached single-sign-on
//! session token.
//!
//! The library holds the decisions: where the cached token lives, when a
//! cached token may be used, which profile settings are needed, how the
//! answer of the role-credential service becomes a credential, and the
//! per-request state machine of the provider. The caller performs the file
//! reads and network calls that the state machine asks for.

pub mod clock;
pub mod config;
pub mod error;
pub mod exchange;
pub mod laws;
pub mod provider;
pub mod token_cache;

pub use clock::Timestamp;
pub use config::{sso_config_from_profile, ProfileLookup, SSOConfig};
pub use error::{CredentialsError, SSOProviderError};
pub use token_cache::{accept_cached_token, get_cache_filename, CachedSSOToken};
