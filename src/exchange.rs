use vstd::prelude::*;

use crate::clock::Timestamp;
use crate::config::SSOConfig;
use crate::error::{CredentialsError, SSOProviderError};

verus! {

/// Source label carried by every credential this library produces.
pub const PROVIDER_NAME: &'static str = "sso";

/// Name reported when the access key id is missing.
pub const ACCESS_KEY_ID_FIELD: &'static str = "access_key_id";

/// Name reported when the secret access key is missing.
pub const SECRET_ACCESS_KEY_FIELD: &'static str = "secret_access_key";

/// Name reported when the session token is missing.
pub const SESSION_TOKEN_FIELD: &'static str = "session_token";

/// The request to send to the role-credential service of `region`.
#[derive(Clone, Debug)]
pub struct ExchangeRequest {
    pub region: String,
    pub account_id: String,
    pub role_name: String,
    pub access_token: String,
}

/// The role credentials as the service returned them; any field may be
/// missing. `expiration` is in seconds since the Unix epoch.
#[derive(Clone, Debug)]
pub struct RoleCredentials {
    pub access_key_id: Option<String>,
    pub secret_access_key: Option<String>,
    pub session_token: Option<String>,
    pub expiration: i64,
}

/// Temporary credentials handed to the caller.
#[derive(Clone, Debug)]
pub struct ResolvedCredentials {
    pub access_key_id: String,
    pub secret_access_key: String,
    pub session_token: String,
    pub expiration: Timestamp,
    pub provider_name: String,
}

/// The request made with the settings `config` and the session token
/// `access_token`.
pub open spec fn spec_exchange_request(config: SSOConfig, access_token: String) -> ExchangeRequest {
    ExchangeRequest {
        region: config.sso_region,
        account_id: config.sso_account_id,
        role_name: config.sso_role_name,
        access_token: access_token,
    }
}

/// Builds the request for the role-credential service.
pub fn exchange_request(config: &SSOConfig, access_token: &String) -> (r: ExchangeRequest)
    ensures
        r == spec_exchange_request(*config, *access_token),
{
    ExchangeRequest {
        region: config.sso_region.clone(),
        account_id: config.sso_account_id.clone(),
        role_name: config.sso_role_name.clone(),
        access_token: access_token.clone(),
    }
}

/// The error for a missing field named `field`.
pub open spec fn is_missing_field_error(e: CredentialsError, field: Seq<char>) -> bool {
    e matches CredentialsError::Unhandled(SSOProviderError::RequiredConfigMissing(name))
        && name@ == field
}

/// What a role-credentials payload becomes: the first missing field among
/// access key id, secret access key and session token, in that order, is
/// reported; with all three present the credential expires at exactly
/// `expiration` seconds after the epoch and is labelled with the provider's
/// name.
pub open spec fn spec_credentials_from_role(
    rc: RoleCredentials,
    r: Result<ResolvedCredentials, CredentialsError>,
) -> bool {
    if rc.access_key_id is None {
        r matches Err(e) && is_missing_field_error(e, ACCESS_KEY_ID_FIELD@)
    } else if rc.secret_access_key is None {
        r matches Err(e) && is_missing_field_error(e, SECRET_ACCESS_KEY_FIELD@)
    } else if rc.session_token is None {
        r matches Err(e) && is_missing_field_error(e, SESSION_TOKEN_FIELD@)
    } else {
        r matches Ok(c) && c.access_key_id == rc.access_key_id->0 && c.secret_access_key
            == rc.secret_access_key->0 && c.session_token == rc.session_token->0 && c.expiration
            == (Timestamp { secs: rc.expiration, nanos: 0 }) && c.provider_name@ == PROVIDER_NAME@
    }
}

fn missing_field(field: &str) -> (e: CredentialsError)
    ensures
        is_missing_field_error(e, field@),
{
    CredentialsError::Unhandled(SSOProviderError::RequiredConfigMissing(field.to_owned()))
}

/// Turns a role-credentials payload into a credential, or names the first
/// missing field.
pub fn credentials_from_role(rc: RoleCredentials) -> (r: Result<ResolvedCredentials, CredentialsError>)
    ensures
        spec_credentials_from_role(rc, r),
{
    let expiration = Timestamp::from_epoch_seconds(rc.expiration);
    let access_key_id = match rc.access_key_id {
        Some(v) => v,
        None => return Err(missing_field(ACCESS_KEY_ID_FIELD)),
    };
    let secret_access_key = match rc.secret_access_key {
        Some(v) => v,
        None => return Err(missing_field(SECRET_ACCESS_KEY_FIELD)),
    };
    let session_token = match rc.session_token {
        Some(v) => v,
        None => return Err(missing_field(SESSION_TOKEN_FIELD)),
    };
    Ok(
        ResolvedCredentials {
            access_key_id,
            secret_access_key,
            session_token,
            expiration,
            provider_name: PROVIDER_NAME.to_owned(),
        },
    )
}

/// What the outcome of a call to the role-credential service becomes: a
/// failed call is a provider error carrying its description, an answer
/// without payload declines the request, and a payload is mapped as in
/// `spec_credentials_from_role`.
pub open spec fn spec_credentials_from_response(
    response: Result<Option<RoleCredentials>, String>,
    r: Result<ResolvedCredentials, CredentialsError>,
) -> bool {
    match response {
        Err(description) => r == Err::<ResolvedCredentials, CredentialsError>(
            CredentialsError::ProviderError(description),
        ),
        Ok(None) => r == Err::<ResolvedCredentials, CredentialsError>(
            CredentialsError::CredentialsNotLoaded,
        ),
        Ok(Some(rc)) => spec_credentials_from_role(rc, r),
    }
}

/// Maps the outcome of a call to the role-credential service.
pub fn credentials_from_response(response: Result<Option<RoleCredentials>, String>) -> (r: Result<
    ResolvedCredentials,
    CredentialsError,
>)
    ensures
        spec_credentials_from_response(response, r),
{
    match response {
        Err(description) => Err(CredentialsError::ProviderError(description)),
        Ok(None) => Err(CredentialsError::CredentialsNotLoaded),
        Ok(Some(rc)) => credentials_from_role(rc),
    }
}

} // verus!
