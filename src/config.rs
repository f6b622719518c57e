use vstd::prelude::*;

use crate::error::CredentialsError;

verus! {

/// Profile key of the account that owns the role.
pub const SSO_ACCOUNT_ID_KEY: &'static str = "sso_account_id";

/// Profile key of the role to assume.
pub const SSO_ROLE_NAME_KEY: &'static str = "sso_role_name";

/// Profile key of the region of the role-credential service.
pub const SSO_REGION_KEY: &'static str = "sso_region";

/// Profile key of the start URL of the single-sign-on portal.
pub const SSO_START_URL_KEY: &'static str = "sso_start_url";

/// What the active profile holds under each of the four single-sign-on keys,
/// and whether the profile set was empty.
#[derive(Clone, Debug)]
pub struct ProfileLookup {
    pub is_empty: bool,
    pub account_id: Option<String>,
    pub role_name: Option<String>,
    pub region: Option<String>,
    pub start_url: Option<String>,
}

/// The single-sign-on settings of the active profile.
#[derive(Clone, Debug)]
pub struct SSOConfig {
    pub sso_account_id: String,
    pub sso_role_name: String,
    pub sso_region: String,
    pub sso_start_url: String,
}

/// The settings that a profile lookup yields: all four fields when the
/// profile set loaded, is not empty and holds every key; otherwise the
/// request is declined.
pub open spec fn spec_sso_config_from_profile(profile: Option<ProfileLookup>) -> Result<
    SSOConfig,
    CredentialsError,
> {
    match profile {
        Some(p) => if !p.is_empty && p.account_id is Some && p.role_name is Some && p.region is Some
            && p.start_url is Some {
            Ok(
                SSOConfig {
                    sso_account_id: p.account_id->0,
                    sso_role_name: p.role_name->0,
                    sso_region: p.region->0,
                    sso_start_url: p.start_url->0,
                },
            )
        } else {
            Err(CredentialsError::CredentialsNotLoaded)
        },
        None => Err(CredentialsError::CredentialsNotLoaded),
    }
}

/// Extracts the single-sign-on settings from the profile; `None` stands for
/// a profile set that could not be loaded.
pub fn sso_config_from_profile(profile: Option<ProfileLookup>) -> (r: Result<
    SSOConfig,
    CredentialsError,
>)
    ensures
        r == spec_sso_config_from_profile(profile),
{
    let p = match profile {
        Some(p) => p,
        None => return Err(CredentialsError::CredentialsNotLoaded),
    };
    if p.is_empty {
        return Err(CredentialsError::CredentialsNotLoaded);
    }
    if let Some(sso_account_id) = p.account_id {
        if let Some(sso_role_name) = p.role_name {
            if let Some(sso_region) = p.region {
                if let Some(sso_start_url) = p.start_url {
                    return Ok(SSOConfig { sso_account_id, sso_role_name, sso_region, sso_start_url });
                }
            }
        }
    }
    Err(CredentialsError::CredentialsNotLoaded)
}

} // verus!
