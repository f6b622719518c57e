use vstd::prelude::*;

use crate::clock::Timestamp;
use crate::config::{spec_sso_config_from_profile, ProfileLookup};
use crate::error::CredentialsError;
use crate::exchange::{
    is_missing_field_error, spec_credentials_from_role, ResolvedCredentials, RoleCredentials,
    ACCESS_KEY_ID_FIELD, SECRET_ACCESS_KEY_FIELD, SESSION_TOKEN_FIELD,
};
use crate::provider::{spec_step, Action, Event, SSOProviderState};
use crate::token_cache::{spec_accept_cached_token, CachedSSOToken};

verus! {

/// A profile that could not be loaded, is empty, or lacks any of the four
/// single-sign-on keys ends the request with `CredentialsNotLoaded` and
/// leaves the provider unconfigured: no token file is read and no exchange
/// is asked for. Before the profile is read, nothing else is asked for.
pub proof fn lemma_incomplete_profile_declines(
    s: SSOProviderState,
    profile: Option<ProfileLookup>,
    now: Timestamp,
)
    requires
        s.sso_config is None,
        profile matches Some(p) ==> (p.is_empty || p.account_id is None || p.role_name is None
            || p.region is None || p.start_url is None),
    ensures
        spec_step(s, Event::Begin, now) == (s, Action::LoadProfile),
        spec_step(s, Event::ProfileLoaded(profile), now) == (s, Action::Finish(
            Err(CredentialsError::CredentialsNotLoaded),
        )),
{
    assert(spec_sso_config_from_profile(profile) == Err::<crate::config::SSOConfig, CredentialsError>(
        CredentialsError::CredentialsNotLoaded,
    ));
}

/// With the settings loaded, a token file that is missing, unreadable,
/// expired or holds an empty access token ends the request with
/// `CredentialsNotLoaded`, and no exchange is asked for.
pub proof fn lemma_unusable_token_declines(
    s: SSOProviderState,
    token: Option<CachedSSOToken>,
    now: Timestamp,
)
    requires
        s.sso_config is Some,
        token matches Some(t) ==> (t.access_token@.len() == 0 || !now.spec_is_before(t.expires_at)),
    ensures
        spec_step(s, Event::TokenLoaded(token), now).1 == Action::Finish(
            Err::<ResolvedCredentials, CredentialsError>(CredentialsError::CredentialsNotLoaded),
        ),
        spec_step(s, Event::TokenLoaded(token), now).0.cached_token is None,
{
    assert(spec_accept_cached_token(token, now) is None);
}

/// The settings are loaded at most once per provider: once known, no event
/// changes them or asks for the profile again. A profile that holds all four
/// keys is kept.
pub proof fn lemma_profile_loaded_once(
    s: SSOProviderState,
    event: Event,
    profile: Option<ProfileLookup>,
    now: Timestamp,
)
    ensures
        s.sso_config is Some ==> spec_step(s, event, now).0.sso_config == s.sso_config,
        s.sso_config is Some ==> spec_step(s, event, now).1 !is LoadProfile,
        s.sso_config is None ==> (spec_sso_config_from_profile(profile) matches Ok(c)
            ==> spec_step(s, Event::ProfileLoaded(profile), now).0.sso_config == Some(c)),
{
}

/// A payload with all three fields becomes a credential that expires at
/// exactly the returned number of seconds after the epoch.
pub proof fn lemma_expiration_without_drift(
    rc: RoleCredentials,
    r: Result<ResolvedCredentials, CredentialsError>,
)
    requires
        rc.access_key_id is Some,
        rc.secret_access_key is Some,
        rc.session_token is Some,
        spec_credentials_from_role(rc, r),
    ensures
        r matches Ok(c) && c.expiration.secs == rc.expiration && c.expiration.nanos == 0,
{
}

/// A payload that lacks exactly one of the three fields fails with an error
/// naming that field.
pub proof fn lemma_single_missing_field_named(
    rc: RoleCredentials,
    r: Result<ResolvedCredentials, CredentialsError>,
)
    requires
        spec_credentials_from_role(rc, r),
        (rc.access_key_id is None) as int + (rc.secret_access_key is None) as int + (
        rc.session_token is None) as int == 1,
    ensures
        rc.access_key_id is None ==> (r matches Err(e) && is_missing_field_error(
            e,
            ACCESS_KEY_ID_FIELD@,
        )),
        rc.secret_access_key is None ==> (r matches Err(e) && is_missing_field_error(
            e,
            SECRET_ACCESS_KEY_FIELD@,
        )),
        rc.session_token is None ==> (r matches Err(e) && is_missing_field_error(
            e,
            SESSION_TOKEN_FIELD@,
        )),
{
}

} // verus!
