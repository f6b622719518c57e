use sso_credentials::exchange::{
    credentials_from_response, credentials_from_role, exchange_request, RoleCredentials,
};
use sso_credentials::{CredentialsError, SSOConfig, SSOProviderError, Timestamp};

fn full_role() -> RoleCredentials {
    RoleCredentials {
        access_key_id: Some("AKIDEXAMPLE".to_string()),
        secret_access_key: Some("secret".to_string()),
        session_token: Some("session".to_string()),
        expiration: 1_700_003_600,
    }
}

fn missing(field: &str) -> CredentialsError {
    CredentialsError::Unhandled(SSOProviderError::RequiredConfigMissing(field.to_string()))
}

#[test]
fn full_payload_becomes_credentials() {
    let c = credentials_from_role(full_role()).unwrap();
    assert_eq!(c.access_key_id, "AKIDEXAMPLE");
    assert_eq!(c.secret_access_key, "secret");
    assert_eq!(c.session_token, "session");
    assert_eq!(c.expiration, Timestamp { secs: 1_700_003_600, nanos: 0 });
    assert_eq!(c.provider_name, "sso");
}

#[test]
fn negative_expiration_is_kept_exactly() {
    let mut rc = full_role();
    rc.expiration = -7;
    assert_eq!(credentials_from_role(rc).unwrap().expiration, Timestamp { secs: -7, nanos: 0 });
}

#[test]
fn missing_access_key_id_is_named() {
    let mut rc = full_role();
    rc.access_key_id = None;
    assert_eq!(credentials_from_role(rc).unwrap_err(), missing("access_key_id"));
}

#[test]
fn missing_secret_access_key_is_named() {
    let mut rc = full_role();
    rc.secret_access_key = None;
    assert_eq!(credentials_from_role(rc).unwrap_err(), missing("secret_access_key"));
}

#[test]
fn missing_session_token_is_named() {
    let mut rc = full_role();
    rc.session_token = None;
    assert_eq!(credentials_from_role(rc).unwrap_err(), missing("session_token"));
}

#[test]
fn first_missing_field_is_reported() {
    let rc = RoleCredentials {
        access_key_id: Some("a".to_string()),
        secret_access_key: None,
        session_token: None,
        expiration: 0,
    };
    assert_eq!(credentials_from_role(rc).unwrap_err(), missing("secret_access_key"));
}

#[test]
fn failed_call_is_a_provider_error() {
    let r = credentials_from_response(Err("connection refused".to_string()));
    assert_eq!(r.unwrap_err(), CredentialsError::ProviderError("connection refused".to_string()));
}

#[test]
fn empty_answer_declines() {
    assert_eq!(credentials_from_response(Ok(None)).unwrap_err(), CredentialsError::CredentialsNotLoaded);
}

#[test]
fn payload_answer_is_mapped() {
    let c = credentials_from_response(Ok(Some(full_role()))).unwrap();
    assert_eq!(c.expiration.secs, 1_700_003_600);
}

#[test]
fn request_carries_settings_and_token() {
    let config = SSOConfig {
        sso_account_id: "123456789012".to_string(),
        sso_role_name: "Admin".to_string(),
        sso_region: "eu-west-1".to_string(),
        sso_start_url: "https://x.awsapps.com/start".to_string(),
    };
    let req = exchange_request(&config, &"tok".to_string());
    assert_eq!(req.region, "eu-west-1");
    assert_eq!(req.account_id, "123456789012");
    assert_eq!(req.role_name, "Admin");
    assert_eq!(req.access_token, "tok");
}

#[test]
fn error_message_names_the_field() {
    let e = SSOProviderError::RequiredConfigMissing("session_token".to_string());
    assert_eq!(e.message(), "SSOProviderError: Missing required config: session_token");
}
