use oidc_pkce::oidc::{DiscoveryField, OIDCError, OIDC};

fn fresh() -> OIDC {
    OIDC::new("cust".to_string(), "app-id".to_string())
}

#[test]
fn new_starts_unresolved() {
    let m = fresh();
    assert_eq!(m.customer_id, "cust");
    assert_eq!(m.application_id, "app-id");
    assert_eq!(m.acr_values, "");
    assert_eq!(m.oidc_discovery_endpoint, "");
    assert_eq!(m.authorization_endpoint, "");
    assert_eq!(m.token_endpoint, "");
}

#[test]
fn discovery_url_is_templated_from_customer_id() {
    let m = fresh();
    assert_eq!(
        m.discovery_url(),
        "https://cust.cloud.com/api/discovery/configurations"
    );
}

#[test]
fn openid_configuration_url_is_fixed() {
    assert_eq!(
        OIDC::openid_configuration_url(),
        "https://accounts-internal.cloud.com/core/.well-known/openid-configuration"
    );
}

#[test]
fn discovery_reads_acr_values_and_endpoint() {
    let mut m = fresh();
    let body = r#"{"clientSettings":{"acr_values":"openid-acr","oidcConfiguration":{"oidc_discovery_endpoint":"https://p/d"}}}"#;
    let r = m.get_oidc_discovery_endpoint(200, body);
    assert!(r.is_ok());
    assert_eq!(m.acr_values, "openid-acr");
    assert_eq!(m.oidc_discovery_endpoint, "https://p/d");
}

#[test]
fn discovery_missing_acr_values_is_an_error() {
    let mut m = fresh();
    let body = r#"{"clientSettings":{"oidcConfiguration":{"oidc_discovery_endpoint":"https://p/d"}}}"#;
    let r = m.get_oidc_discovery_endpoint(200, body);
    assert_eq!(r, Err(OIDCError::MissingField(DiscoveryField::AcrValues)));
    assert_eq!(m.acr_values, "");
    assert_eq!(m.oidc_discovery_endpoint, "");
}

#[test]
fn discovery_non_string_acr_values_is_an_error() {
    let mut m = fresh();
    let body = r#"{"clientSettings":{"acr_values":7,"oidcConfiguration":{"oidc_discovery_endpoint":"https://p/d"}}}"#;
    let r = m.get_oidc_discovery_endpoint(200, body);
    assert_eq!(r, Err(OIDCError::MissingField(DiscoveryField::AcrValues)));
}

#[test]
fn discovery_empty_acr_values_is_an_error() {
    let mut m = fresh();
    let body = r#"{"clientSettings":{"acr_values":"","oidcConfiguration":{"oidc_discovery_endpoint":"https://p/d"}}}"#;
    let r = m.get_oidc_discovery_endpoint(200, body);
    assert_eq!(r, Err(OIDCError::MissingField(DiscoveryField::AcrValues)));
}

#[test]
fn discovery_missing_endpoint_is_an_error() {
    let mut m = fresh();
    let body = r#"{"clientSettings":{"acr_values":"openid-acr"}}"#;
    let r = m.get_oidc_discovery_endpoint(200, body);
    assert_eq!(
        r,
        Err(OIDCError::MissingField(DiscoveryField::OidcDiscoveryEndpoint))
    );
    assert_eq!(m.acr_values, "");
}

#[test]
fn discovery_bad_status_is_not_ok() {
    let mut m = fresh();
    let r = m.get_oidc_discovery_endpoint(500, "{}");
    assert_eq!(r, Err(OIDCError::NotOk));
}

#[test]
fn discovery_malformed_json_is_an_error() {
    let mut m = fresh();
    let r = m.get_oidc_discovery_endpoint(200, "{not json");
    assert_eq!(r, Err(OIDCError::JsonError));
}

#[test]
fn openid_configuration_reads_both_endpoints() {
    let mut m = fresh();
    let body = r#"{"authorization_endpoint":"https://idp/authorize","token_endpoint":"https://idp/token"}"#;
    let r = m.get_open_id_configuration(200, body);
    assert!(r.is_ok());
    assert_eq!(m.authorization_endpoint, "https://idp/authorize");
    assert_eq!(m.token_endpoint, "https://idp/token");
}

#[test]
fn openid_configuration_missing_authorization_endpoint() {
    let mut m = fresh();
    let body = r#"{"token_endpoint":"https://idp/token"}"#;
    let r = m.get_open_id_configuration(200, body);
    assert_eq!(
        r,
        Err(OIDCError::MissingField(DiscoveryField::AuthorizationEndpoint))
    );
    assert_eq!(m.token_endpoint, "");
}

#[test]
fn openid_configuration_missing_token_endpoint() {
    let mut m = fresh();
    let body = r#"{"authorization_endpoint":"https://idp/authorize"}"#;
    let r = m.get_open_id_configuration(200, body);
    assert_eq!(
        r,
        Err(OIDCError::MissingField(DiscoveryField::TokenEndpoint))
    );
}

#[test]
fn openid_configuration_bad_status_and_bad_json() {
    let mut m = fresh();
    assert_eq!(m.get_open_id_configuration(404, "{}"), Err(OIDCError::NotOk));
    assert_eq!(
        m.get_open_id_configuration(200, "]["),
        Err(OIDCError::JsonError)
    );
}
