use oidc_pkce::listener::{handle_request, parse_query, CallbackSlot};
use oidc_pkce::oauth2_client::{OAuth2Client, OAuthError};
use oidc_pkce::oidc::OIDC;
use oidc_pkce::pkce::pkce_challenge;

fn client() -> OAuth2Client {
    OAuth2Client::new(
        "cid".to_string(),
        "".to_string(),
        "http://localhost:8080/".to_string(),
        "https://idp/authorize".to_string(),
        "https://idp/token".to_string(),
        "acr1".to_string(),
    )
}

#[test]
fn new_client_has_empty_flow_state() {
    let c = client();
    assert_eq!(c.client_id, "cid");
    assert_eq!(c.state, "");
    assert_eq!(c.code_verifier, "");
    assert_eq!(c.code_challenge, "");
    assert_eq!(c.authorization_code, "");
    assert_eq!(c.access_token, "");
}

#[test]
fn prepare_authorization_draws_fresh_secrets() {
    let mut c = client();
    c.prepare_authorization();
    assert_eq!(c.code_verifier.len(), 128);
    assert!(c.code_verifier.chars().all(|ch| ch.is_ascii_alphanumeric()));
    assert_eq!(c.state.len(), 32);
    assert!(c.state.chars().all(|ch| ch.is_ascii_alphanumeric()));
    assert_eq!(c.code_challenge, pkce_challenge(&c.code_verifier));
}

#[test]
fn authorization_params_are_exactly_the_protocol_set() {
    let mut c = client();
    c.code_challenge = "CH".to_string();
    c.state = "ST".to_string();
    let ps = c.authorization_request_params();
    let expected: Vec<(String, String)> = vec![
        ("response_type".into(), "code".into()),
        ("client_id".into(), "cid".into()),
        ("redirect_uri".into(), "http://localhost:8080/".into()),
        ("acr_values".into(), "acr1".into()),
        ("prompt".into(), "Login".into()),
        ("scope".into(), "openid wsp spa leases".into()),
        ("code_challenge".into(), "CH".into()),
        ("code_challenge_method".into(), "S256".into()),
        ("response_mode".into(), "form_post".into()),
        ("state".into(), "ST".into()),
    ];
    assert_eq!(ps, expected);
}

#[test]
fn authorization_url_is_endpoint_plus_encoded_query() {
    let mut c = client();
    c.code_challenge = "CH".to_string();
    c.state = "ST".to_string();
    let url = c.build_authorization_url();
    let expected = "https://idp/authorize?response_type=code&client_id=cid&redirect_uri=http%3A%2F%2Flocalhost%3A8080%2F&acr_values=acr1&prompt=Login&scope=openid%20wsp%20spa%20leases&code_challenge=CH&code_challenge_method=S256&response_mode=form_post&state=ST";
    assert_eq!(url, expected);
}

#[test]
fn token_body_omits_secret_for_public_clients() {
    let mut c = client();
    c.authorization_code = "AC".to_string();
    c.code_verifier = "VER".to_string();
    let body = c.token_request_body();
    assert_eq!(
        body,
        "grant_type=authorization_code&code=AC&redirect_uri=http%3A%2F%2Flocalhost%3A8080%2F&client_id=cid&code_verifier=VER"
    );
}

#[test]
fn token_body_includes_secret_for_confidential_clients() {
    let mut c = client();
    c.client_secret = "s3cr3t".to_string();
    c.authorization_code = "AC".to_string();
    c.code_verifier = "VER".to_string();
    let body = c.token_request_body();
    assert!(body.ends_with("&client_secret=s3cr3t"));
}

#[test]
fn state_mismatch_fails_even_with_a_code() {
    let mut c = client();
    c.state = "expected".to_string();
    let params = parse_query("code=ABC&state=other");
    let mut slot = CallbackSlot::new();
    handle_request(&mut slot, &params);
    let r = c.complete_authorization(slot.result.unwrap());
    assert_eq!(r, Err(OAuthError::StateMismatch));
    assert_eq!(c.authorization_code, "");
}

#[test]
fn missing_state_counts_as_a_mismatch() {
    let mut c = client();
    c.state = "expected".to_string();
    let params = parse_query("code=ABC");
    let mut slot = CallbackSlot::new();
    handle_request(&mut slot, &params);
    let r = c.complete_authorization(slot.result.unwrap());
    assert_eq!(r, Err(OAuthError::StateMismatch));
}

#[test]
fn missing_code_is_a_code_error() {
    let mut c = client();
    let params = parse_query("state=whatever");
    let r = c.complete_authorization(oidc_pkce::listener::callback_outcome(&params));
    assert_eq!(r, Err(OAuthError::CodeErr));
}

#[test]
fn matching_state_stores_the_code() {
    let mut c = client();
    c.state = "S1".to_string();
    let params = parse_query("code=ABC&state=S1");
    let mut slot = CallbackSlot::new();
    handle_request(&mut slot, &params);
    let r = c.complete_authorization(slot.result.unwrap());
    assert_eq!(r, Ok(()));
    assert_eq!(c.authorization_code, "ABC");
}

#[test]
fn retrieve_token_reads_a_token_set() {
    let mut c = client();
    let body = r#"{"access_token":"tok","token_type":"Bearer","expires_in":3600}"#;
    let t = c.retrieve_token(200, body).expect("exchange should succeed");
    assert_eq!(t.access_token, "tok");
    assert_eq!(t.token_type, "Bearer");
    assert_eq!(t.expires_in, 3600);
    assert_eq!(t.refresh_token, None);
    assert_eq!(t.id_token, None);
    assert_eq!(c.get_access_token(), "tok");
}

#[test]
fn retrieve_token_reads_optional_tokens() {
    let mut c = client();
    let body = r#"{"access_token":"tok","token_type":"Bearer","expires_in":1,"refresh_token":"r1","id_token":"i1"}"#;
    let t = c.retrieve_token(200, body).unwrap();
    assert_eq!(t.refresh_token.as_deref(), Some("r1"));
    assert_eq!(t.id_token.as_deref(), Some("i1"));
}

#[test]
fn retrieve_token_carries_the_provider_error_payload() {
    let mut c = client();
    let r = c.retrieve_token(400, r#"{"error":"invalid_grant"}"#);
    assert_eq!(
        r.unwrap_err(),
        OAuthError::TokenExchange(Some("invalid_grant".to_string()))
    );
    assert_eq!(c.access_token, "");
}

#[test]
fn retrieve_token_carries_the_payload_on_a_200_error_body() {
    let mut c = client();
    let r = c.retrieve_token(200, r#"{"error":"bad_request"}"#);
    assert_eq!(
        r.unwrap_err(),
        OAuthError::TokenExchange(Some("bad_request".to_string()))
    );
}

#[test]
fn retrieve_token_rejects_bodies_without_a_token_set() {
    let mut c = client();
    assert_eq!(
        c.retrieve_token(200, "{not json").unwrap_err(),
        OAuthError::TokenExchange(None)
    );
    assert_eq!(
        c.retrieve_token(200, r#"{"token_type":"Bearer"}"#).unwrap_err(),
        OAuthError::TokenExchange(None)
    );
    assert_eq!(
        c.retrieve_token(200, r#"{"access_token":""}"#).unwrap_err(),
        OAuthError::TokenExchange(None)
    );
    assert_eq!(
        c.retrieve_token(500, "oops").unwrap_err(),
        OAuthError::TokenExchange(None)
    );
}

#[test]
fn end_to_end_happy_path() {
    // Discovery.
    let mut meta = OIDC::new("cust".to_string(), "app".to_string());
    let d1 = r#"{"clientSettings":{"acr_values":"openid-acr","oidcConfiguration":{"oidc_discovery_endpoint":"https://p/d"}}}"#;
    let d2 = r#"{"authorization_endpoint":"https://idp/authorize","token_endpoint":"https://idp/token"}"#;
    assert!(meta.get_oidc_discovery_endpoint(200, d1).is_ok());
    assert!(meta.get_open_id_configuration(200, d2).is_ok());

    // Authorization.
    let mut c = OAuth2Client::new(
        "cid".to_string(),
        "".to_string(),
        "http://localhost:8080/".to_string(),
        meta.authorization_endpoint.clone(),
        meta.token_endpoint.clone(),
        meta.acr_values.clone(),
    );
    c.prepare_authorization();
    let url = c.build_authorization_url();
    assert!(url.starts_with("https://idp/authorize?response_type=code"));

    // Callback with a matching state.
    let mut slot = CallbackSlot::new();
    let query = format!("code=XYZ&state={}", c.state);
    let params = parse_query(&query);
    handle_request(&mut slot, &params);
    assert_eq!(c.complete_authorization(slot.result.unwrap()), Ok(()));
    assert_eq!(c.authorization_code, "XYZ");

    // Token exchange.
    let body = r#"{"access_token":"tok","token_type":"Bearer","expires_in":3600}"#;
    let t = c.retrieve_token(200, body).unwrap();
    assert_eq!(t.access_token, "tok");
    assert_eq!(c.get_access_token(), "tok");
}
