use base64::Engine;
use mcp_oauth::discovery::OidcEndpoints;
use mcp_oauth::error::OAuthError;
use mcp_oauth::flow::read_token_response;
use mcp_oauth::flow::read_tokens;
use mcp_oauth::flow::OAuthFlow;
use mcp_oauth::flow::TokenData;
use mcp_oauth::pkce::pkce_challenge;
use mcp_oauth::pkce::STATE_LENGTH;
use mcp_oauth::pkce::VERIFIER_LENGTH;
use sha2::Digest;
use std::collections::HashSet;

const VERIFIER: &str = "dBjftJeZ4CVP-mB92K27uhbUJU1p1r_wW1gFWFOEjXk";
const CHALLENGE: &str = "E9Melhoa2OwvFrEMTJguCHaoeK1t8URWbuGJSstw-cM";

fn endpoints() -> OidcEndpoints {
    OidcEndpoints {
        authorization_endpoint: "https://auth.example.com/authorize".to_string(),
        token_endpoint: "https://auth.example.com/token".to_string(),
        registration_endpoint: None,
    }
}

fn fixed_flow() -> OAuthFlow {
    OAuthFlow::with_secrets(
        endpoints(),
        "abc123".to_string(),
        "http://127.0.0.1:8020/".to_string(),
        "STATE0123456789x".to_string(),
        VERIFIER.to_string(),
    )
}

fn new_flow() -> OAuthFlow {
    OAuthFlow::new(endpoints(), "abc123".to_string(), "http://127.0.0.1:8020/".to_string())
}

fn is_token_char(c: char) -> bool {
    c.is_ascii_alphanumeric() || c == '_' || c == '-'
}

#[test]
fn challenge_of_known_verifier() {
    assert_eq!(pkce_challenge(VERIFIER), CHALLENGE);
}

#[test]
fn challenge_of_empty_verifier() {
    assert_eq!(pkce_challenge(""), "47DEQpj8HBSa-_TImW-5JCeuQeRkm5NMpJWZG3hSuFU");
}

#[test]
fn challenge_decodes_to_the_digest_of_the_verifier() {
    for verifier in [VERIFIER, "", "a", "héllo wörld", "0123456789012345678901234567890123456789"] {
        let challenge = pkce_challenge(verifier);
        assert_eq!(challenge.len(), 43);
        assert!(!challenge.contains('='));
        assert!(!challenge.contains('+'));
        assert!(!challenge.contains('/'));
        let decoded = base64::engine::general_purpose::URL_SAFE_NO_PAD
            .decode(challenge.as_bytes())
            .unwrap();
        assert_eq!(decoded.len(), 32);
        assert_eq!(decoded, sha2::Sha256::digest(verifier.as_bytes()).to_vec());
    }
}

#[test]
fn challenge_of_a_new_flow_matches_its_verifier() {
    let flow = new_flow();
    let challenge = pkce_challenge(flow.code_verifier());
    let url = flow.get_authorization_url("https://mcp.example.com/api");
    assert!(url.contains(&format!("code_challenge={}&", challenge)));
    assert!(!url.contains(flow.code_verifier()));
}

#[test]
fn new_flow_has_secrets_of_the_stated_shape() {
    let flow = new_flow();
    assert_eq!(STATE_LENGTH, 16);
    assert_eq!(VERIFIER_LENGTH, 64);
    assert_eq!(flow.state().chars().count(), 16);
    assert_eq!(flow.code_verifier().chars().count(), 64);
    assert!(flow.state().chars().all(is_token_char));
    assert!(flow.code_verifier().chars().all(is_token_char));
    assert_eq!(flow.client_id(), "abc123");
    assert_eq!(flow.redirect_url(), "http://127.0.0.1:8020/");
    assert_eq!(flow.endpoints(), &endpoints());
}

#[test]
fn secrets_are_fresh_for_every_attempt() {
    let mut states = HashSet::new();
    let mut verifiers = HashSet::new();
    for _ in 0..500 {
        let flow = new_flow();
        assert!(states.insert(flow.state().to_string()));
        assert!(verifiers.insert(flow.code_verifier().to_string()));
        assert_ne!(flow.state(), flow.code_verifier());
    }
    assert_eq!(states.len(), 500);
    assert_eq!(verifiers.len(), 500);
}

#[test]
fn flow_with_given_secrets() {
    let flow = fixed_flow();
    assert_eq!(flow.state(), "STATE0123456789x");
    assert_eq!(flow.code_verifier(), VERIFIER);
    assert_eq!(flow.client_id(), "abc123");
}

#[test]
fn authorization_url_in_full() {
    assert_eq!(
        fixed_flow().get_authorization_url("https://mcp.example.com/api"),
        "https://auth.example.com/authorize?response_type=code&client_id=abc123&redirect_uri=http%3A%2F%2F127.0.0.1%3A8020%2F&state=STATE0123456789x&code_challenge=E9Melhoa2OwvFrEMTJguCHaoeK1t8URWbuGJSstw-cM&code_challenge_method=S256&resource=https%3A%2F%2Fmcp.example.com%2Fapi"
    );
}

#[test]
fn authorization_url_encodes_reserved_characters() {
    let flow = OAuthFlow::with_secrets(
        endpoints(),
        "client id&x=1".to_string(),
        "http://127.0.0.1:8020/".to_string(),
        "a b".to_string(),
        VERIFIER.to_string(),
    );
    let url = flow.get_authorization_url("https://mcp.example.com/a?b=c");
    assert!(url.contains("client_id=client+id%26x%3D1&"));
    assert!(url.contains("&state=a+b&"));
    assert!(url.ends_with("&resource=https%3A%2F%2Fmcp.example.com%2Fa%3Fb%3Dc"));
}

#[test]
fn token_request_in_full() {
    let request = fixed_flow().token_request("xyz", "https://mcp.example.com/api");
    assert_eq!(request.endpoint, "https://auth.example.com/token");
    assert_eq!(
        request.body,
        "grant_type=authorization_code&code=xyz&redirect_uri=http%3A%2F%2F127.0.0.1%3A8020%2F&code_verifier=dBjftJeZ4CVP-mB92K27uhbUJU1p1r_wW1gFWFOEjXk&client_id=abc123&resource=https%3A%2F%2Fmcp.example.com%2Fapi"
    );
}

#[test]
fn both_requests_carry_the_same_resource() {
    let flow = fixed_flow();
    let resource = "https://mcp.example.com/a b/ü";
    let url = flow.get_authorization_url(resource);
    let body = flow.token_request("xyz", resource).body;
    let in_url = url.rsplit('&').next().unwrap().to_string();
    let in_body = body.rsplit('&').next().unwrap().to_string();
    assert!(in_url.starts_with("resource="));
    assert_eq!(in_url, in_body);
    let decoded: Vec<(String, String)> = serde_urlencoded::from_str(&in_body).unwrap();
    assert_eq!(decoded, vec![("resource".to_string(), resource.to_string())]);
}

#[test]
fn token_answer_with_both_tokens() {
    assert_eq!(
        read_token_response(200, "{\"access_token\":\"tok_1\",\"refresh_token\":\"r1\"}"),
        Ok(TokenData { access_token: "tok_1".to_string(), refresh_token: Some("r1".to_string()) })
    );
}

#[test]
fn token_answer_without_refresh_token() {
    assert_eq!(
        read_token_response(200, "{\"access_token\":\"tok_1\",\"token_type\":\"Bearer\",\"expires_in\":3600}"),
        Ok(TokenData { access_token: "tok_1".to_string(), refresh_token: None })
    );
    assert_eq!(
        read_token_response(200, "{\"access_token\":\"tok_1\",\"refresh_token\":null}"),
        Ok(TokenData { access_token: "tok_1".to_string(), refresh_token: None })
    );
}

#[test]
fn token_exchange_refused() {
    assert_eq!(
        read_token_response(400, "{\"error\":\"invalid_grant\"}"),
        Err(OAuthError::TokenExchangeFailed { body: "{\"error\":\"invalid_grant\"}".to_string() })
    );
    assert_eq!(
        read_token_response(401, "{\"access_token\":\"tok_1\"}"),
        Err(OAuthError::TokenExchangeFailed { body: "{\"access_token\":\"tok_1\"}".to_string() })
    );
}

#[test]
fn token_answer_without_access_token() {
    assert_eq!(
        read_token_response(200, "{\"refresh_token\":\"r1\"}"),
        Err(OAuthError::MalformedTokenResponse)
    );
    assert_eq!(
        read_token_response(200, "{\"access_token\":42}"),
        Err(OAuthError::MalformedTokenResponse)
    );
    assert_eq!(read_token_response(200, "not json"), Err(OAuthError::MalformedTokenResponse));
}

#[test]
fn tokens_of_a_document() {
    let document: serde_json::Value =
        serde_json::from_str("{\"access_token\":\"tok_1\",\"refresh_token\":\"r1\"}").unwrap();
    assert_eq!(
        read_tokens(&document),
        Some(TokenData { access_token: "tok_1".to_string(), refresh_token: Some("r1".to_string()) })
    );
    let empty: serde_json::Value = serde_json::from_str("{}").unwrap();
    assert_eq!(read_tokens(&empty), None);
}
