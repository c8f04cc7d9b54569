use mcp_oauth::discovery::OidcEndpoints;
use mcp_oauth::error::OAuthError;
use mcp_oauth::registration::plan_registration;
use mcp_oauth::registration::read_registration;
use mcp_oauth::registration::registered_client_id;
use mcp_oauth::registration::registration_request;
use mcp_oauth::registration::ClientRegistrationRequest;
use mcp_oauth::resource::ServiceConfig;

fn config() -> ServiceConfig {
    ServiceConfig::from_mcp_endpoint("https://mcp.example.com/api").unwrap()
}

fn endpoints(registration: Option<&str>) -> OidcEndpoints {
    OidcEndpoints {
        authorization_endpoint: "https://auth.example.com/authorize".to_string(),
        token_endpoint: "https://auth.example.com/token".to_string(),
        registration_endpoint: registration.map(|r| r.to_string()),
    }
}

fn expected_request() -> ClientRegistrationRequest {
    ClientRegistrationRequest {
        redirect_uris: vec!["http://127.0.0.1:8020/".to_string()],
        token_endpoint_auth_method: "none".to_string(),
        grant_types: vec!["authorization_code".to_string(), "refresh_token".to_string()],
        response_types: vec!["code".to_string()],
        client_name: "Goose MCP Client".to_string(),
        client_uri: "https://github.com/block/goose".to_string(),
    }
}

#[test]
fn registration_request_of_a_public_client() {
    assert_eq!(registration_request(&config()), expected_request());
}

#[test]
fn registration_request_follows_the_configuration() {
    let mut config = config();
    config.redirect_uri = "http://localhost:9999/cb".to_string();
    config.client_name = "Other".to_string();
    config.client_uri = "https://other.example".to_string();
    let request = registration_request(&config);
    assert_eq!(request.redirect_uris, vec!["http://localhost:9999/cb".to_string()]);
    assert_eq!(request.client_name, "Other");
    assert_eq!(request.client_uri, "https://other.example");
    assert_eq!(request.token_endpoint_auth_method, "none");
}

#[test]
fn registration_is_planned_at_the_advertised_endpoint() {
    let call = plan_registration(&endpoints(Some("https://auth.example.com/register")), &config())
        .unwrap();
    assert_eq!(call.endpoint, "https://auth.example.com/register");
    assert_eq!(call.body, expected_request());
}

#[test]
fn registration_needs_an_endpoint() {
    assert_eq!(
        plan_registration(&endpoints(None), &config()).unwrap_err(),
        OAuthError::NoRegistrationEndpoint
    );
}

#[test]
fn registration_answer_names_the_client() {
    assert_eq!(read_registration(201, "{\"client_id\":\"abc123\"}"), Ok("abc123".to_string()));
    assert_eq!(read_registration(200, "{\"client_id\":\"abc123\"}"), Ok("abc123".to_string()));
}

#[test]
fn registration_answer_with_secret_is_read_as_public() {
    let body = "{\"client_id\":\"abc123\",\"client_id_issued_at\":1700000000,\"client_secret\":\"s3cr3t\"}";
    assert_eq!(read_registration(201, body), Ok("abc123".to_string()));
}

#[test]
fn registration_refused() {
    assert_eq!(
        read_registration(400, "{\"error\":\"invalid_redirect_uri\"}"),
        Err(OAuthError::RegistrationFailed {
            status: 400,
            body: "{\"error\":\"invalid_redirect_uri\"}".to_string(),
        })
    );
    assert_eq!(
        read_registration(500, "{\"client_id\":\"abc123\"}"),
        Err(OAuthError::RegistrationFailed {
            status: 500,
            body: "{\"client_id\":\"abc123\"}".to_string(),
        })
    );
}

#[test]
fn registration_answer_without_client() {
    assert_eq!(
        read_registration(201, "{\"client_name\":\"x\"}"),
        Err(OAuthError::RegistrationFailed { status: 201, body: "{\"client_name\":\"x\"}".to_string() })
    );
    assert_eq!(
        read_registration(201, "{\"client_id\":17}"),
        Err(OAuthError::RegistrationFailed { status: 201, body: "{\"client_id\":17}".to_string() })
    );
}

#[test]
fn registration_answer_that_is_no_json() {
    assert_eq!(
        read_registration(200, "created"),
        Err(OAuthError::RegistrationFailed { status: 200, body: "created".to_string() })
    );
}

#[test]
fn client_id_of_a_document() {
    let document: serde_json::Value = serde_json::from_str("{\"client_id\":\"abc123\"}").unwrap();
    assert_eq!(registered_client_id(&document), Some("abc123".to_string()));
    let other: serde_json::Value = serde_json::from_str("{\"client\":\"abc123\"}").unwrap();
    assert_eq!(registered_client_id(&other), None);
}
