use mcp_oauth::callback::handle_callback;
use mcp_oauth::callback::CallbackReply;
use mcp_oauth::callback::CompletionSlot;
use mcp_oauth::callback::SlotStatus;
use mcp_oauth::discovery::ProbeOutcome;
use mcp_oauth::error::OAuthError;
use mcp_oauth::error::ProbeFault;
use mcp_oauth::registration::ClientRegistrationRequest;
use mcp_oauth::resource::ServiceConfig;
use mcp_oauth::session::Action;
use mcp_oauth::session::Authentication;
use mcp_oauth::session::Reply;
use mcp_oauth::session::Stage;

const TARGET: &str = "https://mcp.example.com/api";
const METADATA: &str = "{\"authorization_endpoint\":\"https://auth.example.com/authorize\",\"token_endpoint\":\"https://auth.example.com/token\",\"registration_endpoint\":\"https://auth.example.com/register\"}";
const METADATA_WITHOUT_REGISTRATION: &str = "{\"authorization_endpoint\":\"https://auth.example.com/authorize\",\"token_endpoint\":\"https://auth.example.com/token\"}";
const TOKENS: &str = "{\"access_token\":\"tok_1\",\"refresh_token\":\"r1\"}";

fn session() -> Authentication {
    let config = ServiceConfig::from_mcp_endpoint(TARGET).unwrap();
    Authentication::begin(config, TARGET).unwrap()
}

fn http(status: u16, body: &str) -> Reply {
    Reply::Http { status, body: body.to_string() }
}

fn probe(status: u16, body: &str) -> Reply {
    Reply::Probe(ProbeOutcome::Answered { status, body: body.to_string() })
}

fn registering() -> (Authentication, CompletionSlot) {
    let mut session = session();
    let mut slot = CompletionSlot::new();
    session.advance(Reply::Start, &mut slot);
    session.advance(probe(200, METADATA), &mut slot);
    (session, slot)
}

fn listening() -> (Authentication, CompletionSlot) {
    let (mut session, mut slot) = registering();
    session.advance(http(201, "{\"client_id\":\"abc123\"}"), &mut slot);
    (session, slot)
}

fn exchanging() -> (Authentication, CompletionSlot) {
    let (mut session, mut slot) = listening();
    let state = session.expected_state().unwrap().to_string();
    handle_callback(&mut slot, &state, Some("xyz"), Some(&state));
    session.advance(Reply::WaitEnded { expired: false }, &mut slot);
    (session, slot)
}

#[test]
fn attempt_on_an_invalid_target_does_not_start() {
    let config = ServiceConfig::from_mcp_endpoint(TARGET).unwrap();
    assert_eq!(Authentication::begin(config, "not a url").err(), Some(OAuthError::InvalidTarget));
}

#[test]
fn attempt_on_an_invalid_issuer_does_not_start() {
    let mut config = ServiceConfig::from_mcp_endpoint(TARGET).unwrap();
    config.oauth_host = "nowhere".to_string();
    assert_eq!(Authentication::begin(config, TARGET).err(), Some(OAuthError::InvalidTarget));
}

#[test]
fn attempt_starts_with_the_first_probe() {
    let mut session = session();
    let mut slot = CompletionSlot::new();
    assert_eq!(session.stage(), Stage::Discovering);
    assert_eq!(session.expected_state(), None);
    assert_eq!(
        session.advance(Reply::Start, &mut slot),
        Action::Get {
            url: "https://mcp.example.com/.well-known/oauth-authorization-server".to_string()
        }
    );
    assert_eq!(session.stage(), Stage::Discovering);
    assert!(!session.serving());
}

#[test]
fn attempt_with_custom_discovery_path_probes_it_first() {
    let config = ServiceConfig::from_mcp_endpoint(TARGET)
        .unwrap()
        .with_custom_discovery("/tenant/metadata".to_string());
    let mut session = Authentication::begin(config, TARGET).unwrap();
    let mut slot = CompletionSlot::new();
    assert_eq!(
        session.advance(Reply::Start, &mut slot),
        Action::Get { url: "https://mcp.example.com/tenant/metadata".to_string() }
    );
}

#[test]
fn attempt_registers_after_discovery() {
    let mut session = session();
    let mut slot = CompletionSlot::new();
    session.advance(Reply::Start, &mut slot);
    let action = session.advance(probe(200, METADATA), &mut slot);
    assert_eq!(
        action,
        Action::Register {
            endpoint: "https://auth.example.com/register".to_string(),
            body: ClientRegistrationRequest {
                redirect_uris: vec!["http://127.0.0.1:8020/".to_string()],
                token_endpoint_auth_method: "none".to_string(),
                grant_types: vec!["authorization_code".to_string(), "refresh_token".to_string()],
                response_types: vec!["code".to_string()],
                client_name: "Goose MCP Client".to_string(),
                client_uri: "https://github.com/block/goose".to_string(),
            },
        }
    );
    assert_eq!(session.stage(), Stage::Registering);
}

#[test]
fn attempt_fails_when_discovery_is_exhausted() {
    let mut session = session();
    let mut slot = CompletionSlot::new();
    let mut action = session.advance(Reply::Start, &mut slot);
    let mut probes = 0;
    while let Action::Get { .. } = action {
        probes += 1;
        action = session.advance(probe(200, "{}"), &mut slot);
    }
    assert_eq!(probes, 4);
    assert_eq!(
        action,
        Action::Failed(OAuthError::DiscoveryExhausted {
            attempted: vec![
                "/.well-known/oauth-authorization-server".to_string(),
                "/.well-known/openid_configuration".to_string(),
                "/oauth/.well-known/oauth-authorization-server".to_string(),
                "/.well-known/oauth_authorization_server".to_string(),
            ],
            last_cause: Some(ProbeFault::MissingAuthorizationEndpoint),
        })
    );
    assert_eq!(session.stage(), Stage::Finished);
    assert_eq!(session.advance(probe(200, METADATA), &mut slot), Action::Ignored);
}

#[test]
fn attempt_fails_without_registration_endpoint() {
    let mut session = session();
    let mut slot = CompletionSlot::new();
    session.advance(Reply::Start, &mut slot);
    assert_eq!(
        session.advance(probe(200, METADATA_WITHOUT_REGISTRATION), &mut slot),
        Action::Failed(OAuthError::NoRegistrationEndpoint)
    );
    assert_eq!(session.stage(), Stage::Finished);
}

#[test]
fn attempt_fails_when_registration_is_refused() {
    let (mut session, mut slot) = registering();
    assert_eq!(
        session.advance(http(403, "forbidden"), &mut slot),
        Action::Failed(OAuthError::RegistrationFailed { status: 403, body: "forbidden".to_string() })
    );
    assert_eq!(session.stage(), Stage::Finished);
    assert_eq!(session.advance(http(201, "{\"client_id\":\"abc123\"}"), &mut slot), Action::Ignored);
}

#[test]
fn attempt_listens_after_registration() {
    let (mut session, mut slot) = registering();
    let action = session.advance(http(201, "{\"client_id\":\"abc123\"}"), &mut slot);
    let state = session.expected_state().unwrap().to_string();
    assert_eq!(state.len(), 16);
    match action {
        Action::Listen { port, authorization_url, timeout_secs } => {
            assert_eq!(port, 8020);
            assert_eq!(timeout_secs, 120);
            assert!(authorization_url.starts_with(
                "https://auth.example.com/authorize?response_type=code&client_id=abc123&redirect_uri=http%3A%2F%2F127.0.0.1%3A8020%2F&state="
            ));
            assert!(authorization_url.contains(&format!("&state={}&code_challenge=", state)));
            assert!(authorization_url.ends_with(
                "&code_challenge_method=S256&resource=https%3A%2F%2Fmcp.example.com%2Fapi"
            ));
        }
        action => panic!("unexpected action {:?}", action),
    }
    assert_eq!(session.stage(), Stage::Authorizing);
    assert!(session.serving());
}

#[test]
fn attempt_fails_on_an_unparsable_redirect_uri() {
    let mut config = ServiceConfig::from_mcp_endpoint(TARGET).unwrap();
    config.redirect_uri = "nowhere".to_string();
    let mut session = Authentication::begin(config, TARGET).unwrap();
    let mut slot = CompletionSlot::new();
    session.advance(Reply::Start, &mut slot);
    session.advance(probe(200, METADATA), &mut slot);
    assert_eq!(
        session.advance(http(201, "{\"client_id\":\"abc123\"}"), &mut slot),
        Action::Failed(OAuthError::InvalidRedirectUri)
    );
    assert_eq!(session.stage(), Stage::Finished);
}

#[test]
fn attempt_goes_on_waiting_after_a_stray_redirect() {
    let (mut session, mut slot) = listening();
    let state = session.expected_state().unwrap().to_string();
    assert_eq!(
        handle_callback(&mut slot, &state, Some("abc1"), Some("wrong")),
        CallbackReply::StateMismatch
    );
    assert_eq!(session.advance(Reply::WaitEnded { expired: false }, &mut slot), Action::Wait);
    assert!(session.serving());
    assert_eq!(handle_callback(&mut slot, &state, Some("abc2"), Some(&state)), CallbackReply::Success);
    match session.advance(Reply::WaitEnded { expired: false }, &mut slot) {
        Action::Exchange(request) => assert!(request.body.contains("&code=abc2&")),
        action => panic!("unexpected action {:?}", action),
    }
    assert!(!session.serving());
}

#[test]
fn attempt_times_out() {
    let (mut session, mut slot) = listening();
    assert_eq!(
        session.advance(Reply::WaitEnded { expired: true }, &mut slot),
        Action::Failed(OAuthError::AuthorizationTimeout)
    );
    assert_eq!(session.stage(), Stage::Finished);
    assert!(!session.serving());
    assert_eq!(slot.status(), SlotStatus::Closed);
    assert_eq!(session.advance(Reply::WaitEnded { expired: true }, &mut slot), Action::Ignored);
    assert_eq!(session.advance(http(200, TOKENS), &mut slot), Action::Ignored);
}

#[test]
fn attempt_ends_with_the_access_token() {
    let (mut session, mut slot) = exchanging();
    assert_eq!(session.stage(), Stage::Authorizing);
    assert_eq!(session.advance(http(200, TOKENS), &mut slot), Action::Done("tok_1".to_string()));
    assert_eq!(session.stage(), Stage::Finished);
    assert_eq!(session.advance(http(200, TOKENS), &mut slot), Action::Ignored);
}

#[test]
fn attempt_fails_when_the_exchange_is_refused() {
    let (mut session, mut slot) = exchanging();
    assert_eq!(
        session.advance(http(400, "invalid_grant"), &mut slot),
        Action::Failed(OAuthError::TokenExchangeFailed { body: "invalid_grant".to_string() })
    );
    assert_eq!(session.stage(), Stage::Finished);
}

#[test]
fn attempt_fails_on_a_token_answer_without_access_token() {
    let (mut session, mut slot) = exchanging();
    assert_eq!(
        session.advance(http(200, "{\"refresh_token\":\"r1\"}"), &mut slot),
        Action::Failed(OAuthError::MalformedTokenResponse)
    );
}

#[test]
fn replies_of_another_stage_are_ignored() {
    let mut session = session();
    let mut slot = CompletionSlot::new();
    assert_eq!(session.advance(http(200, METADATA), &mut slot), Action::Ignored);
    assert_eq!(session.advance(Reply::WaitEnded { expired: true }, &mut slot), Action::Ignored);
    assert_eq!(session.advance(probe(200, METADATA), &mut slot), Action::Ignored);
    assert_eq!(session.stage(), Stage::Discovering);
    assert_eq!(slot.status(), SlotStatus::Waiting);
    assert_eq!(
        session.advance(Reply::Start, &mut slot),
        Action::Get {
            url: "https://mcp.example.com/.well-known/oauth-authorization-server".to_string()
        }
    );
    assert_eq!(session.advance(Reply::Start, &mut slot), Action::Ignored);
    assert_eq!(
        session.advance(probe(404, ""), &mut slot),
        Action::Get { url: "https://mcp.example.com/.well-known/openid_configuration".to_string() }
    );

    let (mut session, mut slot) = registering();
    assert_eq!(session.advance(Reply::Start, &mut slot), Action::Ignored);
    assert_eq!(session.advance(probe(200, METADATA), &mut slot), Action::Ignored);
    assert_eq!(session.advance(Reply::WaitEnded { expired: true }, &mut slot), Action::Ignored);
    assert_eq!(session.stage(), Stage::Registering);

    let (mut session, mut slot) = listening();
    assert_eq!(session.advance(Reply::Start, &mut slot), Action::Ignored);
    assert_eq!(session.advance(probe(200, METADATA), &mut slot), Action::Ignored);
    assert_eq!(session.advance(http(200, TOKENS), &mut slot), Action::Ignored);
    assert_eq!(session.stage(), Stage::Authorizing);
    assert!(session.serving());
}

#[test]
fn giving_up_finishes_the_attempt() {
    let (mut session, mut slot) = listening();
    session.abort(&mut slot);
    assert_eq!(session.stage(), Stage::Finished);
    assert!(!session.serving());
    assert_eq!(slot.status(), SlotStatus::Closed);
    assert_eq!(session.advance(Reply::WaitEnded { expired: false }, &mut slot), Action::Ignored);
}

#[test]
fn whole_attempt_from_target_to_token() {
    let config = ServiceConfig::from_mcp_endpoint(TARGET).unwrap();
    assert_eq!(config.oauth_host, "https://mcp.example.com");
    let mut session = Authentication::begin(config, TARGET).unwrap();
    let mut slot = CompletionSlot::new();
    let mut requests = Vec::new();
    let mut reply = Reply::Start;
    let token = loop {
        let action = session.advance(reply, &mut slot);
        reply = match action {
            Action::Get { url } => {
                let found = url.ends_with("/.well-known/openid_configuration");
                requests.push(format!("GET {}", url));
                if found {
                    probe(200, METADATA)
                } else {
                    probe(404, "")
                }
            }
            Action::Register { endpoint, .. } => {
                requests.push(format!("POST {}", endpoint));
                http(201, "{\"client_id\":\"abc123\"}")
            }
            Action::Listen { port, authorization_url, .. } => {
                requests.push(format!("LISTEN {}", port));
                assert!(authorization_url.contains("client_id=abc123"));
                assert!(authorization_url.contains("code_challenge_method=S256"));
                let state = session.expected_state().unwrap().to_string();
                assert_eq!(
                    handle_callback(&mut slot, &state, Some("xyz"), Some(&state)),
                    CallbackReply::Success
                );
                Reply::WaitEnded { expired: false }
            }
            Action::Exchange(request) => {
                requests.push(format!("POST {}", request.endpoint));
                assert!(request.body.contains("&code=xyz&"));
                http(200, TOKENS)
            }
            Action::Done(token) => break token,
            action => panic!("unexpected action {:?}", action),
        };
    };
    assert_eq!(token, "tok_1");
    assert_eq!(
        requests,
        vec![
            "GET https://mcp.example.com/.well-known/oauth-authorization-server".to_string(),
            "GET https://mcp.example.com/.well-known/openid_configuration".to_string(),
            "POST https://auth.example.com/register".to_string(),
            "LISTEN 8020".to_string(),
            "POST https://auth.example.com/token".to_string(),
        ]
    );
}
