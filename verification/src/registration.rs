//! Dynamic registrar: registers a public client with the issuer and reads
//! the client identifier out of the answer.

use vstd::prelude::*;
use vstd::string::StringExecFns;
use crate::discovery::EndpointsModel;
use crate::discovery::OidcEndpoints;
use crate::error::OAuthError;
use crate::error::OAuthErrorModel;
use crate::http::is_success;
use crate::http::status_is_success;
use crate::json::json_members;
use crate::json::parse_json;
use crate::json::string_member;
use crate::json::string_members;
use crate::resource::ServiceConfig;
use crate::resource::ServiceConfigModel;

verus! {

/// The body of a registration request.
#[derive(Debug, Clone, PartialEq, Eq)]
pub struct ClientRegistrationRequest {
    pub redirect_uris: Vec<String>,
    pub token_endpoint_auth_method: String,
    pub grant_types: Vec<String>,
    pub response_types: Vec<String>,
    pub client_name: String,
    pub client_uri: String,
}

/// Mathematical value of a [`ClientRegistrationRequest`].
pub struct RegistrationRequestModel {
    pub redirect_uris: Seq<Seq<char>>,
    pub token_endpoint_auth_method: Seq<char>,
    pub grant_types: Seq<Seq<char>>,
    pub response_types: Seq<Seq<char>>,
    pub client_name: Seq<char>,
    pub client_uri: Seq<char>,
}

impl View for ClientRegistrationRequest {
    type V = RegistrationRequestModel;

    open spec fn view(&self) -> RegistrationRequestModel {
        RegistrationRequestModel {
            redirect_uris: self.redirect_uris.deep_view(),
            token_endpoint_auth_method: self.token_endpoint_auth_method@,
            grant_types: self.grant_types.deep_view(),
            response_types: self.response_types.deep_view(),
            client_name: self.client_name@,
            client_uri: self.client_uri@,
        }
    }
}

/// The registration of a public client for the authorization-code flow:
/// one redirect URI, no authentication at the token endpoint, the grants
/// `authorization_code` and `refresh_token`, the response type `code`.
pub open spec fn public_client_request(config: ServiceConfigModel) -> RegistrationRequestModel {
    RegistrationRequestModel {
        redirect_uris: seq![config.redirect_uri],
        token_endpoint_auth_method: "none"@,
        grant_types: seq!["authorization_code"@, "refresh_token"@],
        response_types: seq!["code"@],
        client_name: config.client_name,
        client_uri: config.client_uri,
    }
}

/// Builds the body of the registration request for a configuration.
pub fn registration_request(config: &ServiceConfig) -> (r: ClientRegistrationRequest)
    ensures
        r@ == public_client_request(config@),
{
    let mut redirect_uris: Vec<String> = Vec::new();
    redirect_uris.push(config.redirect_uri.clone());
    let mut grant_types: Vec<String> = Vec::new();
    grant_types.push(String::from_str("authorization_code"));
    grant_types.push(String::from_str("refresh_token"));
    let mut response_types: Vec<String> = Vec::new();
    response_types.push(String::from_str("code"));
    let request = ClientRegistrationRequest {
        redirect_uris,
        token_endpoint_auth_method: String::from_str("none"),
        grant_types,
        response_types,
        client_name: config.client_name.clone(),
        client_uri: config.client_uri.clone(),
    };
    assert(request@.redirect_uris =~= seq![config@.redirect_uri]);
    assert(request@.grant_types =~= seq!["authorization_code"@, "refresh_token"@]);
    assert(request@.response_types =~= seq!["code"@]);
    request
}

/// One registration call: where to post, and what.
#[derive(Debug, Clone, PartialEq, Eq)]
pub struct RegistrationCall {
    /// The registration endpoint of the issuer.
    pub endpoint: String,
    /// The body, to be sent as JSON.
    pub body: ClientRegistrationRequest,
}

/// The registration call for an issuer: `None` where the issuer advertises
/// no registration endpoint.
pub open spec fn registration_call_of(
    endpoints: EndpointsModel,
    config: ServiceConfigModel,
) -> Option<(Seq<char>, RegistrationRequestModel)> {
    match endpoints.registration_endpoint {
        Some(endpoint) => Some((endpoint, public_client_request(config))),
        None => None,
    }
}

/// Plans the registration of a client with the issuer. Fails with
/// `NoRegistrationEndpoint` where the issuer advertises no registration
/// endpoint.
pub fn plan_registration(endpoints: &OidcEndpoints, config: &ServiceConfig) -> (r: Result<
    RegistrationCall,
    OAuthError,
>)
    ensures
        match registration_call_of(endpoints@, config@) {
            Some(call) => r is Ok && r->Ok_0.endpoint@ == call.0 && r->Ok_0.body@ == call.1,
            None => r is Err && r->Err_0@ == OAuthErrorModel::NoRegistrationEndpoint,
        },
{
    match &endpoints.registration_endpoint {
        Some(endpoint) => Ok(
            RegistrationCall { endpoint: endpoint.clone(), body: registration_request(config) },
        ),
        None => Err(OAuthError::NoRegistrationEndpoint),
    }
}

/// The member that names the registered client.
pub const CLIENT_ID: &'static str = "client_id";

/// The client identifier in a registration document with the given string
/// members.
pub open spec fn client_id_of(members: Map<Seq<char>, Seq<char>>) -> Option<Seq<char>> {
    if members.contains_key(CLIENT_ID@) {
        Some(members[CLIENT_ID@])
    } else {
        None
    }
}

/// Reads the client identifier out of a registration document. Any secret
/// that the issuer adds is left unread: the client is a public one.
pub fn registered_client_id(document: &serde_json::Value) -> (r: Option<String>)
    ensures
        r.deep_view() == client_id_of(string_members(*document)),
{
    string_member(document, CLIENT_ID)
}

/// What a registration answer amounts to: the client identifier of a
/// successful answer that names one, else `RegistrationFailed` with the
/// status and the body of the answer.
pub open spec fn registration_result(status: u16, body: Seq<char>) -> Result<
    Seq<char>,
    OAuthErrorModel,
> {
    if !is_success(status) {
        Err(OAuthErrorModel::RegistrationFailed { status, body })
    } else {
        match json_members(body) {
            Some(members) => match client_id_of(members) {
                Some(client_id) => Ok(client_id),
                None => Err(OAuthErrorModel::RegistrationFailed { status, body }),
            },
            None => Err(OAuthErrorModel::RegistrationFailed { status, body }),
        }
    }
}

/// Mathematical value of the result of a registration.
pub open spec fn registered_view(r: Result<String, OAuthError>) -> Result<
    Seq<char>,
    OAuthErrorModel,
> {
    match r {
        Ok(client_id) => Ok(client_id@),
        Err(error) => Err(error@),
    }
}

/// Judges the answer of the registration endpoint.
pub fn read_registration(status: u16, body: &str) -> (r: Result<String, OAuthError>)
    ensures
        registered_view(r) == registration_result(status, body@),
{
    if !status_is_success(status) {
        return Err(OAuthError::RegistrationFailed { status, body: String::from_str(body) });
    }
    match parse_json(body) {
        Ok(document) => match registered_client_id(&document) {
            Some(client_id) => Ok(client_id),
            None => Err(OAuthError::RegistrationFailed { status, body: String::from_str(body) }),
        },
        Err(_) => Err(OAuthError::RegistrationFailed { status, body: String::from_str(body) }),
    }
}

} // verus!
