//! The security material of one attempt and the two requests that carry it:
//! the authorization request that the browser makes, and the token request
//! that redeems the code.

use vstd::prelude::*;
use crate::discovery::EndpointsModel;
use crate::discovery::OidcEndpoints;
use crate::error::OAuthError;
use crate::error::OAuthErrorModel;
use crate::form::form_urlencoded;
use crate::form::push_pair;
use crate::form::urlencode;
use crate::http::is_success;
use crate::http::status_is_success;
use crate::json::json_members;
use crate::json::parse_json;
use crate::json::string_member;
use crate::json::string_members;
use crate::pkce::challenge_of;
use crate::pkce::is_token;
use crate::pkce::pkce_challenge;
use crate::pkce::random_token;
use crate::pkce::STATE_LENGTH;
use crate::pkce::VERIFIER_LENGTH;
use crate::text::push_char;
use vstd::string::StringExecFns;

verus! {

/// What a successful attempt yields.
#[derive(Debug, Clone, PartialEq, Eq)]
pub struct TokenData {
    pub access_token: String,
    pub refresh_token: Option<String>,
}

/// Mathematical value of [`TokenData`].
pub struct TokenModel {
    pub access_token: Seq<char>,
    pub refresh_token: Option<Seq<char>>,
}

impl View for TokenData {
    type V = TokenModel;

    open spec fn view(&self) -> TokenModel {
        TokenModel {
            access_token: self.access_token@,
            refresh_token: self.refresh_token.deep_view(),
        }
    }
}

/// The state of one attempt: the issuer's endpoints, the registered client,
/// and the two secrets made for this attempt alone.
#[derive(Debug)]
pub struct OAuthFlow {
    endpoints: OidcEndpoints,
    client_id: String,
    redirect_url: String,
    state: String,
    verifier: String,
}

/// Mathematical value of an [`OAuthFlow`].
pub struct FlowModel {
    pub endpoints: EndpointsModel,
    pub client_id: Seq<char>,
    pub redirect_url: Seq<char>,
    /// The nonce that the redirect must echo.
    pub state: Seq<char>,
    /// The PKCE secret.
    pub verifier: Seq<char>,
}

impl View for OAuthFlow {
    type V = FlowModel;

    closed spec fn view(&self) -> FlowModel {
        FlowModel {
            endpoints: self.endpoints@,
            client_id: self.client_id@,
            redirect_url: self.redirect_url@,
            state: self.state@,
            verifier: self.verifier@,
        }
    }
}

/// The query parameters of the authorization request, in the order in which
/// they are sent. The verifier is not among them, only its challenge.
pub open spec fn authorization_params(flow: FlowModel, resource: Seq<char>) -> Seq<
    (Seq<char>, Seq<char>),
> {
    seq![
        ("response_type"@, "code"@),
        ("client_id"@, flow.client_id),
        ("redirect_uri"@, flow.redirect_url),
        ("state"@, flow.state),
        ("code_challenge"@, challenge_of(flow.verifier)),
        ("code_challenge_method"@, "S256"@),
        ("resource"@, resource),
    ]
}

/// The URL to which the browser is sent: the authorization endpoint, `?`,
/// and the form-encoded parameters.
pub open spec fn authorization_url_of(flow: FlowModel, resource: Seq<char>) -> Seq<char> {
    flow.endpoints.authorization_endpoint + seq!['?'] + form_urlencoded(
        authorization_params(flow, resource),
    )
}

/// The form parameters of the token request, in the order in which they are
/// sent.
pub open spec fn token_params(flow: FlowModel, code: Seq<char>, resource: Seq<char>) -> Seq<
    (Seq<char>, Seq<char>),
> {
    seq![
        ("grant_type"@, "authorization_code"@),
        ("code"@, code),
        ("redirect_uri"@, flow.redirect_url),
        ("code_verifier"@, flow.verifier),
        ("client_id"@, flow.client_id),
        ("resource"@, resource),
    ]
}

/// One token request: where to post, and the form-encoded body.
#[derive(Debug, Clone, PartialEq, Eq)]
pub struct TokenRequest {
    /// The token endpoint of the issuer.
    pub endpoint: String,
    /// The body, of content type `application/x-www-form-urlencoded`.
    pub body: String,
}

/// Mathematical value of a [`TokenRequest`].
pub struct TokenRequestModel {
    pub endpoint: Seq<char>,
    pub body: Seq<char>,
}

impl View for TokenRequest {
    type V = TokenRequestModel;

    open spec fn view(&self) -> TokenRequestModel {
        TokenRequestModel { endpoint: self.endpoint@, body: self.body@ }
    }
}

/// The token request that redeems `code`.
pub open spec fn token_request_of(flow: FlowModel, code: Seq<char>, resource: Seq<char>) -> TokenRequestModel {
    TokenRequestModel {
        endpoint: flow.endpoints.token_endpoint,
        body: form_urlencoded(token_params(flow, code, resource)),
    }
}

impl OAuthFlow {
    /// The state of an attempt with the given secrets.
    pub fn with_secrets(
        endpoints: OidcEndpoints,
        client_id: String,
        redirect_url: String,
        state: String,
        verifier: String,
    ) -> (r: OAuthFlow)
        ensures
            r@ == (FlowModel {
                endpoints: endpoints@,
                client_id: client_id@,
                redirect_url: redirect_url@,
                state: state@,
                verifier: verifier@,
            }),
    {
        OAuthFlow { endpoints, client_id, redirect_url, state, verifier }
    }

    /// The state of a new attempt, with a fresh random `state` of 16
    /// characters and a fresh random verifier of 64.
    pub fn new(endpoints: OidcEndpoints, client_id: String, redirect_url: String) -> (r: OAuthFlow)
        ensures
            r@.endpoints == endpoints@,
            r@.client_id == client_id@,
            r@.redirect_url == redirect_url@,
            is_token(r@.state, STATE_LENGTH as nat),
            is_token(r@.verifier, VERIFIER_LENGTH as nat),
    {
        let state = random_token(STATE_LENGTH);
        let verifier = random_token(VERIFIER_LENGTH);
        OAuthFlow::with_secrets(endpoints, client_id, redirect_url, state, verifier)
    }

    /// The nonce that the redirect must echo.
    pub fn state(&self) -> (r: &str)
        ensures
            r@ == self@.state,
    {
        self.state.as_str()
    }

    /// The PKCE secret.
    pub fn code_verifier(&self) -> (r: &str)
        ensures
            r@ == self@.verifier,
    {
        self.verifier.as_str()
    }

    /// The identifier of the registered client.
    pub fn client_id(&self) -> (r: &str)
        ensures
            r@ == self@.client_id,
    {
        self.client_id.as_str()
    }

    /// The redirect URI of the attempt.
    pub fn redirect_url(&self) -> (r: &str)
        ensures
            r@ == self@.redirect_url,
    {
        self.redirect_url.as_str()
    }

    /// The endpoints of the issuer.
    pub fn endpoints(&self) -> (r: &OidcEndpoints)
        ensures
            r@ == self@.endpoints,
    {
        &self.endpoints
    }

    /// Builds the URL to which the browser is sent.
    pub fn get_authorization_url(&self, resource: &str) -> (r: String)
        ensures
            r@ == authorization_url_of(self@, resource@),
    {
        let challenge = pkce_challenge(self.verifier.as_str());
        let mut params: Vec<(String, String)> = Vec::new();
        push_pair(&mut params, "response_type", "code");
        push_pair(&mut params, "client_id", self.client_id.as_str());
        push_pair(&mut params, "redirect_uri", self.redirect_url.as_str());
        push_pair(&mut params, "state", self.state.as_str());
        push_pair(&mut params, "code_challenge", challenge.as_str());
        push_pair(&mut params, "code_challenge_method", "S256");
        push_pair(&mut params, "resource", resource);
        assert(params.deep_view() =~= authorization_params(self@, resource@));
        let query = urlencode(&params).unwrap();
        let mut url = self.endpoints.authorization_endpoint.clone();
        push_char(&mut url, '?');
        url.append(query.as_str());
        url
    }

    /// Builds the token request that redeems `code`.
    pub fn token_request(&self, code: &str, resource: &str) -> (r: TokenRequest)
        ensures
            r@ == token_request_of(self@, code@, resource@),
    {
        let mut params: Vec<(String, String)> = Vec::new();
        push_pair(&mut params, "grant_type", "authorization_code");
        push_pair(&mut params, "code", code);
        push_pair(&mut params, "redirect_uri", self.redirect_url.as_str());
        push_pair(&mut params, "code_verifier", self.verifier.as_str());
        push_pair(&mut params, "client_id", self.client_id.as_str());
        push_pair(&mut params, "resource", resource);
        assert(params.deep_view() =~= token_params(self@, code@, resource@));
        let body = urlencode(&params).unwrap();
        TokenRequest { endpoint: self.endpoints.token_endpoint.clone(), body }
    }
}

/// The member that holds the access token.
pub const ACCESS_TOKEN: &'static str = "access_token";

/// The member that holds the refresh token.
pub const REFRESH_TOKEN: &'static str = "refresh_token";

/// The tokens in a token document with the given string members: the access
/// token is required, the refresh token optional.
pub open spec fn tokens_of(members: Map<Seq<char>, Seq<char>>) -> Option<TokenModel> {
    if members.contains_key(ACCESS_TOKEN@) {
        Some(
            TokenModel {
                access_token: members[ACCESS_TOKEN@],
                refresh_token: if members.contains_key(REFRESH_TOKEN@) {
                    Some(members[REFRESH_TOKEN@])
                } else {
                    None
                },
            },
        )
    } else {
        None
    }
}

impl DeepView for TokenData {
    type V = TokenModel;

    open spec fn deep_view(&self) -> TokenModel {
        self@
    }
}

/// Reads the tokens out of a token document.
pub fn read_tokens(document: &serde_json::Value) -> (r: Option<TokenData>)
    ensures
        r.deep_view() == tokens_of(string_members(*document)),
{
    match string_member(document, ACCESS_TOKEN) {
        Some(access_token) => Some(
            TokenData { access_token, refresh_token: string_member(document, REFRESH_TOKEN) },
        ),
        None => None,
    }
}

/// What an answer of the token endpoint amounts to: `TokenExchangeFailed`
/// with the body for a status outside the success class, the tokens of a
/// successful answer that holds an access token, and
/// `MalformedTokenResponse` for a successful answer that holds none.
pub open spec fn token_result(status: u16, body: Seq<char>) -> Result<TokenModel, OAuthErrorModel> {
    if !is_success(status) {
        Err(OAuthErrorModel::TokenExchangeFailed { body })
    } else {
        match json_members(body) {
            Some(members) => match tokens_of(members) {
                Some(tokens) => Ok(tokens),
                None => Err(OAuthErrorModel::MalformedTokenResponse),
            },
            None => Err(OAuthErrorModel::MalformedTokenResponse),
        }
    }
}

/// Mathematical value of the result of a token exchange.
pub open spec fn exchanged_view(r: Result<TokenData, OAuthError>) -> Result<
    TokenModel,
    OAuthErrorModel,
> {
    match r {
        Ok(tokens) => Ok(tokens@),
        Err(error) => Err(error@),
    }
}

/// Judges the answer of the token endpoint.
pub fn read_token_response(status: u16, body: &str) -> (r: Result<TokenData, OAuthError>)
    ensures
        exchanged_view(r) == token_result(status, body@),
{
    if !status_is_success(status) {
        return Err(OAuthError::TokenExchangeFailed { body: String::from_str(body) });
    }
    match parse_json(body) {
        Ok(document) => match read_tokens(&document) {
            Some(tokens) => Ok(tokens),
            None => Err(OAuthError::MalformedTokenResponse),
        },
        Err(_) => Err(OAuthError::MalformedTokenResponse),
    }
}

/// The resource indicator is the same in both requests. The authorization
/// request and the token request of one attempt name the resource under the
/// key `resource`, and both carry the value that the caller gave, unchanged.
pub proof fn law_resource_is_identical(flow: FlowModel, code: Seq<char>, resource: Seq<char>)
    ensures
        authorization_params(flow, resource).last() == ("resource"@, resource),
        token_params(flow, code, resource).last() == ("resource"@, resource),
{
}

/// The verifier leaves the client only in the token request. No parameter
/// of the authorization request is keyed `code_verifier`; what that request
/// carries of the verifier is its challenge with the method `S256`. The
/// token request carries the verifier itself.
pub proof fn law_verifier_only_in_token_request(
    flow: FlowModel,
    code: Seq<char>,
    resource: Seq<char>,
)
    ensures
        forall|i: int|
            0 <= i < authorization_params(flow, resource).len() ==> (
            #[trigger] authorization_params(flow, resource)[i]).0 != "code_verifier"@,
        authorization_params(flow, resource)[4] == ("code_challenge"@, challenge_of(flow.verifier)),
        authorization_params(flow, resource)[5] == ("code_challenge_method"@, "S256"@),
        token_params(flow, code, resource)[3] == ("code_verifier"@, flow.verifier),
{
    reveal_strlit("code_verifier");
    reveal_strlit("response_type");
    reveal_strlit("client_id");
    reveal_strlit("redirect_uri");
    reveal_strlit("state");
    reveal_strlit("code_challenge");
    reveal_strlit("code_challenge_method");
    reveal_strlit("resource");
    let params = authorization_params(flow, resource);
    assert forall|i: int| 0 <= i < params.len() implies (#[trigger] params[i]).0
        != "code_verifier"@ by {
        let key = params[i].0;
        if i == 5 {
            assert(key.len() == 21);
        } else if i == 4 {
            assert(key.len() == 14);
        } else if i == 0 {
            assert(key[0] == 'r');
        } else if i == 1 {
            assert(key.len() == 9);
        } else if i == 2 {
            assert(key.len() == 12);
        } else if i == 3 {
            assert(key.len() == 5);
        } else {
            assert(key.len() == 8);
        }
    }
}

/// The client is a public one. Neither request carries a parameter keyed
/// `client_secret`: the client is known to the issuer by its identifier
/// alone.
pub proof fn law_no_client_secret_is_sent(flow: FlowModel, code: Seq<char>, resource: Seq<char>)
    ensures
        forall|i: int|
            0 <= i < authorization_params(flow, resource).len() ==> (
            #[trigger] authorization_params(flow, resource)[i]).0 != "client_secret"@,
        forall|i: int|
            0 <= i < token_params(flow, code, resource).len() ==> (#[trigger] token_params(
                flow,
                code,
                resource,
            )[i]).0 != "client_secret"@,
        authorization_params(flow, resource)[1] == ("client_id"@, flow.client_id),
        token_params(flow, code, resource)[4] == ("client_id"@, flow.client_id),
{
    reveal_strlit("client_secret");
    reveal_strlit("response_type");
    reveal_strlit("client_id");
    reveal_strlit("redirect_uri");
    reveal_strlit("state");
    reveal_strlit("code_challenge");
    reveal_strlit("code_challenge_method");
    reveal_strlit("resource");
    reveal_strlit("grant_type");
    reveal_strlit("code");
    reveal_strlit("code_verifier");
    let secret = "client_secret"@;
    assert(secret.len() == 13 && secret[0] == 'c' && secret[1] == 'l' && secret[7] == 's');
    let sent = authorization_params(flow, resource);
    assert forall|i: int| 0 <= i < sent.len() implies (#[trigger] sent[i]).0 != secret by {
        let key = sent[i].0;
        if i == 0 {
            assert(key[0] == 'r');
        } else if i == 1 {
            assert(key.len() == 9);
        } else if i == 2 {
            assert(key.len() == 12);
        } else if i == 3 {
            assert(key.len() == 5);
        } else if i == 4 {
            assert(key.len() == 14);
        } else if i == 5 {
            assert(key.len() == 21);
        } else {
            assert(key.len() == 8);
        }
    }
    let posted = token_params(flow, code, resource);
    assert forall|i: int| 0 <= i < posted.len() implies (#[trigger] posted[i]).0 != secret by {
        let key = posted[i].0;
        if i == 0 {
            assert(key.len() == 10);
        } else if i == 1 {
            assert(key.len() == 4);
        } else if i == 2 {
            assert(key.len() == 12);
        } else if i == 3 {
            assert(key[1] == 'o');
        } else if i == 4 {
            assert(key.len() == 9);
        } else {
            assert(key.len() == 8);
        }
    }
}

} // verus!
