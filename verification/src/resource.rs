//! Resource resolver: the issuer origin and the canonical resource
//! identifier of a target URL.

use vstd::prelude::*;
use vstd::string::StringExecFns;
use crate::authority::choose_port;
use crate::authority::explicit_port;
use crate::authority::stated_port;
use crate::authority::stated_port_of;
use crate::error::OAuthError;
use crate::error::OAuthErrorModel;
use crate::text::decimal;
use crate::text::lowercased;
use crate::text::push_char;
use crate::text::push_decimal;
use crate::text::str_eq;
use crate::text::to_lowercase;
use crate::text::trim;
use crate::text::trimmed;

verus! {

/// The components of an absolute URL that the resolver reads.
#[derive(Debug, Clone, PartialEq, Eq)]
pub struct UrlParts {
    /// The scheme, without the `:` that follows it.
    pub scheme: String,
    /// The host as it is serialized, if the URL has one.
    pub host: Option<String>,
    /// The port. As the parser reports it, it is missing where the URL
    /// states the default of its scheme; [`read_url`] puts the stated port
    /// there.
    pub port: Option<u16>,
    /// The path, percent-encoded.
    pub path: String,
}

/// Mathematical value of [`UrlParts`].
pub struct UrlModel {
    pub scheme: Seq<char>,
    pub host: Option<Seq<char>>,
    pub port: Option<u16>,
    pub path: Seq<char>,
}

impl View for UrlParts {
    type V = UrlModel;

    open spec fn view(&self) -> UrlModel {
        UrlModel {
            scheme: self.scheme@,
            host: self.host.deep_view(),
            port: self.port,
            path: self.path@,
        }
    }
}

/// What `url::Url::parse` makes of a string: `None` where it reports an
/// error, else the scheme, host, port and path of the parsed URL, as
/// `Url::scheme`, `Url::host_str`, `Url::port` and `Url::path` give them.
/// The port is missing where the URL states none and where it states the
/// default of its scheme.
pub uninterp spec fn parsed_url(input: Seq<char>) -> Option<UrlModel>;

#[verifier::external_type_specification]
#[verifier::external_body]
pub struct ExUrlParseError(url::ParseError);

/// Calls `url::Url::parse` and copies out what `Url::scheme`,
/// `Url::host_str`, `Url::port` and `Url::path` return. Trusted: the outcome
/// is a function of the input alone, named [`parsed_url`].
#[verifier::external_body]
pub(crate) fn parse_url(input: &str) -> (r: Result<UrlParts, url::ParseError>)
    ensures
        match r {
            Ok(parts) => parsed_url(input@) == Some(parts@),
            Err(_) => parsed_url(input@) is None,
        },
{
    match url::Url::parse(input) {
        Ok(u) => Ok(
            UrlParts {
                scheme: u.scheme().to_string(),
                host: match u.host_str() {
                    Some(host) => Some(host.to_string()),
                    None => None,
                },
                port: u.port(),
                path: u.path().to_string(),
            },
        ),
        Err(e) => Err(e),
    }
}

/// A URL as the resolver reads it: what the parser makes of the text, with
/// the port that the parser reports or, where it reports none, the port that
/// the text states, the default of the scheme too.
pub open spec fn url_of(text: Seq<char>) -> Option<UrlModel> {
    match parsed_url(text) {
        Some(u) => Some(UrlModel { port: explicit_port(u.port, stated_port_of(text)), ..u }),
        None => None,
    }
}

/// Mathematical value of an optional URL.
pub open spec fn parts_view(parts: Option<UrlParts>) -> Option<UrlModel> {
    match parts {
        Some(parts) => Some(parts@),
        None => None,
    }
}

/// Puts the port that the text states into the components that the parser
/// gave, where the parser reported none.
pub fn with_stated_port(parts: UrlParts, stated: Option<u16>) -> (r: UrlParts)
    ensures
        r@ == (UrlModel { port: explicit_port(parts@.port, stated), ..parts@ }),
{
    let port = choose_port(parts.port, stated);
    UrlParts { scheme: parts.scheme, host: parts.host, port, path: parts.path }
}

/// Reads a URL: its scheme, host and path as the parser gives them, and the
/// port that it states. `None` where the text does not parse as an absolute
/// URL.
pub fn read_url(text: &str) -> (r: Option<UrlParts>)
    ensures
        parts_view(r) == url_of(text@),
{
    match parse_url(text) {
        Ok(parts) => Some(with_stated_port(parts, stated_port(text))),
        Err(_) => None,
    }
}

/// `://`, which follows the scheme.
pub open spec fn authority_mark() -> Seq<char> {
    seq![':', '/', '/']
}

/// `:` and the decimal port, or nothing where there is no port.
pub open spec fn port_suffix(port: Option<u16>) -> Seq<char> {
    match port {
        Some(p) => seq![':'] + decimal(p as nat),
        None => Seq::empty(),
    }
}

/// The path as it is appended to a canonical resource identifier: nothing
/// where the path is empty or only `/`.
pub open spec fn path_suffix(path: Seq<char>) -> Seq<char> {
    if path.len() == 0 || path == seq!['/'] {
        Seq::empty()
    } else {
        path
    }
}

/// The issuer origin `scheme://host[:port]` of a URL, or `None` where it has
/// no host.
pub open spec fn origin_of(u: UrlModel) -> Option<Seq<char>> {
    match u.host {
        Some(host) => Some(u.scheme + authority_mark() + host + port_suffix(u.port)),
        None => None,
    }
}

/// The canonical resource identifier of a URL: lower-cased scheme and host,
/// the port if the URL has one, the path unless it is empty or `/`. `None`
/// where the URL has no host.
pub open spec fn canonical_of(u: UrlModel) -> Option<Seq<char>> {
    match u.host {
        Some(host) => Some(
            lowercased(u.scheme) + authority_mark() + lowercased(host) + port_suffix(u.port)
                + path_suffix(u.path),
        ),
        None => None,
    }
}

/// The issuer origin of a target as the caller wrote it: that of the URL
/// read from the trimmed text, with the port that the text states.
pub open spec fn target_origin(target: Seq<char>) -> Option<Seq<char>> {
    match url_of(trimmed(target)) {
        Some(u) => origin_of(u),
        None => None,
    }
}

/// The canonical resource identifier of a target as the caller wrote it:
/// that of the URL read from the trimmed text, with the port that the text
/// states, the default of the scheme too.
pub open spec fn target_resource(target: Seq<char>) -> Option<Seq<char>> {
    match url_of(trimmed(target)) {
        Some(u) => canonical_of(u),
        None => None,
    }
}

/// A stated port is kept, the default of the scheme too. Where a text
/// parses to a URL with a host and states a port, the issuer origin and the
/// canonical resource identifier of the URL that is read carry a port after
/// the host: the one that the parser reports, and the stated one where the
/// parser reports none. Where the text states no port and the parser reports
/// none, they carry none.
pub proof fn law_stated_port_is_kept(text: Seq<char>, parsed: UrlModel, host: Seq<char>)
    requires
        parsed_url(text) == Some(parsed),
        parsed.host == Some(host),
    ensures
        ({
            let port = explicit_port(parsed.port, stated_port_of(text));
            let read = url_of(text)->0;
            &&& url_of(text) is Some
            &&& read.port == port
            &&& origin_of(read) == Some(parsed.scheme + authority_mark() + host + port_suffix(port))
            &&& canonical_of(read) == Some(
                lowercased(parsed.scheme) + authority_mark() + lowercased(host) + port_suffix(port)
                    + path_suffix(parsed.path),
            )
            &&& stated_port_of(text) is Some ==> port is Some
            &&& parsed.port is None ==> port == stated_port_of(text)
            &&& port matches Some(p) ==> port_suffix(port) == seq![':'] + decimal(p as nat)
            &&& port is None ==> port_suffix(port) == Seq::<char>::empty()
        }),
{
}

fn push_port(out: &mut String, port: Option<u16>)
    ensures
        final(out)@ == old(out)@ + port_suffix(port),
{
    match port {
        Some(p) => {
            push_char(out, ':');
            push_decimal(out, p as u64);
            assert(old(out)@.push(':') + decimal(p as nat) == old(out)@ + (seq![':'] + decimal(
                p as nat,
            )));
        },
        None => {
            assert(old(out)@ + Seq::<char>::empty() == old(out)@);
        },
    }
}

fn push_authority_mark(out: &mut String)
    ensures
        final(out)@ == old(out)@ + authority_mark(),
{
    push_char(out, ':');
    push_char(out, '/');
    push_char(out, '/');
    assert(old(out)@.push(':').push('/').push('/') == old(out)@ + authority_mark());
}

/// Builds `scheme://host[:port]` from the components of a URL.
pub fn issuer_origin(parts: &UrlParts) -> (r: Option<String>)
    ensures
        r.deep_view() == origin_of(parts@),
{
    match &parts.host {
        Some(host) => {
            let mut out = parts.scheme.clone();
            push_authority_mark(&mut out);
            out.append(host.as_str());
            push_port(&mut out, parts.port);
            Some(out)
        },
        None => None,
    }
}

/// Builds the canonical resource identifier from the components of a URL.
pub fn canonical_resource(parts: &UrlParts) -> (r: Option<String>)
    ensures
        r.deep_view() == canonical_of(parts@),
{
    match &parts.host {
        Some(host) => {
            let mut out = to_lowercase(parts.scheme.as_str());
            push_authority_mark(&mut out);
            let host_lower = to_lowercase(host.as_str());
            out.append(host_lower.as_str());
            push_port(&mut out, parts.port);
            let path = parts.path.as_str();
            proof {
                reveal_strlit("/");
                assert("/"@ == seq!['/']);
            }
            if !path.is_empty() && !str_eq(path, "/") {
                out.append(path);
            } else {
                assert(out@ + Seq::<char>::empty() == out@);
            }
            Some(out)
        },
        None => None,
    }
}

/// OAuth configuration of one service.
#[derive(Debug, Clone)]
pub struct ServiceConfig {
    /// The issuer origin: scheme, host and optional port, with no path.
    pub oauth_host: String,
    /// Where the authorization server sends the browser back to.
    pub redirect_uri: String,
    /// The name under which the client registers.
    pub client_name: String,
    /// The home page that the client registers.
    pub client_uri: String,
    /// A discovery path that is tried before the well-known ones.
    pub discovery_path: Option<String>,
}

/// Mathematical value of a [`ServiceConfig`].
pub struct ServiceConfigModel {
    pub oauth_host: Seq<char>,
    pub redirect_uri: Seq<char>,
    pub client_name: Seq<char>,
    pub client_uri: Seq<char>,
    pub discovery_path: Option<Seq<char>>,
}

impl View for ServiceConfig {
    type V = ServiceConfigModel;

    open spec fn view(&self) -> ServiceConfigModel {
        ServiceConfigModel {
            oauth_host: self.oauth_host@,
            redirect_uri: self.redirect_uri@,
            client_name: self.client_name@,
            client_uri: self.client_uri@,
            discovery_path: self.discovery_path.deep_view(),
        }
    }
}

/// The loopback address on which the redirect is received.
pub const DEFAULT_REDIRECT_URI: &'static str = "http://127.0.0.1:8020/";

/// The name under which the client registers.
pub const DEFAULT_CLIENT_NAME: &'static str = "Goose MCP Client";

/// The home page that the client registers.
pub const DEFAULT_CLIENT_URI: &'static str = "https://github.com/block/goose";

/// The configuration that a target with the given issuer origin gets.
pub open spec fn default_config(origin: Seq<char>) -> ServiceConfigModel {
    ServiceConfigModel {
        oauth_host: origin,
        redirect_uri: DEFAULT_REDIRECT_URI@,
        client_name: DEFAULT_CLIENT_NAME@,
        client_uri: DEFAULT_CLIENT_URI@,
        discovery_path: None,
    }
}

impl ServiceConfig {
    /// Creates the configuration for the server behind `mcp_url`: the issuer
    /// origin of that URL, and the fixed redirect URI, client name and client
    /// URI. Fails with `InvalidTarget` where the URL does not parse or has no
    /// host.
    pub fn from_mcp_endpoint(mcp_url: &str) -> (r: Result<Self, OAuthError>)
        ensures
            match target_origin(mcp_url@) {
                Some(origin) => r is Ok && r->Ok_0@ == default_config(origin),
                None => r is Err && r->Err_0@ == OAuthErrorModel::InvalidTarget,
            },
    {
        let parts = match read_url(trim(mcp_url)) {
            Some(parts) => parts,
            None => {
                return Err(OAuthError::InvalidTarget);
            },
        };
        match issuer_origin(&parts) {
            Some(oauth_host) => Ok(
                ServiceConfig {
                    oauth_host,
                    redirect_uri: String::from_str(DEFAULT_REDIRECT_URI),
                    client_name: String::from_str(DEFAULT_CLIENT_NAME),
                    client_uri: String::from_str(DEFAULT_CLIENT_URI),
                    discovery_path: None,
                },
            ),
            None => Err(OAuthError::InvalidTarget),
        }
    }

    /// Puts `discovery_path` before the well-known discovery paths.
    pub fn with_custom_discovery(self, discovery_path: String) -> (r: Self)
        ensures
            r@ == (ServiceConfigModel { discovery_path: Some(discovery_path@), ..self@ }),
    {
        let mut config = self;
        config.discovery_path = Some(discovery_path);
        config
    }

    /// The canonical resource identifier of the server behind `mcp_url`, sent
    /// as the `resource` parameter of the authorization and token requests.
    /// Fails with `InvalidTarget` where the URL does not parse or has no host.
    pub fn get_canonical_resource_uri(&self, mcp_url: &str) -> (r: Result<String, OAuthError>)
        ensures
            match target_resource(mcp_url@) {
                Some(resource) => r is Ok && r->Ok_0@ == resource,
                None => r is Err && r->Err_0@ == OAuthErrorModel::InvalidTarget,
            },
    {
        let parts = match read_url(trim(mcp_url)) {
            Some(parts) => parts,
            None => {
                return Err(OAuthError::InvalidTarget);
            },
        };
        match canonical_resource(&parts) {
            Some(resource) => Ok(resource),
            None => Err(OAuthError::InvalidTarget),
        }
    }
}

} // verus!
