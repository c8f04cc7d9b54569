//! The failures that end an authentication attempt.

use vstd::prelude::*;

verus! {

/// Why one discovery candidate was passed over.
#[derive(Debug, Clone, PartialEq, Eq)]
pub enum ProbeFault {
    /// The request did not complete; the text describes the transport failure.
    Transport(String),
    /// The response succeeded, but its body is not JSON.
    InvalidJson,
    /// The document has no string member `authorization_endpoint`.
    MissingAuthorizationEndpoint,
    /// The document has no string member `token_endpoint`.
    MissingTokenEndpoint,
}

/// Mathematical value of a [`ProbeFault`].
pub enum ProbeFaultModel {
    Transport(Seq<char>),
    InvalidJson,
    MissingAuthorizationEndpoint,
    MissingTokenEndpoint,
}

impl View for ProbeFault {
    type V = ProbeFaultModel;

    open spec fn view(&self) -> ProbeFaultModel {
        match self {
            ProbeFault::Transport(detail) => ProbeFaultModel::Transport(detail@),
            ProbeFault::InvalidJson => ProbeFaultModel::InvalidJson,
            ProbeFault::MissingAuthorizationEndpoint => ProbeFaultModel::MissingAuthorizationEndpoint,
            ProbeFault::MissingTokenEndpoint => ProbeFaultModel::MissingTokenEndpoint,
        }
    }
}

/// A failed authentication attempt.
#[derive(Debug, Clone, PartialEq, Eq)]
pub enum OAuthError {
    /// The target URL cannot be parsed or names no host.
    InvalidTarget,
    /// The redirect URI of the configuration cannot be parsed.
    InvalidRedirectUri,
    /// Every discovery candidate failed.
    DiscoveryExhausted {
        /// The candidate paths, in the order in which they were tried.
        attempted: Vec<String>,
        /// The fault of the last candidate that reported one.
        last_cause: Option<ProbeFault>,
    },
    /// The issuer advertises no registration endpoint.
    NoRegistrationEndpoint,
    /// The registration endpoint refused, or its answer names no client.
    RegistrationFailed { status: u16, body: String },
    /// No valid redirect arrived within the bound.
    AuthorizationTimeout,
    /// The token endpoint refused the exchange.
    TokenExchangeFailed { body: String },
    /// The token endpoint answered without an access token.
    MalformedTokenResponse,
}

/// Mathematical value of an [`OAuthError`].
pub enum OAuthErrorModel {
    InvalidTarget,
    InvalidRedirectUri,
    DiscoveryExhausted { attempted: Seq<Seq<char>>, last_cause: Option<ProbeFaultModel> },
    NoRegistrationEndpoint,
    RegistrationFailed { status: u16, body: Seq<char> },
    AuthorizationTimeout,
    TokenExchangeFailed { body: Seq<char> },
    MalformedTokenResponse,
}

/// Mathematical value of an optional fault.
pub open spec fn fault_view(fault: Option<ProbeFault>) -> Option<ProbeFaultModel> {
    match fault {
        Some(f) => Some(f@),
        None => None,
    }
}

impl View for OAuthError {
    type V = OAuthErrorModel;

    open spec fn view(&self) -> OAuthErrorModel {
        match self {
            OAuthError::InvalidTarget => OAuthErrorModel::InvalidTarget,
            OAuthError::InvalidRedirectUri => OAuthErrorModel::InvalidRedirectUri,
            OAuthError::DiscoveryExhausted { attempted, last_cause } => OAuthErrorModel::DiscoveryExhausted {
                attempted: attempted.deep_view(),
                last_cause: fault_view(*last_cause),
            },
            OAuthError::NoRegistrationEndpoint => OAuthErrorModel::NoRegistrationEndpoint,
            OAuthError::RegistrationFailed { status, body } => OAuthErrorModel::RegistrationFailed {
                status: *status,
                body: body@,
            },
            OAuthError::AuthorizationTimeout => OAuthErrorModel::AuthorizationTimeout,
            OAuthError::TokenExchangeFailed { body } => OAuthErrorModel::TokenExchangeFailed {
                body: body@,
            },
            OAuthError::MalformedTokenResponse => OAuthErrorModel::MalformedTokenResponse,
        }
    }
}

} // verus!
