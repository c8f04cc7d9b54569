//! OAuth 2.0 authorization-code client with PKCE for remote MCP servers.
//!
//! The crate holds the protocol decisions of one authentication attempt:
//! resolving the issuer origin and the canonical resource identifier,
//! choosing discovery candidates, registering a public client, building the
//! authorization and token requests, and judging the redirect that comes back
//! on the local callback. Network and browser work is left to the caller, who
//! feeds each reply back into the state machines defined here.
//!
//! * [`resource`] derives the issuer origin and the canonical resource
//!   identifier from the target URL, and [`authority`] reads the port that
//!   the URL states.
//! * [`discovery`] probes the well-known metadata paths in priority order.
//! * [`registration`] registers a public client.
//! * [`pkce`] and [`flow`] hold the secrets of an attempt and build its two
//!   requests.
//! * [`callback`] judges redirects and hands the code over exactly once.
//! * [`orchestrator`] is the state machine of the authorization itself, and
//!   [`session`] that of the whole attempt.
//! * [`error`] lists the failures.
//!
//! [`terminal`], [`render`], [`paths`] and [`status`] hold what the terminal
//! front end decides before it draws.

pub mod authority;
pub mod callback;
pub mod discovery;
pub mod error;
pub mod flow;
pub mod form;
pub mod http;
pub mod json;
pub mod orchestrator;
pub mod paths;
pub mod pkce;
pub mod registration;
pub mod render;
pub mod resource;
pub mod session;
pub mod status;
pub mod terminal;
pub mod text;
