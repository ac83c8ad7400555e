//! An OAuth2 authorization-code flow engine.
//!
//! The crate drives the three legs of the flow without doing any I/O itself:
//! it builds the redirect to the provider, validates the callback against the
//! pending CSRF state, and turns the token endpoint's answer into a
//! [`TokenResponse`]. Sending the redirect, keeping the session and talking to
//! the token endpoint are left to the caller.

pub mod config;
pub mod error;
pub mod flow;
pub mod form;
pub mod hyper_rustls_adapter;
pub mod json;
pub mod state;
pub mod text;
pub mod token;
pub mod uri;

pub use config::{OAuthConfig, Preset, ProviderConfig};
pub use error::{Error, ErrorKind};
pub use flow::{Callback, LoginAttempt, Phase};
pub use hyper_rustls_adapter::{ExchangeRequest, HyperRustlsAdapter};
pub use json::JsonValue;
pub use state::CsrfState;
pub use token::{TokenRequest, TokenResponse};
pub use uri::AbsoluteUri;
