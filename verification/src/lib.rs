//! A typed client library for a remote authentication service's HTTP API.
//!
//! The library owns the request shaping and response resolution for every
//! operation (sign-up, sign-in, session refresh, OTP delivery, OAuth URL
//! construction, user administration, server health and settings), together
//! with the client's single cached session. Network transport itself is left
//! to the embedding application: each operation is described by a
//! [`request::HttpRequest`] value, and the completed exchange (status code and
//! body text) is handed back to a resolution function that produces the typed
//! result or error.

pub mod client;
pub mod error;
pub mod json;
pub mod models;
pub mod oauth;
pub mod request;
pub mod resolve;
pub mod urlenc;

pub use client::AuthClient;
pub use error::Error;
pub use oauth::{LoginWithOAuthOptions, OAuthResponse, Provider};
pub use request::{HttpMethod, HttpRequest};
