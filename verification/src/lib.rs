//! Core of a small authentication backend: validated credential values,
//! a bearer-token guard, classification of the identity provider's
//! responses, and the mapping from the error taxonomy to HTTP responses.

pub mod email;
pub mod errors;
pub mod guard;
pub mod handlers;
pub mod http_response;
pub mod password;
pub mod provider;
pub mod text;
