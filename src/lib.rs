//! A typed client binding for Typeform's form-responses REST API.
//!
//! [`Typeform`] holds the client configuration and builds the two request
//! URLs and the authorization header. [`json::Json`] is a parsed JSON
//! document, and [`Responses::from_json`] decodes one into the typed model
//! of form responses, following the provider's schema.

pub mod client;
mod decode;
pub mod error;
pub mod json;
pub mod laws;
pub mod model;
pub mod schema;
pub mod tagged;

pub use client::Typeform;
pub use model::{Response, Responses};
