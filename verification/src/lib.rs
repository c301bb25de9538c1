//! A typed client core for the Telnyx REST API.
//!
//! [`Credentials`] say where the API lives and hold the key. For each kind of
//! record, [`accessor`] builds the request that lists or fetches it and turns
//! the body of the response into typed [`resources`]: [`json`] reads the body,
//! [`schema`] says what shape each record has in it, by the rules for single
//! fields in [`decode`], and a record of another kind than the one asked for
//! is an error, never a result. Sending the request is left to the caller.
//! [`laws`] states what holds of every response.

pub mod accessor;
pub mod credentials;
pub mod decode;
pub mod error;
pub mod json;
pub mod laws;
pub mod resources;
pub mod schema;

pub use credentials::Credentials;
pub use error::{ApiError, ErrorKind};
