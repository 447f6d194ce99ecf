//! A client library for the MediaWiki API of destinypedia.com: request
//! parameter building, response interpretation, and the rules of the
//! local image database that mirrors the wiki.
pub mod error;
pub mod fetch;
pub mod models;
pub mod prebuilt;
pub mod request;
pub mod response;
pub mod text;
pub mod types;

pub use types::{DestinypediaError, NAMESPACE};
