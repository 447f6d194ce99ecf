//! Interpreting the responses of the MediaWiki API.
pub mod error;
pub mod items;
pub mod query_response;

pub use items::{Categories, CategoryInfo, ImageInfo, Images, Info, PageImages, PropResults};
pub use query_response::{Continue, QueryResponse, QueryResult};
