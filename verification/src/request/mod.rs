//! Building the parameters of MediaWiki API requests.
pub mod error;
pub mod param_map;
pub mod params;
pub mod query;

pub use params::{ErrorFormat, Format, ParamsBuilder, PARAMS};
pub use query::{Action, GcmIdentifier, Generator, Limit, Prop, Query};
