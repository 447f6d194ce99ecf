//! The simple `query` model: titles or page ids with one property or one list.
pub mod query;
pub mod traits;
