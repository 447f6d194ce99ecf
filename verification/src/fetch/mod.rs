//! The rules of the image tool: its arguments, the rows of its local
//! database, its searches, downloads and database sync.
pub mod cache;
pub mod cli;
pub mod download;
pub mod error;
pub mod input;
pub mod prompt;
pub mod rows;
pub mod search;
pub mod sync;
