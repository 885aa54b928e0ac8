//! Client library for an Atom-style XML job service: forward-only parsers for
//! the three server document shapes (job list, job status, output-file
//! manifest) and the decision logic of the job lifecycle (path resolution,
//! response handling, submit form construction, download progress tracking).

pub mod client;
pub mod config;
pub mod digits;
pub mod errors;
pub mod events;
pub mod list;
pub mod manifest;
pub mod models;
pub mod report;
pub mod status;
pub mod strutil;
pub mod transfer;

pub use client::NsgClient;
pub use config::Credentials;
pub use errors::{NsgError, ParseError};
