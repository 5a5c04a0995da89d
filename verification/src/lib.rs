//! A verified core for a Reddit media crawler: a pure classifier from post
//! payloads to download descriptors, a schema-versioned resumable download
//! cache with composite-key upserts, and the decision logic of a
//! bounded-concurrency download engine.

pub mod check_file_scheme;
pub mod cli;
pub mod dates;
pub mod downloader;
pub mod filesystem;
pub mod reddit;
pub mod reddit_parser;
pub mod redgifs;
pub mod state;
pub mod submitted_response;
pub mod text;
pub mod user_about;
