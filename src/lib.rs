//! A small greeting service: its configuration is looked up in a fixed list
//! of candidate files, decoded from JSON, and served over two read-only
//! HTTP endpoints.
pub mod json;
pub mod config;
pub mod paths;
pub mod resolver;
pub mod service;

pub use config::{decode_members, Config, ParseFailure};
pub use paths::candidate_paths;
pub use resolver::{resolve, ConfigError, Loaded, Probe, Resolver};
pub use service::{health_handler, home_handler, listen_address, Response};
