//! Bootstrap installer logic for the micromamba binary: resolve the host
//! platform to a release-artifact name, build the download URL, validate the
//! final HTTP status, model the append-only artifact file, collect the
//! installation configuration, and construct the shell-initialization
//! command line.

pub mod config;
pub mod download;
pub mod platform;
pub mod shell;
pub mod sink;
pub mod text;
