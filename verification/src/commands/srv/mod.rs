//! `devrs srv`: a static file server for local development.

pub mod config;
pub mod server_logic;
pub mod utils;
