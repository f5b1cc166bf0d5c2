//! The `devrs` subcommands.

pub mod blueprint;
pub mod container;
pub mod env;
pub mod outcomes;
pub mod setup;
pub mod srv;
