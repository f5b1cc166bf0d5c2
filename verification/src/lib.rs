//! DevRS: a containerized development environment tool. This crate holds what the
//! commands decide: their argument schemas and parsing, the blueprint listing, details
//! and scaffolding plans, the file tree drawing, the container and environment reports
//! and plans, the host setup steps, and the file server's settings, each with a contract
//! proved by Verus.

pub mod chatbot;
pub mod cli;
pub mod commands;
pub mod order;
pub mod text;

use vstd::prelude::*;

verus! {

} // verus!
