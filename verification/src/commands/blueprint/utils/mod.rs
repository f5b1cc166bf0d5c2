//! Helpers shared by the blueprint commands: project type detection and tree rendering.

pub mod project_detector;
pub mod tree_printer;
