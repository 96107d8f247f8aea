//! Launcher logic for a LaTeX language-server plugin.
//!
//! The library decides, from the host's initialization options, which
//! language-server binary to start and with which arguments, and builds the
//! document selector that tells the host which files the server handles.

pub mod launch;
pub mod options;
pub mod selector;
pub mod uri;
