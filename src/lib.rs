//! Bootstrap decisions for a desktop webview shell.
//!
//! The shell attaches optional capability plugins, runs a one-time setup
//! hook that may open developer tools on the `"main"` window, and starts
//! the host event loop. This crate holds those decisions as a verified
//! state machine; the host framework performs the actions it emits.

pub mod config;
pub mod bootstrap;
pub mod laws;
