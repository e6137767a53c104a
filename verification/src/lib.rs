//! The command registry and execution core of a small desktop launcher.
//!
//! The launcher keeps a user-defined list of named shell commands in a JSON
//! document, runs a chosen command through a fixed shell, and reports the
//! outcome as a one-line notification. This crate holds the decisions of that
//! program as verified functions on plain values; windows, files and
//! processes belong to the program around it.

pub mod add;
pub mod confirm;
pub mod error;
pub mod exec;
pub mod document;
pub mod placement;
pub mod store;
pub mod view;
