//! Temporarily overrides a host's DNS resolver configuration and restores it.
//!
//! The library decides; a driver performs. Each operation is a `Session` that
//! hands out one `Action` at a time (copy a file, write a file, restart a
//! service, list routes, configure an interface) and is told how it went.
//! `fs_model` states what the file-based strategies do to the files.
pub mod mode;
pub mod plan;
pub mod fs_model;
pub mod text;
pub mod routes;
pub mod session;
