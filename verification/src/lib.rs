//! Launch and configuration descriptors for the DigitalOcean MCP context server.
//!
//! The crate turns a project's settings for the server into the command that
//! starts it and into the documents that a settings form shows. Every function
//! works on plain values; talking to the editor is left to the caller.

pub mod configuration;
pub mod error;
pub mod launch;
pub mod settings;
pub mod text;
