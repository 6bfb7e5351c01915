//! Orchestration of interface-description code generators: configuration
//! merging, destination naming, plugin command templates and the handshake
//! handed to each generator plugin.

pub mod config;
pub mod error;
pub mod merge;
pub mod package;
pub mod destination;
pub mod command;
pub mod handshake;
pub mod driver;
