//! A verified library for mirroring repositories.
//!
//! The library has two halves. The configuration half parses a YAML
//! document of `{from, to}` pairs into a [`config::MirrorConfig`],
//! with a contract that pins down exactly which documents are
//! accepted and what they parse to. The update half models one
//! mirror operation as a state machine over the four external
//! commands (clone, add remote, fetch, push): it decides which
//! command runs next and how the state advances on each command's
//! outcome, so that an unverified driver only has to execute the
//! commands it is handed.

pub mod cli;
pub mod config;
pub mod update;
pub mod yaml;
