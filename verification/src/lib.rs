//! Runs a command, captures what it printed and plans the push notification
//! that reports the result.
//!
//! The library holds the rules: how the configuration is resolved, which
//! request is posted for which outcome, and the order of the steps of one
//! invocation. Spawning the child and sending the request are left to the
//! caller, which feeds what it observed back into [`run`].

pub mod config;
pub mod header;
pub mod laws;
pub mod notify;
pub mod runner;
pub mod text;

pub use config::{resolve, ConfigError, NtfyConfig};
pub use notify::{notify, send_message, HeaderError, Request};
pub use runner::{run, Action, Event, Failure, State, Step};
