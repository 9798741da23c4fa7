//! Test automation bridge for a single-threaded interactive application.
//!
//! Network handlers turn requests into [`command::Command`]s, the frame loop
//! drains and applies them against a model of the live scene, and every reply
//! is formatted back into a response for the transport that asked.
pub mod channel;
pub mod command;
pub mod graphql;
pub mod request;
pub mod scene;
pub mod settings;
