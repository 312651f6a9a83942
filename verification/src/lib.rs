//! The core of a small message broker, with its behaviour stated in
//! contracts and proved.
//!
//! Clients, each known by its identity, register with the broker, send one
//! another messages through it, and leave; an operator with the identity
//! `root` commands it. The crate holds what both sides decide and compute,
//! and leaves sockets, threads and the console to the program around it.
//!
//! - `protocol`: the messages.
//! - `json`, `time`: JSON documents and timestamps, read and written by
//!   serde_json and chrono.
//! - `codec`: the wire format of the messages.
//! - `registry`: who is registered.
//! - `broker`: what the broker does with each message.
//! - `agent`: the steps of a client's network loop.
//! - `coordinator`: how a loop reports its start and is told to stop.
//! - `shell`: the command lines.
//! - `text`: comparing strings.

pub mod agent;
pub mod broker;
pub mod codec;
pub mod coordinator;
pub mod json;
pub mod protocol;
pub mod registry;
pub mod shell;
pub mod text;
pub mod time;
