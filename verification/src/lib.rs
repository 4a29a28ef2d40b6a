//! Peer-to-peer file transfer over a local network: the receive-side and
//! send-side protocol logic, the shared registry of transfers, and the small
//! stores around them.

pub mod chunk;
pub mod client;
pub mod commands;
pub mod events;
pub mod favorites;
pub mod guarantees;
pub mod history;
pub mod naming;
pub mod platform;
pub mod progress;
pub mod registry;
pub mod request;
pub mod send;
pub mod server;
pub mod settings;
pub mod text;
pub mod types;
pub mod validate;
