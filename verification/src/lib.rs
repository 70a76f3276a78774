//! Relay core for a sandboxed front-end: event-stream framing and reassembly,
//! the per-session connection registry, the HTTP relay rules and the shared
//! network-client policy.

pub mod client;
pub mod connection;
pub mod distinct;
pub mod framer;
pub mod headers;
pub mod proxy_config;
pub mod reassembler;
pub mod relay;
pub mod registry;
pub mod stream;
pub mod text;
pub mod updater;
