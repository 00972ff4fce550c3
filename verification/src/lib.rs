//! Administrative command core for a hardware security token.
//!
//! One logical command table (identity, version, random bytes, wink, reboot,
//! firmware update) is served over two transports: a packet-based vendor
//! command channel and a smart-card style command/response channel. The
//! dispatcher here is pure decision logic: it classifies a command, enforces
//! the transport-specific preconditions, and either writes the reply bytes or
//! names the outside step (service call or reboot) that the surrounding
//! firmware must perform.

pub mod admin;
pub mod commands;
pub mod reboot;

pub use admin::App;
pub use reboot::Reboot;
