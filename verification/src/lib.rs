//! Networking utilities: a self-compacting staging buffer for outbound data,
//! a timeout provider, address helpers and a logging interface.

pub mod net;
pub mod utils;
