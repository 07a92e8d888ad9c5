//! Networking building blocks.

pub mod utils;
