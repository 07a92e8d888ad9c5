//! General helpers shared by the networking code.

pub mod error;
pub mod logger;

pub use error::RuntimeError;
