//! Common networking utils.

pub mod address;
pub mod buffer;
pub mod model;
pub mod timeout;

pub use address::{get_socket_address, IpAddr, IpAddrEx, Ipv4Addr, Ipv6Addr};
pub use buffer::WriteBuffer;
pub use model::{BufferOp, BufferState};
pub use timeout::Timeout;
