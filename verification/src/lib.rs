//! Sockets over a user-space TCP/IP stack, and the virtual device beneath it.
//!
//! The stack itself, its sockets and its routing table are those of `smoltcp`; what the calls
//! into it do is stated in `sockets`, `routes` and `error`, over plain values. On top of them
//! stand the stack with its callbacks (`stack`, `with_device`), a socket for tasks
//! (`smol_socket`), the thread that serves a stack (`run`), and a device whose packets come
//! and go through callbacks (`virtual_tun`, `vpn`). What callbacks are handed goes through
//! `sockets::handover` and `reader`, and is recorded in `calls`. What holds over several calls
//! is stated in `laws`.
pub mod addr;
pub mod calls;
pub mod error;
pub mod handle_map;
pub mod laws;
pub mod reader;
pub mod routes;
pub mod run;
pub mod smol_socket;
pub mod socket;
pub mod sockets;
pub mod stack;
pub mod virtual_tun;
pub mod vpn;
pub mod with_device;

pub use addr::{IpAddr, IpAddress, IpCidr, IpEndpoint, Ipv4Address, Ipv6Address, SocketAddr};
pub use error::SmoltcpError;
pub use smol_socket::{SmolSocket, SocketQueue};
pub use socket::{OnTcpSocketData, OnUdpSocketData, SocketConnectionError};
pub use socket::{SocketReceiveError, SocketSendError, SocketType};
pub use stack::{OnSocketData, PollWaitError, SmolStack, SpinError, __feed__};
pub use virtual_tun::{VirtualTunInterface, VirtualTunReadError, VirtualTunWriteError};
pub use with_device::{SmolStackWithDevice, DEFAULT_MTU};
