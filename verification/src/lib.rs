//! Discovery of a host's IP interfaces and preparation of multicast datagram
//! sockets, as verified logic over plain values.
//!
//! The operating system's records are handed in as owned values
//! ([`RawSockAddr`], [`RawInterface`]); the library decodes them, filters
//! them, and decides every step of a multicast socket's construction. The
//! system calls themselves are made by the caller, one action at a time.

pub mod error;
pub mod ip_interface;
pub mod multicast;
pub mod platform;
pub mod sockaddr;

pub use error::NetError;
pub use ip_interface::{IpInterface, IpInterfaceView, RawInterface};
pub use multicast::{
    create_std_multicast_socket_ipv4, create_std_multicast_socket_ipv6,
    create_tokio_multicast_socket_ipv4, create_tokio_multicast_socket_ipv6, find_interface_index,
    Membership, MulticastSetup, OsEvent, SetupState, SocketAction,
};
pub use sockaddr::{
    socket_address_from, Ipv4Addr, Ipv6Addr, RawSockAddr, SocketAddr, SocketAddrV4, SocketAddrV6,
};
