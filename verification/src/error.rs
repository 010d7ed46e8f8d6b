//! The failures that the library reports.

use vstd::prelude::*;

verus! {

/// Why an operation of this library failed. Variants that stem from a failed
/// system call carry the operating system's error code.
#[derive(Clone, Copy, Debug, PartialEq, Eq, Structural)]
pub enum NetError {
    /// A raw address record is tagged with a family other than IPv4 or IPv6.
    UnsupportedFamily,
    /// An interface name is not valid UTF-8 text.
    InvalidInterfaceName,
    /// An interface record carries no address.
    NoAddress,
    /// An interface record carries no network mask.
    NoNetmask,
    /// The operating system could not list the interfaces.
    EnumerationFailed(i32),
    /// The group address is outside the multicast range.
    NotMulticastAddress,
    /// No datagram socket could be allocated.
    AllocationFailed(i32),
    /// Address reuse could not be enabled on the socket.
    SocketConfigurationFailed(i32),
    /// The socket could not be bound.
    BindFailed(i32),
    /// The socket could not join the multicast group.
    JoinFailed(i32),
}

impl NetError {
    /// The operating system's error code, where the failure has one.
    pub open spec fn spec_os_code(self) -> Option<i32> {
        match self {
            NetError::EnumerationFailed(c) => Some(c),
            NetError::AllocationFailed(c) => Some(c),
            NetError::SocketConfigurationFailed(c) => Some(c),
            NetError::BindFailed(c) => Some(c),
            NetError::JoinFailed(c) => Some(c),
            _ => None,
        }
    }

    /// The operating system's error code, where the failure has one.
    pub fn os_code(&self) -> (r: Option<i32>)
        ensures
            r == self.spec_os_code(),
    {
        match self {
            NetError::EnumerationFailed(c) => Some(*c),
            NetError::AllocationFailed(c) => Some(*c),
            NetError::SocketConfigurationFailed(c) => Some(*c),
            NetError::BindFailed(c) => Some(*c),
            NetError::JoinFailed(c) => Some(*c),
            _ => None,
        }
    }
}

} // verus!
