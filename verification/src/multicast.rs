//! Construction of multicast datagram sockets, as a sequence of decisions.
//!
//! A socket is built by system calls that only the caller can make. The
//! library decides: [`create_std_multicast_socket_ipv4`] and
//! [`create_std_multicast_socket_ipv6`] check the group address and give the
//! initial [`MulticastSetup`]; [`MulticastSetup::action`] says which call is
//! due; [`MulticastSetup::step`] takes the call's outcome and gives the next
//! state. The caller repeats this until the action is `Finish` or `Fail`.
//! [`create_tokio_multicast_socket_ipv4`] and
//! [`create_tokio_multicast_socket_ipv6`] prepare the same construction with
//! one more step at its end, which makes the socket non-blocking, as an
//! asynchronous runtime needs it.
//!
//! Every failure after the socket was allocated asks the caller to close it,
//! a failed join included: the socket is released exactly once on every
//! failure and never on success.

use vstd::prelude::*;
use crate::error::NetError;
use crate::ip_interface::{collected, has_flag, views, IpInterface, IpInterfaceView, RawInterface};
use crate::platform::{
    big_endian_bytes, little_endian_bytes, native_bytes, AF_INET, AF_INET6, IFF_MULTICAST,
};
use crate::sockaddr::{
    encoded_v4, encoded_v6_with, Ipv4Addr, Ipv6Addr, RawSockAddr, SocketAddr, SocketAddrV4,
    SocketAddrV6,
};

verus! {

/// The group to join and the local interface to join it on.
#[allow(inconsistent_fields)]
#[derive(Clone, Copy, Debug, PartialEq, Eq)]
pub enum Membership {
    V4 { group: Ipv4Addr, interface: Ipv4Addr },
    V6 { group: Ipv6Addr, interface: Ipv6Addr },
}

/// How far the construction has come.
#[derive(Clone, Copy, Debug, PartialEq, Eq)]
pub enum SetupState {
    /// No socket yet; its allocation is due.
    Allocating,
    /// The socket exists; address reuse is to be enabled.
    Configuring { socket: i32 },
    /// The socket is to be bound.
    Binding { socket: i32 },
    /// The interfaces are to be listed, to find the index to join on.
    Resolving { socket: i32 },
    /// The group is to be joined. `index` is the interface index for an IPv6
    /// join, and 0 for IPv4.
    Joining { socket: i32, index: u32 },
    /// The group is joined; the socket is to be made non-blocking.
    Unblocking { socket: i32 },
    /// The socket is bound and has joined the group.
    Ready { socket: i32 },
    /// The construction failed. `release` is the socket that the caller has
    /// to close, where one was allocated.
    Failed { error: NetError, release: Option<i32> },
}

/// A multicast socket under construction.
#[derive(Clone, Copy, Debug, PartialEq, Eq)]
pub struct MulticastSetup {
    /// The group and the interface.
    pub membership: Membership,
    /// The record of the address to bind to.
    pub bind_address: RawSockAddr,
    /// Whether the socket is to be made non-blocking at the end.
    pub nonblocking: bool,
    /// The progress made.
    pub state: SetupState,
}

/// The system call that is due, or the end of the construction.
#[allow(inconsistent_fields)]
#[derive(Clone, Copy, Debug, PartialEq, Eq)]
pub enum SocketAction {
    /// Allocate a datagram socket of this family.
    Allocate { family: u16 },
    /// Enable address reuse on the socket.
    EnableReuse { socket: i32 },
    /// Bind the socket to this address record.
    Bind { socket: i32, address: RawSockAddr },
    /// List the host's interfaces.
    ListInterfaces,
    /// Join the IPv4 group on the interface with this address.
    JoinV4 { socket: i32, group: Ipv4Addr, interface: Ipv4Addr },
    /// Join the IPv6 group on the interface with this index.
    JoinV6 { socket: i32, group: Ipv6Addr, index: u32 },
    /// Make the socket non-blocking.
    SetNonBlocking { socket: i32 },
    /// Done: the socket now belongs to the caller.
    Finish { socket: i32 },
    /// Failed: close the socket, where there is one, and report the error.
    Fail { close: Option<i32>, error: NetError },
}

/// The outcome of the system call that was due.
#[derive(Debug, PartialEq, Eq)]
pub enum OsEvent {
    /// A socket call returned: the descriptor for an allocation and 0 for
    /// any other call, or the error code with which it failed.
    Completed(Result<i32, i32>),
    /// The interface listing returned: the records, or the error code.
    Interfaces(Result<Vec<RawInterface>, i32>),
}

/// Whether an interface has the given IPv6 address and supports multicast.
pub open spec fn joins_on(interface: IpInterfaceView, addr: Ipv6Addr) -> bool {
    &&& interface.address matches SocketAddr::V6(a)
    &&& a.ip == addr
    &&& has_flag(interface.flags, IFF_MULTICAST)
}

/// The index of the first interface that has the given address and supports
/// multicast; 0, which stands for any interface, where there is none.
pub open spec fn interface_index(interfaces: Seq<IpInterfaceView>, addr: Ipv6Addr) -> u32
    decreases interfaces.len(),
{
    if interfaces.len() == 0 {
        0
    } else if joins_on(interfaces.first(), addr) {
        interfaces.first().index
    } else {
        interface_index(interfaces.drop_first(), addr)
    }
}

/// The initial state for an IPv4 group, binding to the group's own address
/// and port; refused where the address is no multicast address.
pub open spec fn setup_v4(group: SocketAddrV4, interface: Ipv4Addr, nonblocking: bool) -> Result<
    MulticastSetup,
    NetError,
> {
    if group.ip.spec_is_multicast() {
        Ok(
            MulticastSetup {
                membership: Membership::V4 { group: group.ip, interface },
                bind_address: encoded_v4(group),
                nonblocking,
                state: SetupState::Allocating,
            },
        )
    } else {
        Err(NetError::NotMulticastAddress)
    }
}

/// The initial state for an IPv6 group, binding to the group's address, port
/// and flow information, with `scope` as the bytes of the record's scope id;
/// refused where the address is no multicast address.
pub open spec fn setup_v6(
    group: SocketAddrV6,
    interface: Ipv6Addr,
    scope: [u8; 4],
    nonblocking: bool,
) -> Result<MulticastSetup, NetError> {
    if group.ip.spec_is_multicast() {
        Ok(
            MulticastSetup {
                membership: Membership::V6 { group: group.ip, interface },
                bind_address: encoded_v6_with(group.ip, group.port, group.flowinfo, scope),
                nonblocking,
                state: SetupState::Allocating,
            },
        )
    } else {
        Err(NetError::NotMulticastAddress)
    }
}

/// The scope id that an IPv6 bind carries: the second octet of the group
/// address, not the address's own scope id.
pub open spec fn bind_scope(group: SocketAddrV6) -> u32 {
    group.ip.octets[1] as u32
}

impl MulticastSetup {
    /// The invariant of a setup: the group is a multicast address, the bind
    /// record is of the group's family, and only an IPv6 setup lists the
    /// interfaces.
    pub open spec fn wf(self) -> bool {
        match self.membership {
            Membership::V4 { group, .. } => {
                &&& group.spec_is_multicast()
                &&& self.bind_address.family == AF_INET
                &&& !(self.state is Resolving)
            },
            Membership::V6 { group, .. } => {
                &&& group.spec_is_multicast()
                &&& self.bind_address.family == AF_INET6
            },
        }
    }

    /// The socket that the setup holds, where one was allocated and is not
    /// yet given up.
    pub open spec fn spec_socket(self) -> Option<i32> {
        match self.state {
            SetupState::Allocating => None,
            SetupState::Configuring { socket } => Some(socket),
            SetupState::Binding { socket } => Some(socket),
            SetupState::Resolving { socket } => Some(socket),
            SetupState::Joining { socket, .. } => Some(socket),
            SetupState::Unblocking { socket } => Some(socket),
            SetupState::Ready { socket } => Some(socket),
            SetupState::Failed { .. } => None,
        }
    }

    /// The action that is due in this state.
    pub open spec fn spec_action(self) -> SocketAction {
        match self.state {
            SetupState::Allocating => SocketAction::Allocate { family: self.bind_address.family },
            SetupState::Configuring { socket } => SocketAction::EnableReuse { socket },
            SetupState::Binding { socket } => SocketAction::Bind {
                socket,
                address: self.bind_address,
            },
            SetupState::Resolving { .. } => SocketAction::ListInterfaces,
            SetupState::Joining { socket, index } => match self.membership {
                Membership::V4 { group, interface } => SocketAction::JoinV4 {
                    socket,
                    group,
                    interface,
                },
                Membership::V6 { group, .. } => SocketAction::JoinV6 { socket, group, index },
            },
            SetupState::Unblocking { socket } => SocketAction::SetNonBlocking { socket },
            SetupState::Ready { socket } => SocketAction::Finish { socket },
            SetupState::Failed { error, release } => SocketAction::Fail { close: release, error },
        }
    }

    /// The index to join on, given the host's interface listing: for IPv6 the
    /// index of the first multicast-capable interface with the setup's
    /// interface address, 0 where there is none; for IPv4 always 0.
    pub open spec fn spec_join_index(self, records: Seq<RawInterface>) -> u32 {
        match self.membership {
            Membership::V4 { .. } => 0,
            Membership::V6 { interface, .. } => interface_index(collected(records), interface),
        }
    }

    /// The state after the outcome `event` of the action that was due. An
    /// event that does not answer that action changes nothing.
    pub open spec fn spec_step(self, event: OsEvent) -> SetupState {
        match (self.state, event) {
            (SetupState::Allocating, OsEvent::Completed(Ok(socket))) => SetupState::Configuring {
                socket,
            },
            (SetupState::Allocating, OsEvent::Completed(Err(code))) => SetupState::Failed {
                error: NetError::AllocationFailed(code),
                release: None,
            },
            (SetupState::Configuring { socket }, OsEvent::Completed(Ok(_))) => SetupState::Binding {
                socket,
            },
            (SetupState::Configuring { socket }, OsEvent::Completed(Err(code))) => {
                SetupState::Failed {
                    error: NetError::SocketConfigurationFailed(code),
                    release: Some(socket),
                }
            },
            (SetupState::Binding { socket }, OsEvent::Completed(Ok(_))) => {
                if self.membership is V4 {
                    SetupState::Joining { socket, index: 0 }
                } else {
                    SetupState::Resolving { socket }
                }
            },
            (SetupState::Binding { socket }, OsEvent::Completed(Err(code))) => SetupState::Failed {
                error: NetError::BindFailed(code),
                release: Some(socket),
            },
            (SetupState::Resolving { socket }, OsEvent::Interfaces(Ok(records))) => {
                SetupState::Joining { socket, index: self.spec_join_index(records@) }
            },
            (SetupState::Resolving { socket }, OsEvent::Interfaces(Err(code))) => {
                SetupState::Failed {
                    error: NetError::EnumerationFailed(code),
                    release: Some(socket),
                }
            },
            (SetupState::Joining { socket, .. }, OsEvent::Completed(Ok(_))) => {
                if self.nonblocking {
                    SetupState::Unblocking { socket }
                } else {
                    SetupState::Ready { socket }
                }
            },
            (SetupState::Joining { socket, .. }, OsEvent::Completed(Err(code))) => {
                SetupState::Failed { error: NetError::JoinFailed(code), release: Some(socket) }
            },
            (SetupState::Unblocking { socket }, OsEvent::Completed(Ok(_))) => SetupState::Ready {
                socket,
            },
            (SetupState::Unblocking { socket }, OsEvent::Completed(Err(code))) => {
                SetupState::Failed {
                    error: NetError::SocketConfigurationFailed(code),
                    release: Some(socket),
                }
            },
            (state, _) => state,
        }
    }

    /// The setup after a sequence of outcomes, taken one by one.
    pub open spec fn after(self, events: Seq<OsEvent>) -> MulticastSetup
        decreases events.len(),
    {
        if events.len() == 0 {
            self
        } else {
            let before = self.after(events.drop_last());
            MulticastSetup {
                membership: before.membership,
                bind_address: before.bind_address,
                nonblocking: before.nonblocking,
                state: before.spec_step(events.last()),
            }
        }
    }

    /// The initial state for an IPv6 group whose bind record carries `scope`
    /// as the bytes of its scope id.
    pub fn for_ipv6_with_scope(
        mc_address: &SocketAddrV6,
        interface: &Ipv6Addr,
        scope: [u8; 4],
        nonblocking: bool,
    ) -> (r: Result<MulticastSetup, NetError>)
        ensures
            r == setup_v6(*mc_address, *interface, scope, nonblocking),
            r matches Ok(setup) ==> setup.wf(),
    {
        if !mc_address.ip.is_multicast() {
            return Err(NetError::NotMulticastAddress);
        }
        Ok(
            MulticastSetup {
                membership: Membership::V6 { group: mc_address.ip, interface: *interface },
                bind_address: RawSockAddr::from_v6_with(
                    &mc_address.ip,
                    mc_address.port,
                    mc_address.flowinfo,
                    scope,
                ),
                nonblocking,
                state: SetupState::Allocating,
            },
        )
    }

    /// The action that is due in this state.
    pub fn action(&self) -> (r: SocketAction)
        ensures
            r == self.spec_action(),
    {
        match self.state {
            SetupState::Allocating => SocketAction::Allocate { family: self.bind_address.family },
            SetupState::Configuring { socket } => SocketAction::EnableReuse { socket },
            SetupState::Binding { socket } => SocketAction::Bind {
                socket,
                address: self.bind_address,
            },
            SetupState::Resolving { .. } => SocketAction::ListInterfaces,
            SetupState::Joining { socket, index } => match self.membership {
                Membership::V4 { group, interface } => SocketAction::JoinV4 {
                    socket,
                    group,
                    interface,
                },
                Membership::V6 { group, .. } => SocketAction::JoinV6 { socket, group, index },
            },
            SetupState::Unblocking { socket } => SocketAction::SetNonBlocking { socket },
            SetupState::Ready { socket } => SocketAction::Finish { socket },
            SetupState::Failed { error, release } => SocketAction::Fail { close: release, error },
        }
    }

    /// Takes the outcome of the action that was due and gives the next state.
    ///
    /// Success moves on: allocate, enable reuse, bind, for IPv6 list the
    /// interfaces, join, where asked for make non-blocking, ready. A failure
    /// ends the construction with the error of the step that failed, and with
    /// the socket to close where one exists. Group, interface and bind record
    /// never change.
    pub fn step(self, event: OsEvent) -> (r: MulticastSetup)
        ensures
            r.state == self.spec_step(event),
            r.membership == self.membership,
            r.bind_address == self.bind_address,
            r.nonblocking == self.nonblocking,
            self.wf() ==> r.wf(),
            r.state matches SetupState::Failed { release, .. } ==> self.state is Failed || release
                == self.spec_socket(),
            !(r.state is Failed) && self.spec_socket() is Some ==> r.spec_socket()
                == self.spec_socket(),
            r.state is Ready && !(self.state is Ready) ==> self.state is Joining
                || self.state is Unblocking,
            r.state is Unblocking && !(self.state is Unblocking) ==> self.state is Joining
                && self.nonblocking,
    {
        let state = match (self.state, event) {
            (SetupState::Allocating, OsEvent::Completed(Ok(socket))) => SetupState::Configuring {
                socket,
            },
            (SetupState::Allocating, OsEvent::Completed(Err(code))) => SetupState::Failed {
                error: NetError::AllocationFailed(code),
                release: None,
            },
            (SetupState::Configuring { socket }, OsEvent::Completed(Ok(_))) => SetupState::Binding {
                socket,
            },
            (SetupState::Configuring { socket }, OsEvent::Completed(Err(code))) => {
                SetupState::Failed {
                    error: NetError::SocketConfigurationFailed(code),
                    release: Some(socket),
                }
            },
            (SetupState::Binding { socket }, OsEvent::Completed(Ok(_))) => {
                match self.membership {
                    Membership::V4 { .. } => SetupState::Joining { socket, index: 0 },
                    Membership::V6 { .. } => SetupState::Resolving { socket },
                }
            },
            (SetupState::Binding { socket }, OsEvent::Completed(Err(code))) => SetupState::Failed {
                error: NetError::BindFailed(code),
                release: Some(socket),
            },
            (SetupState::Resolving { socket }, OsEvent::Interfaces(inventory)) => {
                match IpInterface::retrieve_ip_interfaces(inventory) {
                    Ok(interfaces) => {
                        let index = match self.membership {
                            Membership::V4 { .. } => 0,
                            Membership::V6 { interface, .. } => find_interface_index(
                                &interfaces,
                                &interface,
                            ),
                        };
                        SetupState::Joining { socket, index }
                    },
                    Err(error) => SetupState::Failed { error, release: Some(socket) },
                }
            },
            (SetupState::Joining { socket, .. }, OsEvent::Completed(Ok(_))) => {
                if self.nonblocking {
                    SetupState::Unblocking { socket }
                } else {
                    SetupState::Ready { socket }
                }
            },
            (SetupState::Joining { socket, .. }, OsEvent::Completed(Err(code))) => {
                SetupState::Failed { error: NetError::JoinFailed(code), release: Some(socket) }
            },
            (SetupState::Unblocking { socket }, OsEvent::Completed(Ok(_))) => SetupState::Ready {
                socket,
            },
            (SetupState::Unblocking { socket }, OsEvent::Completed(Err(code))) => {
                SetupState::Failed {
                    error: NetError::SocketConfigurationFailed(code),
                    release: Some(socket),
                }
            },
            (state, _) => state,
        };
        MulticastSetup {
            membership: self.membership,
            bind_address: self.bind_address,
            nonblocking: self.nonblocking,
            state,
        }
    }
}

/// Searches the interfaces for a multicast-capable one with the given
/// address and returns its index. Where several fit, the first counts; where
/// none fits, the result is 0, which stands for any interface.
pub fn find_interface_index(interfaces: &Vec<IpInterface>, addr: &Ipv6Addr) -> (r: u32)
    ensures
        r == interface_index(views(interfaces@), *addr),
        (forall|k: int| 0 <= k < interfaces.len() ==> !joins_on(#[trigger] interfaces[k]@, *addr))
            ==> r == 0,
{
    let ghost all = views(interfaces@);
    let mut i: usize = 0;
    assert(all.subrange(0, all.len() as int) =~= all);
    while i < interfaces.len()
        invariant
            i <= interfaces.len(),
            all == views(interfaces@),
            interface_index(all, *addr) == interface_index(
                all.subrange(i as int, all.len() as int),
                *addr,
            ),
            forall|k: int| 0 <= k < i ==> !joins_on(#[trigger] interfaces[k]@, *addr),
        decreases interfaces.len() - i,
    {
        let interface = &interfaces[i];
        let ghost rest = all.subrange(i as int, all.len() as int);
        assert(rest.first() == interface@);
        assert(rest.drop_first() =~= all.subrange(i + 1, all.len() as int));
        let fits = match &interface.address {
            SocketAddr::V6(a) => a.ip.same(addr) && interface.supports_multicast(),
            SocketAddr::V4(_) => false,
        };
        if fits {
            return interface.index;
        }
        i += 1;
    }
    0
}

fn prepare_ipv4(mc_address: &SocketAddrV4, interface: &Ipv4Addr, nonblocking: bool) -> (r: Result<
    MulticastSetup,
    NetError,
>)
    ensures
        r == setup_v4(*mc_address, *interface, nonblocking),
        r matches Ok(setup) ==> setup.wf(),
{
    if !mc_address.ip.is_multicast() {
        return Err(NetError::NotMulticastAddress);
    }
    Ok(
        MulticastSetup {
            membership: Membership::V4 { group: mc_address.ip, interface: *interface },
            bind_address: RawSockAddr::from_v4(mc_address),
            nonblocking,
            state: SetupState::Allocating,
        },
    )
}

/// Prepares a multicast socket for an IPv4 group.
///
/// `mc_address` is the group and port to receive on; `interface` is the
/// local address that selects the interface to join on. An address outside
/// the multicast range is refused before anything is allocated. Otherwise the
/// result is the initial state: the socket will be bound to the group's
/// address and port.
pub fn create_std_multicast_socket_ipv4(mc_address: &SocketAddrV4, interface: &Ipv4Addr) -> (r:
    Result<MulticastSetup, NetError>)
    ensures
        r == setup_v4(*mc_address, *interface, false),
        r is Err <==> !mc_address.ip.spec_is_multicast(),
        r matches Ok(setup) ==> setup.wf() && setup.spec_action() == (SocketAction::Allocate {
            family: AF_INET,
        }),
{
    prepare_ipv4(mc_address, interface, false)
}

/// Prepares a multicast socket for an IPv6 group.
///
/// `mc_address` is the group and port to receive on; `interface` is the
/// local address that selects the interface to join on. An address outside
/// the multicast range is refused before anything is allocated. Otherwise the
/// result is the initial state: the socket will be bound to the group's
/// address, port and flow information. The scope id of the bind record is the
/// second octet of the group address, written in the machine's byte order;
/// the scope id of `mc_address` is ignored.
pub fn create_std_multicast_socket_ipv6(mc_address: &SocketAddrV6, interface: &Ipv6Addr) -> (r:
    Result<MulticastSetup, NetError>)
    ensures
        r == setup_v6(*mc_address, *interface, big_endian_bytes(bind_scope(*mc_address)), false)
            || r == setup_v6(
            *mc_address,
            *interface,
            little_endian_bytes(bind_scope(*mc_address)),
            false,
        ),
        r is Err <==> !mc_address.ip.spec_is_multicast(),
        r is Err ==> r == Err::<MulticastSetup, NetError>(NetError::NotMulticastAddress),
        r matches Ok(setup) ==> setup.wf() && setup.spec_action() == (SocketAction::Allocate {
            family: AF_INET6,
        }),
{
    let scope = native_bytes(mc_address.ip.octets[1] as u32);
    MulticastSetup::for_ipv6_with_scope(mc_address, interface, scope, false)
}

/// Prepares a non-blocking multicast socket for an IPv4 group, as an
/// asynchronous runtime takes it.
///
/// The construction is that of [`create_std_multicast_socket_ipv4`], followed
/// by one step that makes the socket non-blocking.
pub fn create_tokio_multicast_socket_ipv4(mc_address: &SocketAddrV4, interface: &Ipv4Addr) -> (r:
    Result<MulticastSetup, NetError>)
    ensures
        r == setup_v4(*mc_address, *interface, true),
        r is Err <==> !mc_address.ip.spec_is_multicast(),
        r matches Ok(setup) ==> setup.wf() && setup.spec_action() == (SocketAction::Allocate {
            family: AF_INET,
        }),
{
    prepare_ipv4(mc_address, interface, true)
}

/// Prepares a non-blocking multicast socket for an IPv6 group, as an
/// asynchronous runtime takes it.
///
/// The construction is that of [`create_std_multicast_socket_ipv6`], followed
/// by one step that makes the socket non-blocking.
pub fn create_tokio_multicast_socket_ipv6(mc_address: &SocketAddrV6, interface: &Ipv6Addr) -> (r:
    Result<MulticastSetup, NetError>)
    ensures
        r == setup_v6(*mc_address, *interface, big_endian_bytes(bind_scope(*mc_address)), true)
            || r == setup_v6(
            *mc_address,
            *interface,
            little_endian_bytes(bind_scope(*mc_address)),
            true,
        ),
        r is Err <==> !mc_address.ip.spec_is_multicast(),
        r is Err ==> r == Err::<MulticastSetup, NetError>(NetError::NotMulticastAddress),
        r matches Ok(setup) ==> setup.wf() && setup.spec_action() == (SocketAction::Allocate {
            family: AF_INET6,
        }),
{
    let scope = native_bytes(mc_address.ip.octets[1] as u32);
    MulticastSetup::for_ipv6_with_scope(mc_address, interface, scope, true)
}

/// A socket, once allocated, is never lost: whatever outcomes follow, the
/// setup either still holds that socket, or has failed and names that socket
/// as the one to close.
pub proof fn lemma_socket_is_kept_or_released(setup: MulticastSetup, events: Seq<OsEvent>)
    requires
        setup.spec_socket() is Some,
    ensures
        match setup.after(events).state {
            SetupState::Failed { release, .. } => release == setup.spec_socket(),
            _ => setup.after(events).spec_socket() == setup.spec_socket(),
        },
    decreases events.len(),
{
    if events.len() > 0 {
        lemma_socket_is_kept_or_released(setup, events.drop_last());
    }
}

/// A construction that failed before any socket was allocated failed at the
/// allocation, and names no socket to close; one that is ready, or holds a
/// socket, got that socket from the outcome of the allocation.
pub proof fn lemma_nothing_to_close_before_allocation(setup: MulticastSetup, events: Seq<OsEvent>)
    requires
        setup.state is Allocating,
    ensures
        match setup.after(events).state {
            SetupState::Failed { error, release } => release is None <==> error
                is AllocationFailed,
            SetupState::Allocating => true,
            _ => exists|k: int|
                0 <= k < events.len() && #[trigger] events[k] == OsEvent::Completed(
                    Ok(setup.after(events).spec_socket()->Some_0),
                ),
        },
    decreases events.len(),
{
    if events.len() > 0 {
        let earlier = events.drop_last();
        lemma_nothing_to_close_before_allocation(setup, earlier);
        let before = setup.after(earlier);
        let end = setup.after(events);
        if before.spec_socket() is Some && end.spec_socket() is Some {
            let k = choose|k: int|
                0 <= k < earlier.len() && #[trigger] earlier[k] == OsEvent::Completed(
                    Ok(before.spec_socket()->Some_0),
                );
            assert(events[k] == earlier[k]);
        } else if end.spec_socket() is Some {
            assert(events[events.len() - 1] == OsEvent::Completed(
                Ok(end.spec_socket()->Some_0),
            ));
        }
    }
}

/// On a listing in which no interface has the given address and supports
/// multicast, the index is 0.
pub proof fn lemma_no_interface_gives_zero(interfaces: Seq<IpInterfaceView>, addr: Ipv6Addr)
    requires
        forall|k: int| 0 <= k < interfaces.len() ==> !joins_on(#[trigger] interfaces[k], addr),
    ensures
        interface_index(interfaces, addr) == 0,
    decreases interfaces.len(),
{
    if interfaces.len() > 0 {
        assert(!joins_on(interfaces[0], addr));
        assert forall|k: int| 0 <= k < interfaces.drop_first().len() implies !joins_on(
            #[trigger] interfaces.drop_first()[k],
            addr,
        ) by {
            assert(interfaces.drop_first()[k] == interfaces[k + 1]);
        }
        lemma_no_interface_gives_zero(interfaces.drop_first(), addr);
    }
}

/// The index that is found belongs to the first interface that fits: it has
/// the address, supports multicast, and no interface before it does.
pub proof fn lemma_first_interface_gives_index(
    interfaces: Seq<IpInterfaceView>,
    addr: Ipv6Addr,
    first: int,
)
    requires
        0 <= first < interfaces.len(),
        joins_on(interfaces[first], addr),
        forall|k: int| 0 <= k < first ==> !joins_on(#[trigger] interfaces[k], addr),
    ensures
        interface_index(interfaces, addr) == interfaces[first].index,
    decreases interfaces.len(),
{
    if first > 0 {
        assert(!joins_on(interfaces[0], addr));
        let rest = interfaces.drop_first();
        assert(rest[first - 1] == interfaces[first]);
        assert forall|k: int| 0 <= k < first - 1 implies !joins_on(#[trigger] rest[k], addr) by {
            assert(rest[k] == interfaces[k + 1]);
        }
        lemma_first_interface_gives_index(rest, addr, first - 1);
    }
}

} // verus!
