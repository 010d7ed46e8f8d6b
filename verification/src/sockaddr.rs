//! IP socket addresses and their raw, family-tagged records.
//!
//! A raw record is what the operating system keeps: a family tag followed by
//! bytes whose meaning depends on the tag. [`socket_address_from`] reads such
//! a record into a [`SocketAddr`]; [`RawSockAddr::from_v4`] and
//! [`RawSockAddr::from_v6`] write one.

use vstd::prelude::*;
use crate::error::NetError;
use crate::platform::{
    af_inet, af_inet6, big_endian_bytes, byte0, byte1, byte2, byte3, AF_INET, AF_INET6,
};

verus! {

/// An IPv4 address: four octets, the first one first on the wire.
#[derive(Clone, Copy, Debug, PartialEq, Eq)]
pub struct Ipv4Addr {
    pub octets: [u8; 4],
}

/// An IPv6 address: sixteen octets, the first one first on the wire.
#[derive(Clone, Copy, Debug, PartialEq, Eq)]
pub struct Ipv6Addr {
    pub octets: [u8; 16],
}

/// An IPv4 address with a port.
#[derive(Clone, Copy, Debug, PartialEq, Eq)]
pub struct SocketAddrV4 {
    pub ip: Ipv4Addr,
    pub port: u16,
}

/// An IPv6 address with a port, flow information and a scope id.
#[derive(Clone, Copy, Debug, PartialEq, Eq)]
pub struct SocketAddrV6 {
    pub ip: Ipv6Addr,
    pub port: u16,
    pub flowinfo: u32,
    pub scope_id: u32,
}

/// A socket address of either family.
#[derive(Clone, Copy, Debug, PartialEq, Eq)]
pub enum SocketAddr {
    V4(SocketAddrV4),
    V6(SocketAddrV6),
}

/// A raw address record: the family tag, and the 26 bytes that follow it in
/// memory. An IPv4 record uses the first 14 of them (port, address, padding),
/// an IPv6 record all (port, flow information, address, scope id).
#[derive(Clone, Copy, Debug, PartialEq, Eq)]
pub struct RawSockAddr {
    pub family: u16,
    pub data: [u8; 26],
}

/// The 16-bit value whose bytes, most significant first, are `hi` and `lo`.
pub open spec fn be16(hi: u8, lo: u8) -> u16 {
    (hi as int * 0x100 + lo as int) as u16
}

/// The 32-bit value whose bytes, most significant first, are `b3` to `b0`.
pub open spec fn be32(b3: u8, b2: u8, b1: u8, b0: u8) -> u32 {
    (b3 as int * 0x100_0000 + b2 as int * 0x1_0000 + b1 as int * 0x100 + b0 as int) as u32
}

/// The more significant byte of a 16-bit value.
pub open spec fn high_byte(value: u16) -> u8 {
    (value / 0x100) as u8
}

/// The less significant byte of a 16-bit value.
pub open spec fn low_byte(value: u16) -> u8 {
    (value % 0x100) as u8
}

fn read_be16(hi: u8, lo: u8) -> (r: u16)
    ensures
        r == be16(hi, lo),
{
    let h: u16 = hi as u16;
    let l: u16 = lo as u16;
    h * 0x100 + l
}

fn read_be32(b3: u8, b2: u8, b1: u8, b0: u8) -> (r: u32)
    ensures
        r == be32(b3, b2, b1, b0),
{
    let w3: u32 = b3 as u32;
    let w2: u32 = b2 as u32;
    let w1: u32 = b1 as u32;
    let w0: u32 = b0 as u32;
    w3 * 0x100_0000 + w2 * 0x1_0000 + w1 * 0x100 + w0
}

impl Ipv4Addr {
    /// The address `a.b.c.d`.
    pub fn new(a: u8, b: u8, c: u8, d: u8) -> (r: Ipv4Addr)
        ensures
            r == (Ipv4Addr { octets: [a, b, c, d] }),
    {
        Ipv4Addr { octets: [a, b, c, d] }
    }

    /// Whether the address lies in the multicast range 224.0.0.0/4.
    pub open spec fn spec_is_multicast(self) -> bool {
        224 <= self.octets[0] <= 239
    }

    /// Whether the address lies in the multicast range 224.0.0.0/4.
    pub fn is_multicast(&self) -> (r: bool)
        ensures
            r == self.spec_is_multicast(),
    {
        224 <= self.octets[0] && self.octets[0] <= 239
    }

    /// Whether two addresses have the same octets.
    pub fn same(&self, other: &Ipv4Addr) -> (r: bool)
        ensures
            r == (*self == *other),
    {
        let mut i: usize = 0;
        while i < 4
            invariant
                i <= 4,
                forall|k: int| 0 <= k < i ==> self.octets[k] == other.octets[k],
            decreases 4 - i,
        {
            if self.octets[i] != other.octets[i] {
                return false;
            }
            i += 1;
        }
        assert(self.octets =~= other.octets);
        true
    }
}

impl Ipv6Addr {
    /// Whether the address lies in the multicast range ff00::/8.
    pub open spec fn spec_is_multicast(self) -> bool {
        self.octets[0] == 0xff
    }

    /// Whether the address lies in the multicast range ff00::/8.
    pub fn is_multicast(&self) -> (r: bool)
        ensures
            r == self.spec_is_multicast(),
    {
        self.octets[0] == 0xff
    }

    /// Whether two addresses have the same octets.
    pub fn same(&self, other: &Ipv6Addr) -> (r: bool)
        ensures
            r == (*self == *other),
    {
        let mut i: usize = 0;
        while i < 16
            invariant
                i <= 16,
                forall|k: int| 0 <= k < i ==> self.octets[k] == other.octets[k],
            decreases 16 - i,
        {
            if self.octets[i] != other.octets[i] {
                return false;
            }
            i += 1;
        }
        assert(self.octets =~= other.octets);
        true
    }
}

impl SocketAddr {
    /// Whether the address is an IPv4 address.
    pub open spec fn spec_is_ipv4(self) -> bool {
        self is V4
    }

    /// Whether the address is an IPv4 address.
    pub fn is_ipv4(&self) -> (r: bool)
        ensures
            r == self.spec_is_ipv4(),
    {
        match self {
            SocketAddr::V4(_) => true,
            SocketAddr::V6(_) => false,
        }
    }

    /// The port.
    pub open spec fn spec_port(self) -> u16 {
        match self {
            SocketAddr::V4(a) => a.port,
            SocketAddr::V6(a) => a.port,
        }
    }

    /// The port.
    pub fn port(&self) -> (r: u16)
        ensures
            r == self.spec_port(),
    {
        match self {
            SocketAddr::V4(a) => a.port,
            SocketAddr::V6(a) => a.port,
        }
    }
}

/// What an IPv4 record holds: the port in bytes 0 and 1, most significant
/// first, and the address in bytes 2 to 5.
pub open spec fn decoded_v4(raw: RawSockAddr) -> SocketAddrV4 {
    SocketAddrV4 {
        ip: Ipv4Addr { octets: [raw.data[2], raw.data[3], raw.data[4], raw.data[5]] },
        port: be16(raw.data[0], raw.data[1]),
    }
}

/// What an IPv6 record holds: the port in bytes 0 and 1, the flow
/// information in bytes 2 to 5, the address in bytes 6 to 21 and the scope id
/// in bytes 22 to 25, each number most significant byte first.
pub open spec fn decoded_v6(raw: RawSockAddr) -> SocketAddrV6 {
    SocketAddrV6 {
        ip: Ipv6Addr {
            octets: [
                raw.data[6],
                raw.data[7],
                raw.data[8],
                raw.data[9],
                raw.data[10],
                raw.data[11],
                raw.data[12],
                raw.data[13],
                raw.data[14],
                raw.data[15],
                raw.data[16],
                raw.data[17],
                raw.data[18],
                raw.data[19],
                raw.data[20],
                raw.data[21],
            ],
        },
        port: be16(raw.data[0], raw.data[1]),
        flowinfo: be32(raw.data[2], raw.data[3], raw.data[4], raw.data[5]),
        scope_id: be32(raw.data[22], raw.data[23], raw.data[24], raw.data[25]),
    }
}

/// What a raw record decodes to: the family tag selects the layout, and any
/// other tag is refused whatever bytes follow it.
pub open spec fn decoded(raw: RawSockAddr) -> Result<SocketAddr, NetError> {
    if raw.family == AF_INET {
        Ok(SocketAddr::V4(decoded_v4(raw)))
    } else if raw.family == AF_INET6 {
        Ok(SocketAddr::V6(decoded_v6(raw)))
    } else {
        Err(NetError::UnsupportedFamily)
    }
}

/// The record of an IPv4 socket address, with zero padding.
pub open spec fn encoded_v4(addr: SocketAddrV4) -> RawSockAddr {
    RawSockAddr {
        family: AF_INET,
        data: [
            high_byte(addr.port),
            low_byte(addr.port),
            addr.ip.octets[0],
            addr.ip.octets[1],
            addr.ip.octets[2],
            addr.ip.octets[3],
            0u8, 0u8, 0u8, 0u8, 0u8, 0u8, 0u8, 0u8, 0u8, 0u8,
            0u8, 0u8, 0u8, 0u8, 0u8, 0u8, 0u8, 0u8, 0u8, 0u8,
        ],
    }
}

/// The record of an IPv6 address with the given port and flow information,
/// whose last four bytes are `scope`.
pub open spec fn encoded_v6_with(ip: Ipv6Addr, port: u16, flowinfo: u32, scope: [u8; 4])
    -> RawSockAddr {
    RawSockAddr {
        family: AF_INET6,
        data: [
            high_byte(port),
            low_byte(port),
            byte3(flowinfo),
            byte2(flowinfo),
            byte1(flowinfo),
            byte0(flowinfo),
            ip.octets[0],
            ip.octets[1],
            ip.octets[2],
            ip.octets[3],
            ip.octets[4],
            ip.octets[5],
            ip.octets[6],
            ip.octets[7],
            ip.octets[8],
            ip.octets[9],
            ip.octets[10],
            ip.octets[11],
            ip.octets[12],
            ip.octets[13],
            ip.octets[14],
            ip.octets[15],
            scope[0],
            scope[1],
            scope[2],
            scope[3],
        ],
    }
}

/// The record of an IPv6 socket address, every number in network order.
pub open spec fn encoded_v6(addr: SocketAddrV6) -> RawSockAddr {
    encoded_v6_with(addr.ip, addr.port, addr.flowinfo, big_endian_bytes(addr.scope_id))
}

/// The record of a socket address of either family.
pub open spec fn encoded(addr: SocketAddr) -> RawSockAddr {
    match addr {
        SocketAddr::V4(a) => encoded_v4(a),
        SocketAddr::V6(a) => encoded_v6(a),
    }
}

/// The four bytes of `value`, most significant first.
pub fn network_bytes(value: u32) -> (r: [u8; 4])
    ensures
        r == big_endian_bytes(value),
{
    [
        (value / 0x100_0000) as u8,
        ((value / 0x1_0000) % 0x100) as u8,
        ((value / 0x100) % 0x100) as u8,
        (value % 0x100) as u8,
    ]
}

impl RawSockAddr {
    /// Writes the record of an IPv4 socket address.
    pub fn from_v4(addr: &SocketAddrV4) -> (r: RawSockAddr)
        ensures
            r == encoded_v4(*addr),
    {
        let o = &addr.ip.octets;
        RawSockAddr {
            family: af_inet(),
            data: [
                (addr.port / 0x100) as u8,
                (addr.port % 0x100) as u8,
                o[0], o[1], o[2], o[3],
                0u8, 0u8, 0u8, 0u8, 0u8, 0u8, 0u8, 0u8, 0u8, 0u8,
                0u8, 0u8, 0u8, 0u8, 0u8, 0u8, 0u8, 0u8, 0u8, 0u8,
            ],
        }
    }

    /// Writes the record of an IPv6 address with the given port and flow
    /// information, and with `scope` as its last four bytes.
    pub fn from_v6_with(ip: &Ipv6Addr, port: u16, flowinfo: u32, scope: [u8; 4]) -> (r:
        RawSockAddr)
        ensures
            r == encoded_v6_with(*ip, port, flowinfo, scope),
    {
        let o = &ip.octets;
        let f = network_bytes(flowinfo);
        RawSockAddr {
            family: af_inet6(),
            data: [
                (port / 0x100) as u8,
                (port % 0x100) as u8,
                f[0], f[1], f[2], f[3],
                o[0], o[1], o[2], o[3], o[4], o[5], o[6], o[7],
                o[8], o[9], o[10], o[11], o[12], o[13], o[14], o[15],
                scope[0], scope[1], scope[2], scope[3],
            ],
        }
    }

    /// Writes the record of an IPv6 socket address, every number in network
    /// order.
    pub fn from_v6(addr: &SocketAddrV6) -> (r: RawSockAddr)
        ensures
            r == encoded_v6(*addr),
    {
        let scope = network_bytes(addr.scope_id);
        RawSockAddr::from_v6_with(&addr.ip, addr.port, addr.flowinfo, scope)
    }

    /// Writes the record of a socket address of either family.
    pub fn from_address(addr: &SocketAddr) -> (r: RawSockAddr)
        ensures
            r == encoded(*addr),
    {
        match addr {
            SocketAddr::V4(a) => RawSockAddr::from_v4(a),
            SocketAddr::V6(a) => RawSockAddr::from_v6(a),
        }
    }
}

/// Reads a raw address record.
///
/// The family tag is inspected first. An IPv4 or IPv6 record always decodes;
/// a record of any other family is refused, whatever its bytes.
pub fn socket_address_from(raw: &RawSockAddr) -> (r: Result<SocketAddr, NetError>)
    ensures
        r == decoded(*raw),
        r is Ok <==> raw.family == AF_INET || raw.family == AF_INET6,
        r is Err ==> r == Err::<SocketAddr, NetError>(NetError::UnsupportedFamily),
{
    let d = &raw.data;
    if raw.family == af_inet() {
        let ip = Ipv4Addr { octets: [d[2], d[3], d[4], d[5]] };
        Ok(SocketAddr::V4(SocketAddrV4 { ip, port: read_be16(d[0], d[1]) }))
    } else if raw.family == af_inet6() {
        let ip = Ipv6Addr {
            octets: [
                d[6], d[7], d[8], d[9], d[10], d[11], d[12], d[13],
                d[14], d[15], d[16], d[17], d[18], d[19], d[20], d[21],
            ],
        };
        Ok(SocketAddr::V6(SocketAddrV6 {
            ip,
            port: read_be16(d[0], d[1]),
            flowinfo: read_be32(d[2], d[3], d[4], d[5]),
            scope_id: read_be32(d[22], d[23], d[24], d[25]),
        }))
    } else {
        Err(NetError::UnsupportedFamily)
    }
}

/// A 16-bit value is the big-endian reading of its own two bytes.
pub proof fn lemma_be16_of_bytes(value: u16)
    ensures
        be16(high_byte(value), low_byte(value)) == value,
{
}

/// A 32-bit value is the big-endian reading of its own four bytes.
pub proof fn lemma_be32_of_bytes(value: u32)
    ensures
        be32(byte3(value), byte2(value), byte1(value), byte0(value)) == value,
{
}

/// Writing an IPv4 socket address as a raw record and reading the record
/// back gives the same port and address.
pub proof fn lemma_round_trip_v4(addr: SocketAddrV4)
    ensures
        decoded(encoded_v4(addr)) == Ok::<SocketAddr, NetError>(SocketAddr::V4(addr)),
{
    lemma_be16_of_bytes(addr.port);
    assert(decoded_v4(encoded_v4(addr)).ip.octets =~= addr.ip.octets);
}

/// Writing an IPv6 socket address as a raw record and reading the record
/// back gives the same port, flow information, address and scope id.
pub proof fn lemma_round_trip_v6(addr: SocketAddrV6)
    ensures
        decoded(encoded_v6(addr)) == Ok::<SocketAddr, NetError>(SocketAddr::V6(addr)),
{
    lemma_be16_of_bytes(addr.port);
    lemma_be32_of_bytes(addr.flowinfo);
    lemma_be32_of_bytes(addr.scope_id);
    assert(decoded_v6(encoded_v6(addr)).ip.octets =~= addr.ip.octets);
}

/// Writing a socket address of either family and reading the record back
/// gives the address again.
pub proof fn lemma_round_trip(addr: SocketAddr)
    ensures
        decoded(encoded(addr)) == Ok::<SocketAddr, NetError>(addr),
{
    match addr {
        SocketAddr::V4(a) => lemma_round_trip_v4(a),
        SocketAddr::V6(a) => lemma_round_trip_v6(a),
    }
}

/// A record of a family other than IPv4 and IPv6 is refused as unsupported,
/// whatever bytes follow the tag.
pub proof fn lemma_other_family_refused(raw: RawSockAddr)
    requires
        raw.family != AF_INET,
        raw.family != AF_INET6,
    ensures
        decoded(raw) == Err::<SocketAddr, NetError>(NetError::UnsupportedFamily),
{
}

} // verus!
