//! What the library takes from the platform: the numeric values of the
//! address families and interface flags, read from the `libc` crate, the
//! machine's byte order, and UTF-8 decoding from the standard library.
//!
//! The executable functions here are believed, not proved: each one names
//! the outside item that it reads and says what is claimed of it.

use vstd::prelude::*;
use vstd::utf8::{decode_utf8, valid_utf8};

verus! {

/// Family tag of IPv4 address records.
pub const AF_INET: u16 = 2;

/// Family tag of IPv6 address records.
pub const AF_INET6: u16 = 10;

/// Flag bit: the interface is administratively up.
pub const IFF_UP: u32 = 0x1;

/// Flag bit: the interface has a broadcast address.
pub const IFF_BROADCAST: u32 = 0x2;

/// Flag bit: the interface is a loopback interface.
pub const IFF_LOOPBACK: u32 = 0x8;

/// Flag bit: the interface is a point-to-point link.
pub const IFF_POINTOPOINT: u32 = 0x10;

/// Flag bit: the interface supports multicast.
pub const IFF_MULTICAST: u32 = 0x1000;

/// Flag bit: the interface's link address is lost when it goes down.
pub const IFF_DYNAMIC: u32 = 0x8000;

/// Flag bit: the interface sees a carrier on its link.
pub const IFF_LOWER_UP: u32 = 0x10000;

/// `libc::AF_INET`. Claimed: on Linux its value is 2.
#[verifier::external_body]
pub(crate) fn af_inet() -> (r: u16)
    ensures
        r == AF_INET,
{
    libc::AF_INET as u16
}

/// `libc::AF_INET6`. Claimed: on Linux its value is 10.
#[verifier::external_body]
pub(crate) fn af_inet6() -> (r: u16)
    ensures
        r == AF_INET6,
{
    libc::AF_INET6 as u16
}

/// `libc::IFF_UP`. Claimed: on Linux its value is 0x1.
#[verifier::external_body]
pub(crate) fn iff_up() -> (r: u32)
    ensures
        r == IFF_UP,
{
    libc::IFF_UP as u32
}

/// `libc::IFF_BROADCAST`. Claimed: on Linux its value is 0x2.
#[verifier::external_body]
pub(crate) fn iff_broadcast() -> (r: u32)
    ensures
        r == IFF_BROADCAST,
{
    libc::IFF_BROADCAST as u32
}

/// `libc::IFF_LOOPBACK`. Claimed: on Linux its value is 0x8.
#[verifier::external_body]
pub(crate) fn iff_loopback() -> (r: u32)
    ensures
        r == IFF_LOOPBACK,
{
    libc::IFF_LOOPBACK as u32
}

/// `libc::IFF_POINTOPOINT`. Claimed: on Linux its value is 0x10.
#[verifier::external_body]
pub(crate) fn iff_pointopoint() -> (r: u32)
    ensures
        r == IFF_POINTOPOINT,
{
    libc::IFF_POINTOPOINT as u32
}

/// `libc::IFF_MULTICAST`. Claimed: on Linux its value is 0x1000.
#[verifier::external_body]
pub(crate) fn iff_multicast() -> (r: u32)
    ensures
        r == IFF_MULTICAST,
{
    libc::IFF_MULTICAST as u32
}

/// `libc::IFF_DYNAMIC`. Claimed: on Linux its value is 0x8000.
#[verifier::external_body]
pub(crate) fn iff_dynamic() -> (r: u32)
    ensures
        r == IFF_DYNAMIC,
{
    libc::IFF_DYNAMIC as u32
}

/// `libc::IFF_LOWER_UP`. Claimed: on Linux its value is 0x10000.
#[verifier::external_body]
pub(crate) fn iff_lower_up() -> (r: u32)
    ensures
        r == IFF_LOWER_UP,
{
    libc::IFF_LOWER_UP as u32
}

/// `u32::to_ne_bytes`. Claimed: the four bytes of `value` in the machine's
/// own order, which is either most significant byte first or least
/// significant byte first; which of the two is not said.
#[verifier::external_body]
pub(crate) fn native_bytes(value: u32) -> (r: [u8; 4])
    ensures
        r == big_endian_bytes(value) || r == little_endian_bytes(value),
{
    value.to_ne_bytes()
}

/// `core::str::from_utf8`. Claimed: it accepts exactly the byte strings that
/// are valid UTF-8, and the text it gives is their decoding.
#[verifier::external_body]
pub(crate) fn utf8_text(bytes: &Vec<u8>) -> (r: Option<String>)
    ensures
        r is Some <==> valid_utf8(bytes@),
        r matches Some(s) ==> s@ == decode_utf8(bytes@),
{
    match core::str::from_utf8(bytes) {
        Ok(text) => Some(String::from(text)),
        Err(_) => None,
    }
}

/// The most significant byte of a 32-bit value.
pub open spec fn byte3(value: u32) -> u8 {
    (value / 0x100_0000) as u8
}

/// The second most significant byte of a 32-bit value.
pub open spec fn byte2(value: u32) -> u8 {
    ((value / 0x1_0000) % 0x100) as u8
}

/// The second least significant byte of a 32-bit value.
pub open spec fn byte1(value: u32) -> u8 {
    ((value / 0x100) % 0x100) as u8
}

/// The least significant byte of a 32-bit value.
pub open spec fn byte0(value: u32) -> u8 {
    (value % 0x100) as u8
}

/// The bytes of a 32-bit value, most significant first (network order).
pub open spec fn big_endian_bytes(value: u32) -> [u8; 4] {
    [byte3(value), byte2(value), byte1(value), byte0(value)]
}

/// The bytes of a 32-bit value, least significant first.
pub open spec fn little_endian_bytes(value: u32) -> [u8; 4] {
    [byte0(value), byte1(value), byte2(value), byte3(value)]
}

} // verus!
