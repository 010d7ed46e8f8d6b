//! The inventory of a host's IP interfaces.
//!
//! The operating system lists one record per interface and configured
//! address, of any family. [`IpInterface::new_from`] reads one record;
//! [`IpInterface::retrieve_ip_interfaces`] reads a whole listing and keeps
//! the records that describe an IP configuration, in the listing's order.

use vstd::multiset::Multiset;
use vstd::prelude::*;
use vstd::seq_lib::{
    lemma_multiset_commutative, to_multiset_contains, to_multiset_len, to_multiset_remove,
};
use vstd::utf8::{decode_utf8, valid_utf8};
use crate::error::NetError;
use crate::platform::{
    iff_broadcast, iff_dynamic, iff_loopback, iff_lower_up, iff_multicast, iff_pointopoint,
    iff_up, utf8_text, IFF_BROADCAST, IFF_DYNAMIC, IFF_LOOPBACK, IFF_LOWER_UP, IFF_MULTICAST,
    IFF_POINTOPOINT, IFF_UP,
};
use crate::sockaddr::{decoded, socket_address_from, RawSockAddr, SocketAddr};

verus! {

/// One record of the operating system's interface listing, copied out of the
/// system's memory.
#[derive(Clone, Debug, PartialEq, Eq)]
pub struct RawInterface {
    /// The bytes of the interface's name, without the terminating zero.
    pub name: Vec<u8>,
    /// What the system's name-to-index lookup gave for the name; 0 where the
    /// lookup failed.
    pub index: u32,
    /// The interface's flags.
    pub flags: u32,
    /// The address record, where the listing has one.
    pub address: Option<RawSockAddr>,
    /// The network mask record, where the listing has one.
    pub net_mask: Option<RawSockAddr>,
    /// The broadcast or point-to-point peer record, where the listing has one.
    pub aux_address: Option<RawSockAddr>,
}

/// One IPv4 or IPv6 configuration of a network interface. An interface with
/// several configurations appears once for each.
#[derive(Clone, Debug, PartialEq, Eq)]
pub struct IpInterface {
    /// The interface's index; 0 where the system could not resolve it.
    pub index: u32,
    /// The interface's name.
    pub name: String,
    /// The interface's flags.
    pub flags: u32,
    /// The assigned IP address.
    pub address: SocketAddr,
    /// The network mask, of the address's family.
    pub net_mask: SocketAddr,
    /// The broadcast address, on a broadcast interface that has one.
    pub broadcast_address: Option<SocketAddr>,
    /// The peer's address, on a point-to-point interface that has one.
    pub p2p_address: Option<SocketAddr>,
}

/// The mathematical value of an [`IpInterface`]: its fields, with the name as
/// a sequence of characters.
pub ghost struct IpInterfaceView {
    pub index: u32,
    pub name: Seq<char>,
    pub flags: u32,
    pub address: SocketAddr,
    pub net_mask: SocketAddr,
    pub broadcast_address: Option<SocketAddr>,
    pub p2p_address: Option<SocketAddr>,
}

impl View for IpInterface {
    type V = IpInterfaceView;

    open spec fn view(&self) -> IpInterfaceView {
        IpInterfaceView {
            index: self.index,
            name: self.name@,
            flags: self.flags,
            address: self.address,
            net_mask: self.net_mask,
            broadcast_address: self.broadcast_address,
            p2p_address: self.p2p_address,
        }
    }
}

/// Whether a flag word has any bit of `bit` set.
pub open spec fn has_flag(flags: u32, bit: u32) -> bool {
    flags & bit != 0
}

/// Whether two socket addresses belong to one family.
pub open spec fn same_family(a: SocketAddr, b: SocketAddr) -> bool {
    (a is V4) == (b is V4)
}

impl IpInterfaceView {
    /// The invariant of an interface configuration: address and mask are of
    /// one family.
    pub open spec fn wf(self) -> bool {
        same_family(self.address, self.net_mask)
    }
}

/// The auxiliary address of a record under one capability flag: decoded where
/// the flag is set and the listing supplied a record, absent otherwise.
pub open spec fn auxiliary_address(flags: u32, bit: u32, aux: Option<RawSockAddr>) -> Result<
    Option<SocketAddr>,
    NetError,
> {
    if has_flag(flags, bit) && aux is Some {
        match decoded(aux->Some_0) {
            Ok(a) => Ok(Some(a)),
            Err(e) => Err(e),
        }
    } else {
        Ok(None)
    }
}

/// What one record of the listing describes, or why it describes no IP
/// configuration. The checks are made in this order: the name is valid
/// UTF-8; an address is present and decodes; a mask is present, decodes and
/// is of the address's family; the auxiliary records that the flags call for
/// decode.
pub open spec fn interface_of(raw: RawInterface) -> Result<IpInterfaceView, NetError> {
    if !valid_utf8(raw.name@) {
        Err(NetError::InvalidInterfaceName)
    } else if raw.address is None {
        Err(NetError::NoAddress)
    } else if decoded(raw.address->Some_0) is Err {
        Err(NetError::UnsupportedFamily)
    } else if raw.net_mask is None {
        Err(NetError::NoNetmask)
    } else if decoded(raw.net_mask->Some_0) is Err {
        Err(NetError::UnsupportedFamily)
    } else if !same_family(decoded(raw.address->Some_0)->Ok_0, decoded(raw.net_mask->Some_0)->Ok_0) {
        Err(NetError::UnsupportedFamily)
    } else if auxiliary_address(raw.flags, IFF_BROADCAST, raw.aux_address) is Err {
        Err(NetError::UnsupportedFamily)
    } else if auxiliary_address(raw.flags, IFF_POINTOPOINT, raw.aux_address) is Err {
        Err(NetError::UnsupportedFamily)
    } else {
        Ok(
            IpInterfaceView {
                index: raw.index,
                name: decode_utf8(raw.name@),
                flags: raw.flags,
                address: decoded(raw.address->Some_0)->Ok_0,
                net_mask: decoded(raw.net_mask->Some_0)->Ok_0,
                broadcast_address: auxiliary_address(
                    raw.flags,
                    IFF_BROADCAST,
                    raw.aux_address,
                )->Ok_0,
                p2p_address: auxiliary_address(raw.flags, IFF_POINTOPOINT, raw.aux_address)->Ok_0,
            },
        )
    }
}

/// The configurations that a listing describes: its records in order, without
/// those that describe no IP configuration.
pub open spec fn collected(records: Seq<RawInterface>) -> Seq<IpInterfaceView>
    decreases records.len(),
{
    if records.len() == 0 {
        Seq::empty()
    } else {
        let before = collected(records.drop_last());
        match interface_of(records.last()) {
            Ok(v) => before.push(v),
            Err(_) => before,
        }
    }
}

/// The values of a sequence of interface configurations.
pub open spec fn views(interfaces: Seq<IpInterface>) -> Seq<IpInterfaceView> {
    interfaces.map_values(|i: IpInterface| i@)
}

/// Whether two records carry the same name bytes, index, flags and address
/// records.
pub open spec fn same_record(a: RawInterface, b: RawInterface) -> bool {
    &&& a.name@ == b.name@
    &&& a.index == b.index
    &&& a.flags == b.flags
    &&& a.address == b.address
    &&& a.net_mask == b.net_mask
    &&& a.aux_address == b.aux_address
}

fn read_auxiliary(flags: u32, bit: u32, aux: &Option<RawSockAddr>) -> (r: Result<
    Option<SocketAddr>,
    NetError,
>)
    ensures
        r == auxiliary_address(flags, bit, *aux),
{
    if flags & bit != 0 {
        match aux {
            Some(record) => {
                match socket_address_from(record) {
                    Ok(a) => Ok(Some(a)),
                    Err(e) => Err(e),
                }
            },
            None => Ok(None),
        }
    } else {
        Ok(None)
    }
}

impl IpInterface {
    /// Reads a listing of the operating system into interface configurations.
    ///
    /// `inventory` is what the system's listing call gave: the records, or
    /// the error code with which the call failed. A failed call fails the
    /// whole operation. Otherwise every record that describes an IP
    /// configuration is kept, in the listing's order, and every other record
    /// is skipped; one interface may appear several times.
    pub fn retrieve_ip_interfaces(inventory: Result<Vec<RawInterface>, i32>) -> (r: Result<
        Vec<IpInterface>,
        NetError,
    >)
        ensures
            match inventory {
                Ok(records) => r is Ok && views(r->Ok_0@) == collected(records@),
                Err(code) => r == Err::<Vec<IpInterface>, NetError>(
                    NetError::EnumerationFailed(code),
                ),
            },
            r matches Ok(found) ==> forall|k: int| 0 <= k < found.len() ==> (#[trigger] found[k])@.wf(),
            r matches Ok(found) ==> inventory is Ok && found.len() <= inventory->Ok_0.len(),
    {
        match inventory {
            Err(code) => Err(NetError::EnumerationFailed(code)),
            Ok(records) => {
                let mut found: Vec<IpInterface> = Vec::new();
                let mut i: usize = 0;
                assert(views(found@) =~= collected(records@.subrange(0, 0)));
                while i < records.len()
                    invariant
                        i <= records.len(),
                        views(found@) == collected(records@.subrange(0, i as int)),
                        forall|k: int| 0 <= k < found.len() ==> (#[trigger] found[k])@.wf(),
                    decreases records.len() - i,
                {
                    let ghost before = found@;
                    assert(records@.subrange(0, i + 1).drop_last() =~= records@.subrange(
                        0,
                        i as int,
                    ));
                    match IpInterface::new_from(&records[i]) {
                        Ok(interface) => {
                            found.push(interface);
                            assert(views(found@) =~= views(before).push(interface@));
                        },
                        Err(_) => {},
                    }
                    i += 1;
                }
                assert(records@.subrange(0, i as int) =~= records@);
                proof {
                    lemma_collected_len(records@);
                }
                Ok(found)
            },
        }
    }

    /// Reads one record of the listing.
    ///
    /// The record must have a name that is valid UTF-8, an address and a
    /// network mask of one IP family. The broadcast address is read where the
    /// broadcast flag is set and the record has an auxiliary address, the
    /// peer's address where the point-to-point flag is set and it has one.
    /// The index is the one that the record carries.
    pub fn new_from(raw: &RawInterface) -> (r: Result<IpInterface, NetError>)
        ensures
            match r {
                Ok(interface) => interface_of(*raw) == Ok::<IpInterfaceView, NetError>(
                    interface@,
                ),
                Err(e) => interface_of(*raw) == Err::<IpInterfaceView, NetError>(e),
            },
            r matches Ok(interface) ==> interface@.wf(),
    {
        let name = match utf8_text(&raw.name) {
            Some(text) => text,
            None => { return Err(NetError::InvalidInterfaceName); },
        };
        let address = match &raw.address {
            None => { return Err(NetError::NoAddress); },
            Some(record) => match socket_address_from(record) {
                Ok(a) => a,
                Err(e) => { return Err(e); },
            },
        };
        let net_mask = match &raw.net_mask {
            None => { return Err(NetError::NoNetmask); },
            Some(record) => match socket_address_from(record) {
                Ok(a) => a,
                Err(e) => { return Err(e); },
            },
        };
        if address.is_ipv4() != net_mask.is_ipv4() {
            return Err(NetError::UnsupportedFamily);
        }
        let broadcast_address = match read_auxiliary(raw.flags, iff_broadcast(), &raw.aux_address) {
            Ok(a) => a,
            Err(e) => { return Err(e); },
        };
        let p2p_address = match read_auxiliary(raw.flags, iff_pointopoint(), &raw.aux_address) {
            Ok(a) => a,
            Err(e) => { return Err(e); },
        };
        Ok(
            IpInterface {
                index: raw.index,
                name,
                flags: raw.flags,
                address,
                net_mask,
                broadcast_address,
                p2p_address,
            },
        )
    }

    /// Whether the interface is enabled (administratively up).
    pub fn is_up(&self) -> (r: bool)
        ensures
            r == has_flag(self.flags, IFF_UP),
    {
        (self.flags & iff_up()) != 0
    }

    /// Whether the interface has detected a signal on its physical link.
    pub fn is_l1_up(&self) -> (r: bool)
        ensures
            r == has_flag(self.flags, IFF_LOWER_UP),
    {
        (self.flags & iff_lower_up()) != 0
    }

    /// Whether the interface is a loopback interface.
    pub fn is_loopback(&self) -> (r: bool)
        ensures
            r == has_flag(self.flags, IFF_LOOPBACK),
    {
        (self.flags & iff_loopback()) != 0
    }

    /// Whether the interface is a point-to-point link.
    pub fn is_p2p(&self) -> (r: bool)
        ensures
            r == has_flag(self.flags, IFF_POINTOPOINT),
    {
        (self.flags & iff_pointopoint()) != 0
    }

    /// Whether the interface can send and receive multicast.
    pub fn supports_multicast(&self) -> (r: bool)
        ensures
            r == has_flag(self.flags, IFF_MULTICAST),
    {
        (self.flags & iff_multicast()) != 0
    }

    /// Whether the interface's link address is dynamic, that is lost when the
    /// interface shuts down. This is not about the IP address.
    pub fn has_dynamic_address(&self) -> (r: bool)
        ensures
            r == has_flag(self.flags, IFF_DYNAMIC),
    {
        (self.flags & iff_dynamic()) != 0
    }
}

/// Every configuration that a listing describes has an address and a mask of
/// one family.
pub proof fn lemma_collected_wf(records: Seq<RawInterface>)
    ensures
        forall|k: int| 0 <= k < collected(records).len() ==> (#[trigger] collected(records)[k]).wf(),
    decreases records.len(),
{
    if records.len() > 0 {
        lemma_collected_wf(records.drop_last());
        let before = collected(records.drop_last());
        assert forall|k: int| 0 <= k < collected(records).len() implies (#[trigger] collected(
            records,
        )[k]).wf() by {
            if k < before.len() {
                assert(collected(records)[k] == before[k]);
            }
        }
    }
}

/// A listing describes at most as many configurations as it has records.
pub proof fn lemma_collected_len(records: Seq<RawInterface>)
    ensures
        collected(records).len() <= records.len(),
    decreases records.len(),
{
    if records.len() > 0 {
        lemma_collected_len(records.drop_last());
    }
}

/// Two listings that agree record by record describe the same
/// configurations: as many, with the same names, indices and addresses, in
/// the same order.
pub proof fn lemma_same_listing_same_interfaces(a: Seq<RawInterface>, b: Seq<RawInterface>)
    requires
        a.len() == b.len(),
        forall|k: int| 0 <= k < a.len() ==> same_record(#[trigger] a[k], b[k]),
    ensures
        collected(a) == collected(b),
    decreases a.len(),
{
    if a.len() > 0 {
        lemma_same_listing_same_interfaces(a.drop_last(), b.drop_last());
        assert(same_record(a[a.len() - 1], b[a.len() - 1]));
    }
}

/// A record that describes a configuration has a name that is valid UTF-8, an
/// address and a mask, and the configuration holds what they decode to.
pub proof fn lemma_described_record_is_complete(raw: RawInterface)
    requires
        interface_of(raw) is Ok,
    ensures
        valid_utf8(raw.name@),
        raw.address is Some,
        raw.net_mask is Some,
        decoded(raw.address->Some_0) == Ok::<SocketAddr, NetError>(interface_of(raw)->Ok_0.address),
        decoded(raw.net_mask->Some_0) == Ok::<SocketAddr, NetError>(
            interface_of(raw)->Ok_0.net_mask,
        ),
        interface_of(raw)->Ok_0.name == decode_utf8(raw.name@),
        interface_of(raw)->Ok_0.index == raw.index,
        interface_of(raw)->Ok_0.flags == raw.flags,
{
}

/// Every configuration that a listing describes is what one of its records
/// describes.
pub proof fn lemma_collected_stems_from_records(records: Seq<RawInterface>, k: int)
    requires
        0 <= k < collected(records).len(),
    ensures
        exists|j: int|
            0 <= j < records.len() && interface_of(#[trigger] records[j]) == Ok::<
                IpInterfaceView,
                NetError,
            >(collected(records)[k]),
    decreases records.len(),
{
    let before = collected(records.drop_last());
    if k < before.len() {
        lemma_collected_stems_from_records(records.drop_last(), k);
        let j = choose|j: int|
            0 <= j < records.drop_last().len() && interface_of(#[trigger] records.drop_last()[j])
                == Ok::<IpInterfaceView, NetError>(before[k]);
        assert(records[j] == records.drop_last()[j]);
        assert(collected(records)[k] == before[k]);
    } else {
        let j = records.len() - 1;
        assert(interface_of(records[j]) == Ok::<IpInterfaceView, NetError>(collected(records)[k]));
    }
}

/// What two listings in a row describe is what the first describes, followed
/// by what the second describes.
pub proof fn lemma_collected_concat(a: Seq<RawInterface>, b: Seq<RawInterface>)
    ensures
        collected(a + b) == collected(a) + collected(b),
    decreases b.len(),
{
    if b.len() == 0 {
        assert(a + b =~= a);
        assert(collected(a) + collected(b) =~= collected(a));
    } else {
        lemma_collected_concat(a, b.drop_last());
        assert((a + b).drop_last() =~= a + b.drop_last());
        assert((a + b).last() == b.last());
        match interface_of(b.last()) {
            Ok(v) => {
                assert(collected(a + b) =~= collected(a) + collected(b));
            },
            Err(_) => {},
        }
    }
}

/// What one record adds to a listing's configurations: its configuration, or
/// nothing.
pub open spec fn contribution(raw: RawInterface) -> Multiset<IpInterfaceView> {
    match interface_of(raw) {
        Ok(v) => Multiset::singleton(v),
        Err(_) => Multiset::empty(),
    }
}

/// Taking one record out of a listing takes out exactly what that record
/// adds.
pub proof fn lemma_collected_remove(records: Seq<RawInterface>, j: int)
    requires
        0 <= j < records.len(),
    ensures
        collected(records).to_multiset() == collected(records.remove(j)).to_multiset().add(
            contribution(records[j]),
        ),
{
    let head = records.subrange(0, j);
    let one = records.subrange(j, j + 1);
    let tail = records.subrange(j + 1, records.len() as int);
    assert(records =~= head + one + tail);
    assert(records.remove(j) =~= head + tail);
    lemma_collected_concat(head + one, tail);
    lemma_collected_concat(head, one);
    lemma_collected_concat(head, tail);
    assert(one.drop_last() =~= Seq::<RawInterface>::empty());
    assert(one.last() == records[j]);
    assert(collected(one.drop_last()) =~= Seq::<IpInterfaceView>::empty());
    assert(collected(one).to_multiset() =~= contribution(records[j])) by {
        broadcast use vstd::seq_lib::group_to_multiset_ensures;

        match interface_of(records[j]) {
            Ok(v) => {
                assert(collected(one) =~= Seq::<IpInterfaceView>::empty().push(v));
                assert(Seq::<IpInterfaceView>::empty().to_multiset() =~= Multiset::empty());
            },
            Err(_) => {
                assert(collected(one) =~= Seq::<IpInterfaceView>::empty());
            },
        }
    }
    lemma_multiset_commutative(collected(head) + collected(one), collected(tail));
    lemma_multiset_commutative(collected(head), collected(one));
    lemma_multiset_commutative(collected(head), collected(tail));
    assert(collected(records).to_multiset() =~= collected(records.remove(j)).to_multiset().add(
        contribution(records[j]),
    ));
}

/// Two listings that hold the same records, in whatever order, describe the
/// same configurations, each as often, in whatever order.
pub proof fn lemma_collected_ignores_order(a: Seq<RawInterface>, b: Seq<RawInterface>)
    requires
        a.to_multiset() == b.to_multiset(),
    ensures
        collected(a).to_multiset() == collected(b).to_multiset(),
        collected(a).len() == collected(b).len(),
    decreases a.len(),
{
    to_multiset_len(a);
    to_multiset_len(b);
    if a.len() == 0 {
        assert(a =~= b);
    } else {
        let last = a.len() - 1;
        let x = a[last];
        to_multiset_contains(a, x);
        to_multiset_contains(b, x);
        assert(a.contains(x));
        let j = choose|j: int| 0 <= j < b.len() && b[j] == x;
        to_multiset_remove(a, last);
        to_multiset_remove(b, j);
        lemma_collected_ignores_order(a.remove(last), b.remove(j));
        lemma_collected_remove(a, last);
        lemma_collected_remove(b, j);
    }
    to_multiset_len(collected(a));
    to_multiset_len(collected(b));
}

} // verus!
