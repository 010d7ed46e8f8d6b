use net_utils::{
    create_std_multicast_socket_ipv4, create_std_multicast_socket_ipv6,
    create_tokio_multicast_socket_ipv4, create_tokio_multicast_socket_ipv6, find_interface_index,
    socket_address_from, IpInterface, Ipv4Addr, Ipv6Addr, Membership, MulticastSetup, NetError,
    OsEvent, RawInterface, RawSockAddr, SetupState, SocketAction, SocketAddr, SocketAddrV4,
    SocketAddrV6,
};

fn ssdp_v4() -> SocketAddrV4 {
    SocketAddrV4 { ip: Ipv4Addr::new(239, 255, 255, 250), port: 1900 }
}

fn ip6(first: u8, second: u8, last: u8) -> Ipv6Addr {
    let mut octets = [0u8; 16];
    octets[0] = first;
    octets[1] = second;
    octets[15] = last;
    Ipv6Addr { octets }
}

fn ssdp_v6() -> SocketAddrV6 {
    SocketAddrV6 { ip: ip6(0xff, 0x02, 0x0c), port: 1900, flowinfo: 0, scope_id: 0 }
}

fn unspecified_v6() -> Ipv6Addr {
    Ipv6Addr { octets: [0; 16] }
}

fn done() -> OsEvent {
    OsEvent::Completed(Ok(0))
}

fn interface_record(name: &str, index: u32, flags: u32, ip: Ipv6Addr) -> RawInterface {
    let address = SocketAddrV6 { ip, port: 0, flowinfo: 0, scope_id: 0 };
    let mask = SocketAddrV6 { ip: Ipv6Addr { octets: [0xff; 16] }, port: 0, flowinfo: 0, scope_id: 0 };
    RawInterface {
        name: name.as_bytes().to_vec(),
        index,
        flags,
        address: Some(RawSockAddr::from_v6(&address)),
        net_mask: Some(RawSockAddr::from_v6(&mask)),
        aux_address: None,
    }
}

fn interfaces(records: Vec<RawInterface>) -> Vec<IpInterface> {
    IpInterface::retrieve_ip_interfaces(Ok(records)).unwrap()
}

#[test]
fn test_mc_socket_ip4() {
    let interface = Ipv4Addr::new(0, 0, 0, 0);
    let setup = create_std_multicast_socket_ipv4(&ssdp_v4(), &interface);
    assert!(setup.is_ok());
    let setup = setup.unwrap();
    assert_eq!(setup.action(), SocketAction::Allocate { family: 2 });

    let setup = setup.step(OsEvent::Completed(Ok(7)));
    assert_eq!(setup.action(), SocketAction::EnableReuse { socket: 7 });

    let setup = setup.step(done());
    let bound = match setup.action() {
        SocketAction::Bind { socket, address } => {
            assert_eq!(socket, 7);
            address
        },
        other => panic!("unexpected action {:?}", other),
    };
    assert_eq!(socket_address_from(&bound), Ok(SocketAddr::V4(ssdp_v4())));
    assert_eq!(socket_address_from(&bound).unwrap().port(), 1900);

    let setup = setup.step(done());
    assert_eq!(
        setup.action(),
        SocketAction::JoinV4 { socket: 7, group: ssdp_v4().ip, interface }
    );

    let setup = setup.step(done());
    assert_eq!(setup.state, SetupState::Ready { socket: 7 });
    assert_eq!(setup.action(), SocketAction::Finish { socket: 7 });
}

#[test]
fn test_mc_socket_ip6() {
    let setup = create_std_multicast_socket_ipv6(&ssdp_v6(), &unspecified_v6());
    assert!(setup.is_ok());
    let setup = setup.unwrap();
    assert_eq!(setup.action(), SocketAction::Allocate { family: 10 });

    let setup = setup.step(OsEvent::Completed(Ok(4)));
    assert_eq!(setup.action(), SocketAction::EnableReuse { socket: 4 });
    let setup = setup.step(done());
    assert!(matches!(setup.action(), SocketAction::Bind { socket: 4, .. }));
    let setup = setup.step(done());
    assert_eq!(setup.action(), SocketAction::ListInterfaces);

    let listing = vec![
        interface_record("lo", 1, 0x49, ip6(0, 0, 1)),
        interface_record("eth0", 2, 0x1043, ip6(0xfe, 0x80, 9)),
    ];
    let setup = setup.step(OsEvent::Interfaces(Ok(listing)));
    assert_eq!(
        setup.action(),
        SocketAction::JoinV6 { socket: 4, group: ssdp_v6().ip, index: 0 }
    );
    let setup = setup.step(done());
    assert_eq!(setup.action(), SocketAction::Finish { socket: 4 });
}

#[test]
fn non_multicast_group_is_refused() {
    let group = SocketAddrV4 { ip: Ipv4Addr::new(10, 0, 0, 1), port: 1900 };
    assert_eq!(
        create_std_multicast_socket_ipv4(&group, &Ipv4Addr::new(0, 0, 0, 0)),
        Err(NetError::NotMulticastAddress)
    );
    let group = SocketAddrV6 { ip: ip6(0xfe, 0x80, 1), port: 1900, flowinfo: 0, scope_id: 0 };
    assert_eq!(
        create_std_multicast_socket_ipv6(&group, &unspecified_v6()),
        Err(NetError::NotMulticastAddress)
    );
    assert_eq!(
        MulticastSetup::for_ipv6_with_scope(&group, &unspecified_v6(), [0, 0, 0, 0], false),
        Err(NetError::NotMulticastAddress)
    );
    assert_eq!(
        create_tokio_multicast_socket_ipv6(&group, &unspecified_v6()),
        Err(NetError::NotMulticastAddress)
    );
    let group = SocketAddrV4 { ip: Ipv4Addr::new(223, 255, 255, 255), port: 1900 };
    assert_eq!(
        create_tokio_multicast_socket_ipv4(&group, &Ipv4Addr::new(0, 0, 0, 0)),
        Err(NetError::NotMulticastAddress)
    );
}

#[test]
fn ipv4_setup_is_exact() {
    let interface = Ipv4Addr::new(192, 168, 1, 10);
    let setup = create_std_multicast_socket_ipv4(&ssdp_v4(), &interface).unwrap();
    assert_eq!(
        setup,
        MulticastSetup {
            membership: Membership::V4 { group: ssdp_v4().ip, interface },
            bind_address: RawSockAddr::from_v4(&ssdp_v4()),
            nonblocking: false,
            state: SetupState::Allocating,
        }
    );
}

#[test]
fn ipv6_bind_record_carries_second_octet_as_scope() {
    let group = SocketAddrV6 { ip: ip6(0xff, 0x05, 0x0c), port: 1900, flowinfo: 0x0a0b0c0d, scope_id: 77 };
    let setup = create_std_multicast_socket_ipv6(&group, &unspecified_v6()).unwrap();
    let mut expected = [0u8; 26];
    expected[0] = 0x07;
    expected[1] = 0x6c;
    expected[2] = 0x0a;
    expected[3] = 0x0b;
    expected[4] = 0x0c;
    expected[5] = 0x0d;
    expected[6] = 0xff;
    expected[7] = 0x05;
    expected[21] = 0x0c;
    expected[22..26].copy_from_slice(&5u32.to_ne_bytes());
    assert_eq!(setup.bind_address.family, 10);
    assert_eq!(setup.bind_address.data, expected);
    assert_eq!(
        setup.membership,
        Membership::V6 { group: group.ip, interface: unspecified_v6() }
    );
}

#[test]
fn ipv6_setup_with_given_scope_bytes_is_exact() {
    let setup =
        MulticastSetup::for_ipv6_with_scope(&ssdp_v6(), &unspecified_v6(), [1, 2, 3, 4], false)
            .unwrap();
    assert_eq!(&setup.bind_address.data[22..26], &[1, 2, 3, 4]);
    assert_eq!(&setup.bind_address.data[0..2], &[0x07, 0x6c]);
    assert_eq!(setup.state, SetupState::Allocating);
}

#[test]
fn failed_allocation_closes_nothing() {
    let setup = create_std_multicast_socket_ipv4(&ssdp_v4(), &Ipv4Addr::new(0, 0, 0, 0)).unwrap();
    let setup = setup.step(OsEvent::Completed(Err(24)));
    assert_eq!(
        setup.action(),
        SocketAction::Fail { close: None, error: NetError::AllocationFailed(24) }
    );
}

#[test]
fn failed_configuration_closes_the_socket() {
    let setup = create_std_multicast_socket_ipv4(&ssdp_v4(), &Ipv4Addr::new(0, 0, 0, 0)).unwrap();
    let setup = setup.step(OsEvent::Completed(Ok(3))).step(OsEvent::Completed(Err(22)));
    assert_eq!(
        setup.action(),
        SocketAction::Fail { close: Some(3), error: NetError::SocketConfigurationFailed(22) }
    );
}

#[test]
fn failed_bind_closes_the_socket() {
    let setup = create_std_multicast_socket_ipv6(&ssdp_v6(), &unspecified_v6()).unwrap();
    let setup =
        setup.step(OsEvent::Completed(Ok(3))).step(done()).step(OsEvent::Completed(Err(98)));
    assert_eq!(
        setup.action(),
        SocketAction::Fail { close: Some(3), error: NetError::BindFailed(98) }
    );
}

#[test]
fn failed_listing_closes_the_socket() {
    let setup = create_std_multicast_socket_ipv6(&ssdp_v6(), &unspecified_v6()).unwrap();
    let setup = setup
        .step(OsEvent::Completed(Ok(3)))
        .step(done())
        .step(done())
        .step(OsEvent::Interfaces(Err(12)));
    assert_eq!(
        setup.action(),
        SocketAction::Fail { close: Some(3), error: NetError::EnumerationFailed(12) }
    );
}

#[test]
fn failed_join_closes_the_socket() {
    let setup = create_std_multicast_socket_ipv4(&ssdp_v4(), &Ipv4Addr::new(0, 0, 0, 0)).unwrap();
    let setup = setup
        .step(OsEvent::Completed(Ok(3)))
        .step(done())
        .step(done())
        .step(OsEvent::Completed(Err(19)));
    assert_eq!(
        setup.action(),
        SocketAction::Fail { close: Some(3), error: NetError::JoinFailed(19) }
    );
    let after = setup.step(done());
    assert_eq!(after, setup);
}

#[test]
fn event_that_answers_nothing_is_ignored() {
    let start = create_std_multicast_socket_ipv6(&ssdp_v6(), &unspecified_v6()).unwrap();
    assert_eq!(start.step(OsEvent::Interfaces(Ok(Vec::new()))), start);
    let resolving =
        start.step(OsEvent::Completed(Ok(3))).step(done()).step(done());
    assert_eq!(resolving.state, SetupState::Resolving { socket: 3 });
    assert_eq!(resolving.step(done()), resolving);
    let ready = resolving.step(OsEvent::Interfaces(Ok(Vec::new()))).step(done());
    assert_eq!(ready.state, SetupState::Ready { socket: 3 });
    assert_eq!(ready.step(OsEvent::Completed(Err(1))), ready);
}

#[test]
fn ipv6_join_uses_index_of_matching_interface() {
    let local = ip6(0xfe, 0x80, 9);
    let setup = create_std_multicast_socket_ipv6(&ssdp_v6(), &local).unwrap();
    let listing = vec![
        interface_record("lo", 1, 0x49, ip6(0, 0, 1)),
        interface_record("eth0", 2, 0x43, local),
        interface_record("eth1", 3, 0x1043, local),
        interface_record("eth2", 4, 0x1043, local),
    ];
    let setup = setup
        .step(OsEvent::Completed(Ok(3)))
        .step(done())
        .step(done())
        .step(OsEvent::Interfaces(Ok(listing)));
    assert_eq!(
        setup.action(),
        SocketAction::JoinV6 { socket: 3, group: ssdp_v6().ip, index: 3 }
    );
}

#[test]
fn index_of_first_fitting_interface() {
    let local = ip6(0xfe, 0x80, 9);
    let found = interfaces(vec![
        interface_record("eth0", 2, 0x1043, ip6(0xfe, 0x80, 8)),
        interface_record("eth1", 3, 0x1043, local),
        interface_record("eth2", 4, 0x1043, local),
    ]);
    assert_eq!(find_interface_index(&found, &local), 3);
    assert_eq!(find_interface_index(&found, &ip6(0xfe, 0x80, 8)), 2);
}

#[test]
fn index_is_zero_without_fitting_interface() {
    let local = ip6(0xfe, 0x80, 9);
    assert_eq!(find_interface_index(&Vec::new(), &local), 0);
    let found = interfaces(vec![
        interface_record("eth0", 2, 0x1043, ip6(0xfe, 0x80, 8)),
        interface_record("eth1", 3, 0x43, local),
    ]);
    assert_eq!(find_interface_index(&found, &local), 0);
    let v4_only = IpInterface::retrieve_ip_interfaces(Ok(vec![RawInterface {
        name: b"eth0".to_vec(),
        index: 2,
        flags: 0x1043,
        address: Some(RawSockAddr::from_v4(&SocketAddrV4 { ip: Ipv4Addr::new(0, 0, 0, 0), port: 0 })),
        net_mask: Some(RawSockAddr::from_v4(&SocketAddrV4 { ip: Ipv4Addr::new(0, 0, 0, 0), port: 0 })),
        aux_address: None,
    }]))
    .unwrap();
    assert_eq!(find_interface_index(&v4_only, &unspecified_v6()), 0);
}

#[test]
fn runtime_socket_is_made_non_blocking_last() {
    let interface = Ipv4Addr::new(0, 0, 0, 0);
    let setup = create_tokio_multicast_socket_ipv4(&ssdp_v4(), &interface).unwrap();
    assert!(setup.nonblocking);
    assert_eq!(setup.bind_address, RawSockAddr::from_v4(&ssdp_v4()));
    let setup = setup.step(OsEvent::Completed(Ok(6))).step(done()).step(done());
    assert_eq!(
        setup.action(),
        SocketAction::JoinV4 { socket: 6, group: ssdp_v4().ip, interface }
    );
    let setup = setup.step(done());
    assert_eq!(setup.action(), SocketAction::SetNonBlocking { socket: 6 });
    let setup = setup.step(done());
    assert_eq!(setup.action(), SocketAction::Finish { socket: 6 });
}

#[test]
fn runtime_socket_ipv6_runs_all_steps() {
    let setup = create_tokio_multicast_socket_ipv6(&ssdp_v6(), &unspecified_v6()).unwrap();
    let plain = create_std_multicast_socket_ipv6(&ssdp_v6(), &unspecified_v6()).unwrap();
    assert_eq!(setup.bind_address, plain.bind_address);
    assert_eq!(setup.membership, plain.membership);
    let setup = setup
        .step(OsEvent::Completed(Ok(6)))
        .step(done())
        .step(done())
        .step(OsEvent::Interfaces(Ok(Vec::new())))
        .step(done());
    assert_eq!(setup.action(), SocketAction::SetNonBlocking { socket: 6 });
    assert_eq!(setup.step(done()).state, SetupState::Ready { socket: 6 });
}

#[test]
fn failed_unblocking_closes_the_socket() {
    let setup =
        create_tokio_multicast_socket_ipv4(&ssdp_v4(), &Ipv4Addr::new(0, 0, 0, 0)).unwrap();
    let setup = setup
        .step(OsEvent::Completed(Ok(6)))
        .step(done())
        .step(done())
        .step(done())
        .step(OsEvent::Completed(Err(9)));
    assert_eq!(
        setup.action(),
        SocketAction::Fail { close: Some(6), error: NetError::SocketConfigurationFailed(9) }
    );
}
