use rs_matter_stack::error::ErrorCode;
use rs_matter_stack::mdns::{
    emdns_services, hostname, AstroMdns, BuiltinMdns, MatterBuffer, MatterService, MdnsStep,
    ZeroconfMdns,
};
use rs_matter_stack::netif::{
    extract_if_conf, get_if_conf, DummyNetif, IfAddress, InterfaceAddress, NetifConf,
    NetifSearchFlags, UnixNetif, POLL_INTERVAL_SECS,
};
use rs_matter_stack::oper::{Netif, NetifInfo, OperEvent, OperMode, OperNet};

const LOOPBACK: i32 = 0x8;
const POINTOPOINT: i32 = 0x10;
const BROADCAST: i32 = 0x2;
const LINK_LOCAL: [u8; 16] = [0xfe, 0x80, 0, 0, 0, 0, 0, 0, 0, 0, 0, 0, 0, 0, 0, 1];
const GLOBAL: [u8; 16] = [0x20, 0x01, 0, 0, 0, 0, 0, 0, 0, 0, 0, 0, 0, 0, 0, 1];

fn entry(name: &str, flags: i32, address: Option<IfAddress>) -> InterfaceAddress {
    InterfaceAddress {
        interface_name: String::from(name),
        flags,
        address,
    }
}

fn listing() -> Vec<InterfaceAddress> {
    vec![
        entry("lo", LOOPBACK, Some(IfAddress::Ipv4([127, 0, 0, 1]))),
        entry("eth0", BROADCAST, Some(IfAddress::Ipv4([10, 0, 0, 1]))),
        entry("eth0", BROADCAST, Some(IfAddress::Ipv6(LINK_LOCAL))),
        entry(
            "eth0",
            BROADCAST,
            Some(IfAddress::Link {
                ifindex: 3,
                addr: Some([1, 2, 3, 4, 5, 0xab]),
            }),
        ),
        entry("eth1", BROADCAST, Some(IfAddress::Ipv4([10, 0, 1, 1]))),
        entry("eth1", BROADCAST, Some(IfAddress::Ipv6(GLOBAL))),
        entry("eth2", BROADCAST, Some(IfAddress::Ipv4([10, 0, 2, 1]))),
        entry("tun0", POINTOPOINT, Some(IfAddress::Ipv4([10, 0, 3, 1]))),
        entry("tun0", POINTOPOINT, None),
    ]
}

fn search(bits: u16) -> Vec<String> {
    let flags = NetifSearchFlags { bits };
    let first = Some(listing());
    let further: Vec<_> = UnixNetif::candidates(flags, &first)
        .iter()
        .map(|_| Some(listing()))
        .collect();
    UnixNetif::search(flags, &first, &further)
        .iter()
        .map(|netif| String::from(netif.name()))
        .collect()
}

#[test]
fn default_search() {
    let flags = NetifSearchFlags::default();
    assert_eq!(flags.bits, 0x00fa);
    assert!(flags.contains(NetifSearchFlags::BROADCAST));
    assert!(!flags.contains(NetifSearchFlags::LOOPBACK));
    assert_eq!(search(flags.bits), ["eth0"]);
    let first = Some(listing());
    let further = vec![Some(listing()), Some(listing()), Some(listing())];
    assert_eq!(UnixNetif::candidates(flags, &first), ["eth0", "eth1", "eth2"]);
    let found = UnixNetif::search(flags, &first, &further);
    assert_eq!(UnixNetif::new_default(found).name(), "eth0");
}

#[test]
fn search_by_interface_flags() {
    assert_eq!(search(NetifSearchFlags::LOOPBACK), ["lo"]);
    assert_eq!(search(NetifSearchFlags::PEER_TO_PEER), ["tun0", "tun0"]);
    assert_eq!(search(NetifSearchFlags::PEER_TO_PEER | NetifSearchFlags::IPV4), ["tun0"]);
    assert_eq!(
        search(NetifSearchFlags::BROADCAST | NetifSearchFlags::IPV4),
        ["eth0", "eth1", "eth2"]
    );
    assert_eq!(
        search(NetifSearchFlags::NON_LOOPBACK | NetifSearchFlags::IPV4),
        ["eth0", "eth1", "eth2", "tun0"]
    );
    assert_eq!(
        search(NetifSearchFlags::NON_PEER_TO_PEER | NetifSearchFlags::IPV4),
        ["lo", "eth0", "eth1", "eth2"]
    );
    assert_eq!(search(0).len(), 9);
    assert!(search(NetifSearchFlags::LOOPBACK | NetifSearchFlags::BROADCAST).is_empty());
}

#[test]
fn search_by_ipv6_address() {
    assert_eq!(search(NetifSearchFlags::IPV4 | NetifSearchFlags::IPV6), ["eth0", "eth1"]);
    assert_eq!(search(NetifSearchFlags::IPV4 | NetifSearchFlags::IPV6_LINK_LOCAL), ["eth0"]);
    assert_eq!(search(NetifSearchFlags::IPV4 | NetifSearchFlags::IPV6_NON_LINK_LOCAL), ["eth1"]);
    let bits = NetifSearchFlags::IPV4
        | NetifSearchFlags::IPV6_LINK_LOCAL
        | NetifSearchFlags::IPV6_NON_LINK_LOCAL;
    assert!(search(bits).is_empty());
}

#[test]
fn search_without_listing() {
    let flags = NetifSearchFlags::default();
    assert!(UnixNetif::candidates(flags, &None).is_empty());
    assert!(UnixNetif::search(flags, &None, &vec![]).is_empty());
    let first = Some(vec![entry(
        "eth0",
        BROADCAST,
        Some(IfAddress::Ipv4([10, 0, 0, 1])),
    )]);
    assert!(UnixNetif::search(flags, &first, &vec![None]).is_empty());
    let flags = NetifSearchFlags {
        bits: NetifSearchFlags::IPV4,
    };
    assert_eq!(UnixNetif::search(flags, &first, &vec![None]).len(), 1);
}

#[test]
fn flags_of_the_system() {
    let flags = NetifSearchFlags { bits: 0x1f };
    assert_eq!(flags.contains_if_flags(), LOOPBACK | POINTOPOINT | BROADCAST);
    assert_eq!(flags.not_contains_if_flags(), LOOPBACK | POINTOPOINT);
    let flags = NetifSearchFlags { bits: 0 };
    assert_eq!(flags.contains_if_flags(), 0);
    assert_eq!(flags.not_contains_if_flags(), 0);
}

#[test]
fn configuration_of_an_interface() {
    let eth0 = UnixNetif::new(String::from("eth0"));
    let conf = eth0.get_conf(&listing()).unwrap();
    assert_eq!(conf.ipv4, [10, 0, 0, 1]);
    assert_eq!(conf.ipv6, LINK_LOCAL);
    assert_eq!(conf.interface, 3);
    assert_eq!(conf.mac, [1, 2, 3, 4, 5, 0xab]);
    assert_eq!(
        conf.text("fe80::1"),
        "IPv4: 10.0.0.1, IPv6: fe80::1, Interface: 3, MAC: 01:02:03:04:05:AB"
    );
    assert!(get_if_conf(&String::from("eth1"), &listing()).is_none());
    assert!(get_if_conf(&String::from("none"), &listing()).is_none());
}

#[test]
fn configuration_takes_last_addresses_and_first_link() {
    let addrs = vec![
        IfAddress::Ipv4([1, 1, 1, 1]),
        IfAddress::Link {
            ifindex: 0x1_0000_0007,
            addr: None,
        },
        IfAddress::Ipv6(GLOBAL),
        IfAddress::Other,
        IfAddress::Link {
            ifindex: 8,
            addr: Some([8; 6]),
        },
        IfAddress::Link {
            ifindex: 9,
            addr: Some([9; 6]),
        },
        IfAddress::Ipv6(LINK_LOCAL),
        IfAddress::Ipv4([2, 2, 2, 2]),
    ];
    let conf = extract_if_conf(&addrs).unwrap();
    assert_eq!(conf.ipv4, [2, 2, 2, 2]);
    assert_eq!(conf.ipv6, LINK_LOCAL);
    assert_eq!(conf.interface, 7);
    assert_eq!(conf.mac, [8; 6]);
    for missing in 0..4 {
        let mut addrs = vec![
            IfAddress::Ipv4([1, 1, 1, 1]),
            IfAddress::Ipv6(GLOBAL),
            IfAddress::Link {
                ifindex: 8,
                addr: Some([8; 6]),
            },
        ];
        if missing < 3 {
            addrs.remove(missing);
        } else {
            addrs[2] = IfAddress::Link {
                ifindex: 8,
                addr: None,
            };
        }
        assert!(extract_if_conf(&addrs).is_none());
    }
}

#[test]
fn configurations() {
    let conf = NetifConf::new();
    assert_eq!(conf.ipv4, [0; 4]);
    assert_eq!(conf.ipv6, [0; 16]);
    assert_eq!(conf.interface, 0);
    assert_eq!(conf.mac, [0; 6]);
    assert!(conf.same(&NetifConf::default()));
    let other = NetifConf {
        interface: 1,
        ..conf
    };
    assert!(!conf.same(&other));
    let netif = DummyNetif::new(Some(other), "bind");
    assert_eq!(netif.bind, "bind");
    assert!(netif.get_conf().unwrap().same(&other));
    assert!(DummyNetif::new(None, ()).get_conf().is_none());
    assert_eq!(
        NetifConf {
            ipv4: [255, 0, 90, 7],
            interface: 4294967295,
            ..conf
        }
        .text("::"),
        "IPv4: 255.0.90.7, IPv6: ::, Interface: 4294967295, MAC: 00:00:00:00:00:00"
    );
    assert_eq!(POLL_INTERVAL_SECS, 2);
}

#[test]
fn hostnames() {
    assert_eq!(
        hostname(&[0x01, 0xab, 0x00, 0xff, 0x10, 0x9c]).as_str(),
        "01AB00FF109C"
    );
    assert_eq!(
        hostname(&[0, 1, 2, 3, 4, 5, 6, 0xf7]).as_str(),
        "00010203040506F7"
    );
    assert!(hostname(&[0, 0, 0, 0, 0, 1]) != hostname(&[0, 0, 0, 0, 1, 0]));
}

#[test]
fn mdns_steps() {
    let mac = [0, 1, 2, 3, 4, 5, 6, 7];
    let mut run = BuiltinMdns.run(&mac, [10, 0, 0, 1], GLOBAL, 4);
    assert!(matches!(
        run.first(),
        MdnsStep::Bind {
            port: 5353,
            interface: 4
        }
    ));
    match run.next(true) {
        Ok(MdnsStep::JoinV4 { group_v4, local }) => {
            assert_eq!(group_v4, [224, 0, 0, 251]);
            assert_eq!(local, [10, 0, 0, 1]);
        }
        other => panic!("unexpected {:?}", other),
    }
    match run.next(true) {
        Ok(MdnsStep::JoinV6 {
            group_v6,
            interface,
        }) => {
            assert_eq!(group_v6[0], 0xff);
            assert_eq!(group_v6[1], 2);
            assert_eq!(group_v6[15], 0xfb);
            assert_eq!(interface, 4);
        }
        other => panic!("unexpected {:?}", other),
    }
    match run.next(true) {
        Ok(MdnsStep::Respond {
            host,
            local,
            interface,
        }) => {
            assert_eq!(host.id, 0);
            assert_eq!(host.name(), "0001020304050607");
            assert_eq!(host.ip, [10, 0, 0, 1]);
            assert_eq!(host.ipv6, GLOBAL);
            assert_eq!(local, [10, 0, 0, 1]);
            assert_eq!(interface, 4);
        }
        other => panic!("unexpected {:?}", other),
    }
}

#[test]
fn mdns_failures() {
    for failing in 0..3 {
        let mut run = BuiltinMdns.run(&[1, 2, 3], [0; 4], [0; 16], 0);
        for _ in 0..failing {
            assert!(run.next(true).is_ok());
        }
        assert!(matches!(run.next(false), Err(ErrorCode::StdIoError)));
    }
}

#[test]
fn mdns_services() {
    let _ = (ZeroconfMdns, AstroMdns);
    assert_eq!(MatterBuffer::new(3).0, 3);
    let service = |name: &str, port: u16| MatterService {
        name: String::from(name),
        service: String::from("_matter"),
        protocol: String::from("_tcp"),
        port,
        service_subtypes: vec![String::from("_I1")],
        txt_kvs: vec![(String::from("SII"), String::from("5"))],
    };
    let services = emdns_services(vec![service("a", 1), service("b", 2)]);
    assert_eq!(services.len(), 2);
    assert_eq!(services[0].name, "a");
    assert_eq!(services[1].name, "b");
    assert_eq!(services[1].port, 2);
    assert_eq!(services[1].service, "_matter");
    assert_eq!(services[1].protocol, "_tcp");
    assert_eq!(services[1].service_subtypes, ["_I1"]);
    assert_eq!(services[1].txt_kvs.len(), 1);
    assert_eq!(services[1].priority, 0);
    assert_eq!(services[1].weight, 0);
}

fn info(index: u32, operational: bool, ipv6: &[[u8; 16]], ipv4: &[[u8; 4]]) -> NetifInfo {
    NetifInfo {
        operational,
        ipv6_addrs: ipv6.to_vec(),
        ipv4_addrs: ipv4.to_vec(),
        hw_addr: [index as u8; 8],
        netif_index: index,
    }
}

#[test]
fn last_usable_interface_is_used() {
    let mut netif = Netif::new();
    netif.load(&vec![
        info(1, true, &[GLOBAL], &[]),
        info(2, true, &[LINK_LOCAL, GLOBAL], &[[10, 0, 0, 1], [10, 0, 0, 2]]),
        info(3, false, &[GLOBAL], &[]),
        info(4, true, &[], &[[10, 0, 0, 3]]),
    ]);
    assert!(netif.operational);
    assert_eq!(netif.ipv6, LINK_LOCAL);
    assert_eq!(netif.ipv4, [10, 0, 0, 1]);
    assert_eq!(netif.mac, [2; 8]);
    assert_eq!(netif.netif_index, 2);
    netif.load(&vec![info(1, true, &[GLOBAL], &[])]);
    assert_eq!(netif.ipv4, [0; 4]);
    assert_eq!(netif.netif_index, 1);
    netif.load(&vec![]);
    assert!(!netif.operational);
    assert_eq!(netif.ipv6, [0; 16]);
    assert_eq!(netif.mac, [0; 8]);
    assert_eq!(netif.netif_index, 1);
    assert!(!netif.same(&Netif::new()));
    assert!(Netif::new().same(&Netif::new()));
}

#[test]
fn operational_network_follows_the_interface() {
    let up = vec![info(2, true, &[GLOBAL], &[])];
    let down = vec![info(2, false, &[GLOBAL], &[])];
    let mut net = OperNet::start(false, &up, Ok(())).unwrap();
    match net.begin() {
        OperMode::Operational {
            port,
            chained,
            netif,
        } => {
            assert_eq!(port, 5540);
            assert!(!chained);
            assert_eq!(netif.ipv6, GLOBAL);
        }
        other => panic!("unexpected {:?}", other),
    }
    assert_eq!(net.bound(true), Ok(()));
    assert_eq!(net.bound(false), Err(ErrorCode::StdIoError));
    assert_eq!(net.netif_changed(&up, Ok(())), Ok(false));
    assert_eq!(net.netif_changed(&down, Ok(())), Ok(true));
    assert_eq!(net.ended(OperEvent::NetifChanged(Ok(()))), None);
    assert!(matches!(net.begin(), OperMode::Down));
    assert_eq!(net.netif_changed(&down, Ok(())), Ok(false));
    assert_eq!(
        net.netif_changed(&up, Err(ErrorCode::Busy)),
        Err(ErrorCode::Busy)
    );
    assert_eq!(net.ended(OperEvent::NetifChanged(Err(ErrorCode::Busy))), None);
    assert!(matches!(net.begin(), OperMode::Operational { .. }));
}

#[test]
fn operational_network_with_commissioning() {
    let up = vec![info(2, true, &[GLOBAL], &[])];
    let mut net = OperNet::start(true, &vec![], Ok(())).unwrap();
    assert!(matches!(net.begin(), OperMode::Commissioning));
    assert_eq!(net.netif_changed(&up, Ok(())), Ok(true));
    assert!(matches!(
        net.begin(),
        OperMode::Operational { chained: true, .. }
    ));
    assert!(matches!(
        OperNet::start(true, &up, Err(ErrorCode::Busy)),
        Err(ErrorCode::Busy)
    ));
}

#[test]
fn operational_network_ends() {
    let net = OperNet::start(false, &vec![], Ok(())).unwrap();
    let failure = Err(ErrorCode::StdIoError);
    assert_eq!(net.ended(OperEvent::Network(failure)), Some(failure));
    assert_eq!(net.ended(OperEvent::Mdns(failure)), Some(failure));
    assert_eq!(net.ended(OperEvent::Until(Ok(()))), Some(Ok(())));
}

#[test]
fn the_task_of_the_user_needs_an_interface() {
    let up = OperMode::Operational {
        port: 5540,
        chained: false,
        netif: Netif::new(),
    };
    assert!(up.runs_user_task());
    assert!(!OperMode::Commissioning.runs_user_task());
    assert!(!OperMode::Down.runs_user_task());
}
