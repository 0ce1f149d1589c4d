use rs_matter_stack::error::ErrorCode;
use rs_matter_stack::wireless::comm::{
    AttrReply, Attributes, Command, Commands, ConnectNetworkRequest, ConnectNetworkResponse,
    Dataver, InvokeStep, NetworkConfigResponse, RemoveNetworkRequest, ReorderNetworkRequest,
    ScanNetworksRequest, ScanNetworksResponse, ScanWrite, WirelessNwCommCluster,
};
use rs_matter_stack::wireless::store::{
    NetworkCommissioningStatus, NetworkContext, NetworkState, NetworkStatus, StoredNetwork,
};
use rs_matter_stack::wireless::traits::{
    AddThreadNetworkRequest, AddWifiNetworkRequest, NetworkCredentials, NetworkId,
    ThreadCredentials, ThreadData, WifiCredentials, WifiData, WifiSsid,
};

type Context = NetworkContext<3, WifiData>;

fn add(ssid: &str, password: &str) -> AddWifiNetworkRequest {
    AddWifiNetworkRequest {
        ssid: ssid.as_bytes().to_vec(),
        credentials: password.as_bytes().to_vec(),
    }
}

fn creds(ssid: &str, password: &str) -> WifiCredentials {
    WifiCredentials::try_from_wifi(&add(ssid, password)).unwrap()
}

fn id(ssid: &str) -> WifiSsid {
    <WifiSsid as NetworkId>::try_from(ssid.as_bytes()).unwrap()
}

fn ssids(context: &Context) -> Vec<String> {
    context
        .state
        .networks
        .iter()
        .map(|n| String::from_utf8(n.ssid.as_ref().to_vec()).unwrap())
        .collect()
}

fn context(names: &[&str]) -> Context {
    let mut context = Context::new();
    let cluster = WirelessNwCommCluster::new(Dataver(1));
    for name in names {
        cluster.add_wifi_network(&mut context, &add(name, "pw")).unwrap();
    }
    context.state.changed = false;
    context.state_changed = false;
    context
}

fn reply(status: NetworkCommissioningStatus, index: Option<u8>) -> NetworkConfigResponse {
    NetworkConfigResponse {
        status,
        network_index: index,
    }
}

#[test]
fn new_state_is_empty() {
    let context = Context::default();
    assert!(context.state.networks.is_empty());
    assert!(!context.changed());
    assert!(!context.is_network_activated());
    assert!(!context.concurrent_connection_supported());
    assert!(context.state.status.is_none());
    assert!(!context.state.connected_once);
}

#[test]
fn add_until_full_and_update() {
    let cluster = WirelessNwCommCluster::new(Dataver(1));
    let mut context = Context::new();
    for (i, name) in ["a", "b", "c"].iter().enumerate() {
        let res = cluster.add_wifi_network(&mut context, &add(name, "pw"));
        assert_eq!(
            res,
            Ok(reply(NetworkCommissioningStatus::Success, Some(i as u8)))
        );
        assert!(context.changed());
        assert!(context.state_changed);
    }
    context.state.changed = false;
    context.state_changed = false;
    assert_eq!(
        cluster.add_wifi_network(&mut context, &add("d", "pw")),
        Ok(reply(NetworkCommissioningStatus::BoundsExceeded, None))
    );
    assert!(!context.changed());
    assert!(!context.state_changed);
    assert_eq!(
        cluster.add_wifi_network(&mut context, &add("b", "other")),
        Ok(reply(NetworkCommissioningStatus::Success, Some(1)))
    );
    assert_eq!(ssids(&context), ["a", "b", "c"]);
    assert_eq!(context.state.networks[1].password.as_str(), "other");
    assert!(context.changed());
}

#[test]
fn add_refused() {
    let cluster = WirelessNwCommCluster::new(Dataver(1));
    let mut context = context(&["a"]);
    let req = AddWifiNetworkRequest {
        ssid: vec![1; 33],
        credentials: vec![],
    };
    assert_eq!(
        cluster.add_wifi_network(&mut context, &req),
        Err(ErrorCode::NoSpace)
    );
    let req = AddWifiNetworkRequest {
        ssid: vec![1; 3],
        credentials: vec![0xff],
    };
    assert_eq!(
        cluster.add_wifi_network(&mut context, &req),
        Err(ErrorCode::InvalidData)
    );
    let req = AddThreadNetworkRequest { op_dataset: vec![] };
    assert_eq!(
        cluster.add_thread_network(&mut context, &req),
        Err(ErrorCode::InvalidCommand)
    );
    assert_eq!(ssids(&context), ["a"]);
    assert!(!context.changed());
}

#[test]
fn thread_networks() {
    let cluster = WirelessNwCommCluster::new(Dataver(1));
    let mut context = NetworkContext::<2, ThreadData>::new();
    let req = |id: u8| AddThreadNetworkRequest {
        op_dataset: vec![2, 8, id, 0, 0, 0, 0, 0, 0, id],
    };
    assert_eq!(
        cluster.add_thread_network(&mut context, &req(1)),
        Ok(reply(NetworkCommissioningStatus::Success, Some(0)))
    );
    assert_eq!(
        cluster.add_thread_network(&mut context, &req(2)),
        Ok(reply(NetworkCommissioningStatus::Success, Some(1)))
    );
    assert_eq!(
        cluster.add_thread_network(&mut context, &req(2)),
        Ok(reply(NetworkCommissioningStatus::Success, Some(1)))
    );
    assert_eq!(
        cluster.add_thread_network(&mut context, &req(3)),
        Ok(reply(NetworkCommissioningStatus::BoundsExceeded, None))
    );
    assert_eq!(
        cluster.add_wifi_network(&mut context, &add("a", "")),
        Err(ErrorCode::InvalidCommand)
    );
    let req = RemoveNetworkRequest {
        network_id: vec![0; 9],
    };
    assert_eq!(
        cluster.remove_network(&mut context, &req),
        Err(ErrorCode::InvalidData)
    );
    let first: &ThreadCredentials = &context.state.networks[0];
    assert_eq!(first.network_id().as_ref(), &[1, 0, 0, 0, 0, 0, 0, 1]);
}

#[test]
fn remove_undoes_add() {
    let cluster = WirelessNwCommCluster::new(Dataver(1));
    let mut context = context(&["a", "b"]);
    cluster.add_wifi_network(&mut context, &add("c", "pw")).unwrap();
    let req = RemoveNetworkRequest {
        network_id: b"c".to_vec(),
    };
    assert_eq!(
        cluster.remove_network(&mut context, &req),
        Ok(reply(NetworkCommissioningStatus::Success, Some(2)))
    );
    assert_eq!(ssids(&context), ["a", "b"]);
    context.state.changed = false;
    assert_eq!(
        cluster.remove_network(&mut context, &req),
        Ok(reply(NetworkCommissioningStatus::NetworkIdNotFound, None))
    );
    assert!(!context.changed());
    let req = RemoveNetworkRequest {
        network_id: vec![0; 33],
    };
    assert_eq!(
        cluster.remove_network(&mut context, &req),
        Err(ErrorCode::NoSpace)
    );
}

#[test]
fn reorder_and_back() {
    let cluster = WirelessNwCommCluster::new(Dataver(1));
    let mut context = context(&["a", "b", "c"]);
    let req = |name: &str, index: u8| ReorderNetworkRequest {
        network_id: name.as_bytes().to_vec(),
        index,
    };
    assert_eq!(
        cluster.reorder_network(&mut context, &req("a", 2)),
        Ok(reply(NetworkCommissioningStatus::Success, Some(2)))
    );
    assert_eq!(ssids(&context), ["b", "c", "a"]);
    assert!(context.changed());
    cluster.reorder_network(&mut context, &req("a", 0)).unwrap();
    assert_eq!(ssids(&context), ["a", "b", "c"]);
    cluster.reorder_network(&mut context, &req("c", 1)).unwrap();
    assert_eq!(ssids(&context), ["a", "c", "b"]);
    context.state.changed = false;
    assert_eq!(
        cluster.reorder_network(&mut context, &req("a", 3)),
        Ok(reply(NetworkCommissioningStatus::OutOfRange, Some(3)))
    );
    assert_eq!(
        cluster.reorder_network(&mut context, &req("x", 0)),
        Ok(reply(NetworkCommissioningStatus::NetworkIdNotFound, None))
    );
    assert_eq!(
        cluster.reorder_network(
            &mut context,
            &ReorderNetworkRequest {
                network_id: vec![0; 33],
                index: 0
            }
        ),
        Err(ErrorCode::NoSpace)
    );
    assert!(!context.changed());
    assert_eq!(ssids(&context), ["a", "c", "b"]);
}

#[test]
fn connect_network_is_requested() {
    let cluster = WirelessNwCommCluster::new(Dataver(1));
    let mut context = context(&["a", "b"]);
    let req = ConnectNetworkRequest {
        network_id: b"b".to_vec(),
    };
    let (network_id, found) = cluster.connect_network(&context, &req).unwrap();
    assert_eq!(network_id.as_ref(), b"b");
    assert_eq!(found.ssid.as_ref(), b"b");

    assert_eq!(
        cluster.connect_network_done(&mut context, id("b"), Err(ErrorCode::NoNetworkInterface)),
        Err(ErrorCode::NoNetworkInterface)
    );
    assert!(!context.is_network_activated());
    assert!(!context.wait_network_activated());

    assert_eq!(
        cluster.connect_network_done(&mut context, network_id, Ok(())),
        Ok(ConnectNetworkResponse {
            status: NetworkCommissioningStatus::Success,
            error_value: 0
        })
    );
    assert!(context.is_network_activated());
    assert!(context.changed());
    assert!(!context.network_connect_requested);
    assert_eq!(
        cluster.connect_network_replied(&mut context, Err(ErrorCode::NoSpace)),
        Err(ErrorCode::NoSpace)
    );
    assert!(!context.network_connect_requested);
    assert_eq!(cluster.connect_network_replied(&mut context, Ok(())), Ok(()));
    assert!(context.network_connect_requested);
    assert!(context.wait_network_activated());
    assert!(context.network_connect_requested);

    let next = context.state.get_next_network(None).unwrap();
    assert_eq!(next.ssid.as_ref(), b"b");
    assert!(!context.wait_network_activated());
    assert!(!context.network_connect_requested);

    let req = ConnectNetworkRequest {
        network_id: vec![0; 33],
    };
    assert!(matches!(
        cluster.connect_network(&context, &req),
        Err(ErrorCode::NoSpace)
    ));
}

#[test]
fn wait_for_state_change() {
    let mut context = context(&["a"]);
    context.state_changed = true;
    assert!(!context.wait_state_changed());
    assert!(!context.state_changed);
    context.state.changed = true;
    context.state_changed = true;
    assert!(context.wait_state_changed());
    assert!(context.state_changed);
}

#[test]
fn round_robin() {
    let mut state = context(&["a", "b", "c"]).state;
    let mut last: Option<WifiSsid> = None;
    for expected in ["a", "b", "c", "a", "b"] {
        let next = state.get_next_network(last.as_ref()).unwrap();
        assert_eq!(next.ssid.as_ref(), expected.as_bytes());
        last = Some(next.network_id());
    }
    assert_eq!(
        state.get_next_network(Some(&id("unknown"))).unwrap().ssid.as_ref(),
        b"a"
    );
}

#[test]
fn requested_network_comes_first() {
    let mut state = context(&["a", "b", "c"]).state;
    state.connect_requested = Some(id("c"));
    assert_eq!(
        state.get_next_network(Some(&id("a"))).unwrap().ssid.as_ref(),
        b"c"
    );
    assert!(state.connect_requested.is_none());
    state.connect_requested = Some(id("gone"));
    assert_eq!(
        state.get_next_network(Some(&id("a"))).unwrap().ssid.as_ref(),
        b"b"
    );
    assert!(state.connect_requested.is_none());
    let mut empty = NetworkState::<3, WifiCredentials>::new();
    empty.connect_requested = Some(id("a"));
    assert!(empty.get_next_network(None).is_none());
}

#[test]
fn reset_forgets_everything() {
    let mut context = context(&["a", "b"]);
    context.state.changed = true;
    context.state.connected_once = true;
    context.state.connect_requested = Some(id("a"));
    context.reset();
    assert!(context.state.networks.is_empty());
    assert!(!context.changed());
    assert!(!context.state.connected_once);
    assert!(!context.is_network_activated());
}

#[test]
fn load_what_was_stored() {
    let mut stored = context(&["a", "b", "c"]);
    stored.state.changed = true;
    let items: Vec<_> = stored
        .state
        .to_store()
        .iter()
        .map(|n| StoredNetwork::Credentials(n.duplicate()))
        .collect();
    assert_eq!(stored.store(Err(ErrorCode::NoSpace)), Err(ErrorCode::NoSpace));
    assert!(stored.changed());
    assert_eq!(stored.store(Ok(17)), Ok(17));
    assert!(!stored.changed());

    let mut loaded = context(&["x"]);
    loaded.state.changed = true;
    assert_eq!(loaded.load(&Ok(items)), Ok(()));
    assert_eq!(ssids(&loaded), ["a", "b", "c"]);
    assert_eq!(loaded.state.networks[2].password.as_str(), "pw");
    assert!(!loaded.changed());
}

#[test]
fn load_failures() {
    let item = |name: &str| StoredNetwork::Credentials(creds(name, ""));

    let mut c = context(&["x"]);
    c.state.changed = true;
    assert_eq!(
        c.load(&Err(ErrorCode::TLVTypeMismatch)),
        Err(ErrorCode::TLVTypeMismatch)
    );
    assert_eq!(ssids(&c), ["x"]);
    assert!(c.changed());

    let items = vec![item("a"), item("b"), item("c"), item("d")];
    assert_eq!(c.load(&Ok(items)), Err(ErrorCode::NoSpace));
    assert_eq!(ssids(&c), ["a", "b", "c"]);
    assert!(c.changed());

    let items = vec![item("a"), StoredNetwork::Malformed(ErrorCode::TLVNotFound), item("b")];
    assert_eq!(c.load(&Ok(items)), Err(ErrorCode::TLVNotFound));
    assert_eq!(ssids(&c), ["a"]);

    let items = vec![
        item("a"),
        item("b"),
        StoredNetwork::Undecodable(ErrorCode::InvalidData),
    ];
    assert_eq!(c.load(&Ok(items)), Err(ErrorCode::InvalidData));
    assert_eq!(ssids(&c), ["a", "b"]);

    let items = vec![
        item("a"),
        item("b"),
        item("c"),
        StoredNetwork::Undecodable(ErrorCode::InvalidData),
    ];
    assert_eq!(c.load(&Ok(items)), Err(ErrorCode::NoSpace));

    let items = vec![
        item("a"),
        item("b"),
        item("c"),
        StoredNetwork::Malformed(ErrorCode::InvalidData),
    ];
    assert_eq!(c.load(&Ok(items)), Err(ErrorCode::InvalidData));

    assert_eq!(c.load(&Ok(vec![])), Ok(()));
    assert!(ssids(&c).is_empty());
    assert!(!c.changed());
}

#[test]
fn read_attributes() {
    let cluster = WirelessNwCommCluster::new(Dataver(7));
    let mut context = context(&["a", "b"]);
    let read = |context: &Context, attr: u32| cluster.read(context, false, false, attr);

    assert!(matches!(cluster.read(&context, true, true, 99), Ok(AttrReply::UpToDate)));
    assert!(matches!(
        cluster.read(&context, false, true, 99),
        Ok(AttrReply::System { wifi: true })
    ));
    assert!(matches!(
        cluster.read(&NetworkContext::<1, ThreadData>::new(), false, true, 99),
        Ok(AttrReply::System { wifi: false })
    ));
    assert!(matches!(read(&context, 0), Ok(AttrReply::Number(3))));
    assert!(matches!(read(&context, 2), Ok(AttrReply::Number(30))));
    assert!(matches!(read(&context, 3), Ok(AttrReply::Number(60))));
    assert!(matches!(read(&context, 4), Ok(AttrReply::Flag(true))));
    assert!(matches!(read(&context, 5), Ok(AttrReply::Status(None))));
    assert!(matches!(read(&context, 6), Ok(AttrReply::NetworkId(None))));
    assert!(matches!(read(&context, 7), Ok(AttrReply::ErrorValue(None))));
    assert!(matches!(read(&context, 8), Err(ErrorCode::AttributeNotFound)));

    context.state.status = Some(NetworkStatus {
        network_id: id("b"),
        status: NetworkCommissioningStatus::Success,
        value: -4,
    });
    match read(&context, 1) {
        Ok(AttrReply::Networks(infos)) => {
            assert_eq!(infos.len(), 2);
            assert_eq!(infos[0].network_id, b"a");
            assert!(!infos[0].connected);
            assert_eq!(infos[1].network_id, b"b");
            assert!(infos[1].connected);
        }
        other => panic!("unexpected {:?}", other),
    }
    assert!(matches!(read(&context, 5), Ok(AttrReply::Status(Some(0)))));
    assert!(matches!(read(&context, 7), Ok(AttrReply::ErrorValue(Some(-4)))));
    match read(&context, 6) {
        Ok(AttrReply::NetworkId(Some(network_id))) => assert_eq!(network_id, b"b"),
        other => panic!("unexpected {:?}", other),
    }

    context.state.status.as_mut().unwrap().status =
        NetworkCommissioningStatus::OtherConnectionFailure;
    assert!(matches!(read(&context, 5), Ok(AttrReply::Status(Some(9)))));
    match read(&context, 1) {
        Ok(AttrReply::Networks(infos)) => assert!(infos.iter().all(|info| !info.connected)),
        other => panic!("unexpected {:?}", other),
    }
}

#[test]
fn max_networks_has_eight_bits() {
    let cluster = WirelessNwCommCluster::new(Dataver(7));
    let context = NetworkContext::<300, WifiData>::new();
    assert!(matches!(
        cluster.read(&context, false, false, 0),
        Ok(AttrReply::Number(44))
    ));
}

#[test]
fn more_than_255_networks_cannot_be_reordered_by_the_low_byte() {
    let cluster = WirelessNwCommCluster::new(Dataver(7));
    let mut context = NetworkContext::<300, WifiData>::new();
    for i in 0..257u16 {
        let res = cluster
            .add_wifi_network(&mut context, &add(&format!("n{}", i), ""))
            .unwrap();
        assert_eq!(res.network_index, Some(i as u8));
    }
    let req = |index: u8| ReorderNetworkRequest {
        network_id: b"n256".to_vec(),
        index,
    };
    assert_eq!(
        cluster.reorder_network(&mut context, &req(1)).unwrap().status,
        NetworkCommissioningStatus::OutOfRange
    );
    assert_eq!(
        cluster.reorder_network(&mut context, &req(0)).unwrap().status,
        NetworkCommissioningStatus::Success
    );
    assert_eq!(context.state.networks[0].ssid.as_ref(), b"n256");
}

#[test]
fn ids_of_attributes_and_commands() {
    assert_eq!(Attributes::try_from(0), Ok(Attributes::MaxNetworks));
    assert_eq!(Attributes::try_from(6), Ok(Attributes::LastNetworkID));
    assert_eq!(Attributes::try_from(8), Err(ErrorCode::AttributeNotFound));
    assert_eq!(Commands::try_from(0), Ok(Commands::ScanNetworks));
    assert_eq!(Commands::try_from(2), Ok(Commands::AddOrUpdateWifiNetwork));
    assert_eq!(Commands::try_from(3), Ok(Commands::AddOrUpdateThreadNetwork));
    assert_eq!(Commands::try_from(4), Ok(Commands::RemoveNetwork));
    assert_eq!(Commands::try_from(6), Ok(Commands::ConnectNetwork));
    assert_eq!(Commands::try_from(8), Ok(Commands::ReorderNetwork));
    assert_eq!(Commands::try_from(1), Err(ErrorCode::CommandNotFound));
}

#[test]
fn status_codes() {
    assert_eq!(NetworkCommissioningStatus::Success.code(), 0);
    assert_eq!(NetworkCommissioningStatus::OutOfRange.code(), 1);
    assert_eq!(NetworkCommissioningStatus::BoundsExceeded.code(), 2);
    assert_eq!(NetworkCommissioningStatus::NetworkIdNotFound.code(), 3);
    assert_eq!(NetworkCommissioningStatus::OtherConnectionFailure.code(), 9);
    assert_eq!(NetworkCommissioningStatus::UnknownError.code(), 12);
}

#[test]
fn invoke_commands() {
    let cluster = WirelessNwCommCluster::new(Dataver(1));
    let mut context = context(&["a", "b"]);

    match cluster.invoke(&mut context, &Command::AddOrUpdateWifiNetwork(add("c", "pw"))) {
        Ok(InvokeStep::Reply(r)) => {
            assert_eq!(r, reply(NetworkCommissioningStatus::Success, Some(2)))
        }
        _ => panic!(),
    }
    let cmd = Command::AddOrUpdateThreadNetwork(AddThreadNetworkRequest { op_dataset: vec![] });
    assert!(matches!(
        cluster.invoke(&mut context, &cmd),
        Err(ErrorCode::InvalidCommand)
    ));
    let cmd = Command::RemoveNetwork(RemoveNetworkRequest {
        network_id: b"a".to_vec(),
    });
    match cluster.invoke(&mut context, &cmd) {
        Ok(InvokeStep::Reply(r)) => {
            assert_eq!(r, reply(NetworkCommissioningStatus::Success, Some(0)))
        }
        _ => panic!(),
    }
    let cmd = Command::ReorderNetwork(ReorderNetworkRequest {
        network_id: b"c".to_vec(),
        index: 0,
    });
    match cluster.invoke(&mut context, &cmd) {
        Ok(InvokeStep::Reply(r)) => {
            assert_eq!(r, reply(NetworkCommissioningStatus::Success, Some(0)))
        }
        _ => panic!(),
    }
    assert_eq!(ssids(&context), ["c", "b"]);
    let cmd = Command::ConnectNetwork(ConnectNetworkRequest {
        network_id: b"b".to_vec(),
    });
    match cluster.invoke(&mut context, &cmd) {
        Ok(InvokeStep::Connect(network_id, creds)) => {
            assert_eq!(network_id.as_ref(), b"b");
            assert_eq!(creds.password.as_str(), "pw");
        }
        _ => panic!(),
    }
    let cmd = Command::ScanNetworks(ScanNetworksRequest { ssid: None });
    assert!(matches!(
        cluster.invoke(&mut context, &cmd),
        Ok(InvokeStep::Scan(None))
    ));
    let cmd = Command::ScanNetworks(ScanNetworksRequest {
        ssid: Some(b"b".to_vec()),
    });
    match cluster.invoke(&mut context, &cmd) {
        Ok(InvokeStep::Scan(Some(wanted))) => assert_eq!(wanted.as_ref(), b"b"),
        _ => panic!(),
    }
    let cmd = Command::ScanNetworks(ScanNetworksRequest {
        ssid: Some(vec![0; 33]),
    });
    assert!(matches!(
        cluster.invoke(&mut context, &cmd),
        Err(ErrorCode::NoSpace)
    ));
}

#[test]
fn data_version_moves_on_with_success() {
    let mut ver = Dataver(u32::MAX);
    ver.changed();
    assert_eq!(ver, Dataver(0));
    ver.changed();
    assert_eq!(ver, Dataver(1));
    let mut cluster = WirelessNwCommCluster::new(Dataver(1));
    assert_eq!(cluster.invoked(Ok(())), Ok(()));
    assert_eq!(
        cluster.invoked(Err(ErrorCode::InvalidCommand)),
        Err(ErrorCode::InvalidCommand)
    );
}

#[test]
fn scan_response_is_started_once() {
    let mut response = ScanNetworksResponse::new();
    assert_eq!(response.finish(Ok(())), Ok(false));
    assert_eq!(response.on_report(false), ScanWrite::Nothing);
    assert_eq!(response.on_report(true), ScanWrite::StartAndResult);
    assert_eq!(response.on_report(true), ScanWrite::Result);
    assert_eq!(response.on_report(false), ScanWrite::Nothing);
    assert_eq!(response.finish(Ok(())), Ok(true));
    assert_eq!(
        response.finish(Err(ErrorCode::InvalidCommand)),
        Err(ErrorCode::InvalidCommand)
    );
}

#[test]
fn commands_are_checked_before_they_are_carried_out() {
    let long = vec![b'a'; 33];
    let scan = |ssid| Command::ScanNetworks(ScanNetworksRequest { ssid });
    assert_eq!(scan(None).check::<WifiCredentials>(), Ok(()));
    assert_eq!(
        scan(Some(b"a".to_vec())).check::<WifiCredentials>(),
        Ok(())
    );
    assert_eq!(
        scan(Some(long.clone())).check::<WifiCredentials>(),
        Err(ErrorCode::NoSpace)
    );
    let remove = Command::RemoveNetwork(RemoveNetworkRequest {
        network_id: long.clone(),
    });
    assert_eq!(
        remove.check::<WifiCredentials>(),
        Err(ErrorCode::NoSpace)
    );
    assert_eq!(
        remove.check::<ThreadCredentials>(),
        Err(ErrorCode::InvalidData)
    );
    let reorder = Command::ReorderNetwork(ReorderNetworkRequest {
        network_id: b"unknown".to_vec(),
        index: 200,
    });
    assert_eq!(reorder.check::<WifiCredentials>(), Ok(()));
    let connect = Command::ConnectNetwork(ConnectNetworkRequest { network_id: long });
    assert_eq!(
        connect.check::<WifiCredentials>(),
        Err(ErrorCode::NoSpace)
    );
    let wifi = Command::AddOrUpdateWifiNetwork(AddWifiNetworkRequest {
        ssid: b"a".to_vec(),
        credentials: vec![0xff],
    });
    assert_eq!(
        wifi.check::<WifiCredentials>(),
        Err(ErrorCode::InvalidData)
    );
    assert_eq!(
        wifi.check::<ThreadCredentials>(),
        Err(ErrorCode::InvalidCommand)
    );
    let thread = Command::AddOrUpdateThreadNetwork(AddThreadNetworkRequest { op_dataset: vec![] });
    assert_eq!(thread.check::<ThreadCredentials>(), Ok(()));
    assert_eq!(
        thread.check::<WifiCredentials>(),
        Err(ErrorCode::InvalidCommand)
    );
}
