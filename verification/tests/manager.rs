use rs_matter_stack::error::ErrorCode;
use rs_matter_stack::wifi::comm::{WifiNwCommCluster, WifiReply};
use rs_matter_stack::wifi::mgmt::{
    ConnectAction as WifiConnectAction, WifiConnect, WifiManager,
};
use rs_matter_stack::wifi::{WifiContext, WifiCredentials as TextCredentials, WifiName};
use rs_matter_stack::wireless::comm::{
    AttrReply, Command, ConnectNetworkRequest, ConnectNetworkResponse, Dataver,
    NetworkConfigResponse, RemoveNetworkRequest, ReorderNetworkRequest, ScanNetworksRequest,
};
use rs_matter_stack::wireless::mgmt::{
    ConnectionCheck, ManagerAction, ManagerEvent, ManagerRun, WirelessManager,
};
use rs_matter_stack::wireless::store::{
    NetworkCommissioningStatus, NetworkState, StoredNetwork,
};
use rs_matter_stack::wireless::svc::AuthMethod;
use rs_matter_stack::wireless::traits::{
    AddThreadNetworkRequest, AddWifiNetworkRequest, NetworkCredentials, NetworkId,
    WifiCredentials, WifiSsid,
};

fn add(ssid: &str, password: &str) -> AddWifiNetworkRequest {
    AddWifiNetworkRequest {
        ssid: ssid.as_bytes().to_vec(),
        credentials: password.as_bytes().to_vec(),
    }
}

fn state(names: &[&str]) -> NetworkState<3, WifiCredentials> {
    let mut state = NetworkState::new();
    for name in names {
        state
            .networks
            .push(WifiCredentials::try_from_wifi(&add(name, "pw")).unwrap());
    }
    state
}

fn connects_to(action: &ManagerAction<WifiCredentials>, name: &str) -> bool {
    match action {
        ManagerAction::Connect(creds) => creds.ssid.as_ref() == name.as_bytes(),
        _ => false,
    }
}

fn waits(action: &ManagerAction<WifiCredentials>) -> u64 {
    match action {
        ManagerAction::Wait { secs } => *secs,
        _ => 0,
    }
}

#[test]
fn failing_network_gives_way() {
    let mut state = state(&["a", "b"]);
    let (mut run, mut action) = ManagerRun::start(&mut state);
    for name in ["a", "b", "a"] {
        for delay in [2, 5, 10, 20, 30, 60] {
            assert!(connects_to(&action, name));
            action = run.next(&mut state, ManagerEvent::ConnectDone { connected: false });
            assert_eq!(waits(&action), delay);
            action = run.next(&mut state, ManagerEvent::Waited);
        }
        let status = state.status.as_ref().unwrap();
        assert_eq!(status.network_id.as_ref(), name.as_bytes());
        assert_eq!(
            status.status,
            NetworkCommissioningStatus::OtherConnectionFailure
        );
        assert_eq!(status.value, 0);
        assert!(!state.connected_once);
    }
    assert!(connects_to(&action, "b"));
}

#[test]
fn connection_is_made_again_when_lost() {
    let mut state = state(&["a", "b"]);
    let (mut run, action) = ManagerRun::start(&mut state);
    assert!(connects_to(&action, "a"));
    let action = run.next(&mut state, ManagerEvent::ConnectDone { connected: false });
    assert_eq!(waits(&action), 2);
    let action = run.next(&mut state, ManagerEvent::Waited);
    assert!(connects_to(&action, "a"));
    let action = run.next(&mut state, ManagerEvent::ConnectDone { connected: true });
    assert!(matches!(action, ManagerAction::Check));
    assert!(state.connected_once);
    assert_eq!(
        state.status.as_ref().unwrap().status,
        NetworkCommissioningStatus::Success
    );
    let action = run.next(
        &mut state,
        ManagerEvent::Checked(ConnectionCheck::Connected),
    );
    assert_eq!(waits(&action), 5);
    let action = run.next(&mut state, ManagerEvent::Waited);
    assert!(matches!(action, ManagerAction::Check));
    let action = run.next(
        &mut state,
        ManagerEvent::Checked(ConnectionCheck::Disconnected),
    );
    assert!(connects_to(&action, "a"));
    let action = run.next(&mut state, ManagerEvent::ConnectDone { connected: true });
    assert!(matches!(action, ManagerAction::Check));
    let action = run.next(&mut state, ManagerEvent::Checked(ConnectionCheck::Failed));
    assert!(connects_to(&action, "b"));
    assert!(state.connected_once);
}

#[test]
fn manager_waits_for_a_network() {
    let mut state = state(&[]);
    let (mut run, action) = ManagerRun::start(&mut state);
    assert!(matches!(action, ManagerAction::WaitActivated));
    let action = run.next(&mut state, ManagerEvent::Activated);
    assert!(matches!(action, ManagerAction::WaitActivated));
    state
        .networks
        .push(WifiCredentials::try_from_wifi(&add("a", "")).unwrap());
    state.connect_requested = Some(<WifiSsid as NetworkId>::try_from(b"a").unwrap());
    let action = run.next(&mut state, ManagerEvent::Activated);
    assert!(connects_to(&action, "a"));
    assert!(state.connect_requested.is_none());
}

#[test]
fn wireless_manager_holds_its_controller() {
    assert_eq!(WirelessManager::new(42u8).0, 42);
}

fn text(ssid: &str, password: &str) -> TextCredentials {
    TextCredentials::try_from_wifi(&add(ssid, password)).unwrap()
}

fn wifi_context(names: &[&str]) -> WifiContext<2> {
    let cluster = WifiNwCommCluster::new(Dataver(0));
    let mut context = WifiContext::new();
    for name in names {
        cluster.add_network(&mut context, &add(name, "pw"));
    }
    context.context.state.changed = false;
    context
}

#[test]
fn wifi_manager_needs_a_network() {
    let mut manager = WifiManager::new("driver");
    let mut context = wifi_context(&[]);
    assert!(matches!(
        manager.run(&mut context, None),
        Err(ErrorCode::Invalid)
    ));
    assert_eq!(*manager.wifi(), "driver");
}

#[test]
fn wifi_manager_tries_the_networks() {
    let mut manager = WifiManager::new(());
    let mut context = wifi_context(&["a", "b"]);
    let mut action = manager.run(&mut context, None).unwrap();
    for delay in [2, 5, 10, 20, 30, 60] {
        match &action {
            ManagerAction::Connect(creds) => assert_eq!(creds.ssid.as_str(), "a"),
            _ => panic!(),
        }
        action = manager
            .run(
                &mut context,
                Some(ManagerEvent::ConnectDone { connected: false }),
            )
            .unwrap();
        match &action {
            ManagerAction::Wait { secs } => assert_eq!(*secs, delay),
            _ => panic!(),
        }
        action = manager
            .run(&mut context, Some(ManagerEvent::Waited))
            .unwrap();
    }
    match &action {
        ManagerAction::Connect(creds) => assert_eq!(creds.ssid.as_str(), "b"),
        _ => panic!(),
    }
}

#[test]
fn wifi_connect_with_password() {
    let mut run = WifiConnect::new(&text("home", "secret"));
    for (method, last) in [
        (AuthMethod::WPAWPA2Personal, false),
        (AuthMethod::WPA2WPA3Personal, false),
        (AuthMethod::WEP, true),
    ] {
        match run.next(false) {
            WifiConnectAction::SetConfiguration {
                ssid,
                auth_method,
                password,
            } => {
                assert_eq!(ssid.as_str(), "home");
                assert_eq!(auth_method, method);
                assert_eq!(password.as_str(), "secret");
            }
            other => panic!("unexpected {:?}", other),
        }
        assert!(matches!(run.next(true), WifiConnectAction::Start));
        assert!(matches!(run.next(true), WifiConnectAction::Connect));
        match run.next(false) {
            WifiConnectAction::Stop => assert!(!last),
            WifiConnectAction::Finish { connected } => assert!(last && !connected),
            other => panic!("unexpected {:?}", other),
        }
    }
}

#[test]
fn wifi_connect_to_open_network() {
    let mut run = WifiConnect::new(&text("cafe", ""));
    match run.next(true) {
        WifiConnectAction::SetConfiguration { auth_method, .. } => {
            assert_eq!(auth_method, AuthMethod::Open)
        }
        other => panic!("unexpected {:?}", other),
    }
    assert!(matches!(run.next(true), WifiConnectAction::Start));
    assert!(matches!(
        run.next(true),
        WifiConnectAction::Finish { connected: true }
    ));
}

#[test]
fn wifi_connect_goes_on_after_any_failure() {
    let mut run = WifiConnect::new(&text("home", "secret"));
    run.next(true);
    assert!(matches!(run.next(false), WifiConnectAction::Stop));
    run.next(true);
    run.next(true);
    assert!(matches!(run.next(false), WifiConnectAction::Stop));
    run.next(true);
    run.next(true);
    run.next(true);
    assert!(matches!(
        run.next(true),
        WifiConnectAction::Finish { connected: true }
    ));
}

#[test]
fn wifi_cluster_commands() {
    let cluster = WifiNwCommCluster::new(Dataver(0));
    let mut context = wifi_context(&[]);
    let success = |index| NetworkConfigResponse {
        status: NetworkCommissioningStatus::Success,
        network_index: Some(index),
    };
    for (i, name) in ["a", "b"].iter().enumerate() {
        let cmd = Command::AddOrUpdateWifiNetwork(add(name, "pw"));
        match cluster.invoke(&mut context, &cmd) {
            Ok(WifiReply::Config(r)) => assert_eq!(r, success(i as u8)),
            other => panic!("unexpected {:?}", other),
        }
    }
    let cmd = Command::AddOrUpdateWifiNetwork(add("c", "pw"));
    match cluster.invoke(&mut context, &cmd) {
        Ok(WifiReply::Config(r)) => {
            assert_eq!(r.status, NetworkCommissioningStatus::BoundsExceeded)
        }
        other => panic!("unexpected {:?}", other),
    }
    let cmd = Command::ReorderNetwork(ReorderNetworkRequest {
        network_id: b"b".to_vec(),
        index: 0,
    });
    match cluster.invoke(&mut context, &cmd) {
        Ok(WifiReply::Config(r)) => assert_eq!(r, success(0)),
        other => panic!("unexpected {:?}", other),
    }
    assert_eq!(context.context.state.networks[0].ssid.as_str(), "b");
    let cmd = Command::RemoveNetwork(RemoveNetworkRequest {
        network_id: vec![0xff; 40],
    });
    match cluster.invoke(&mut context, &cmd) {
        Ok(WifiReply::Config(r)) => {
            assert_eq!(r.status, NetworkCommissioningStatus::NetworkIdNotFound)
        }
        other => panic!("unexpected {:?}", other),
    }
    let cmd = Command::RemoveNetwork(RemoveNetworkRequest {
        network_id: b"b".to_vec(),
    });
    match cluster.invoke(&mut context, &cmd) {
        Ok(WifiReply::Config(r)) => assert_eq!(r, success(0)),
        other => panic!("unexpected {:?}", other),
    }
    let cmd = Command::ScanNetworks(ScanNetworksRequest { ssid: None });
    assert!(matches!(
        cluster.invoke(&mut context, &cmd),
        Err(ErrorCode::Busy)
    ));
    let cmd = Command::AddOrUpdateThreadNetwork(AddThreadNetworkRequest { op_dataset: vec![] });
    assert!(matches!(
        cluster.invoke(&mut context, &cmd),
        Err(ErrorCode::CommandNotFound)
    ));
    assert!(!context.is_network_connect_requested());
    assert_eq!(context.wait_network_connect(), None);
    let cmd = Command::ConnectNetwork(ConnectNetworkRequest {
        network_id: b"nowhere".to_vec(),
    });
    match cluster.invoke(&mut context, &cmd) {
        Ok(WifiReply::Connect(r)) => assert_eq!(
            r,
            ConnectNetworkResponse {
                status: NetworkCommissioningStatus::Success,
                error_value: 0
            }
        ),
        other => panic!("unexpected {:?}", other),
    }
    assert!(context.is_network_connect_requested());
    assert_eq!(context.wait_network_connect(), Some(4));
    assert_eq!(cluster.connect_network_replied(&mut context, Ok(())), Ok(()));
    assert!(context.context.network_connect_requested);
}

#[test]
fn wifi_cluster_attributes() {
    let mut cluster = WifiNwCommCluster::new(Dataver(0));
    let mut context = wifi_context(&["a", "b"]);
    assert!(matches!(
        cluster.read(&context, false, true, 0),
        Ok(AttrReply::System { wifi: true })
    ));
    assert!(matches!(
        cluster.read(&context, false, false, 0),
        Ok(AttrReply::Number(2))
    ));
    assert!(matches!(
        cluster.read(&context, false, false, 9),
        Err(ErrorCode::AttributeNotFound)
    ));
    let mut manager = WifiManager::new(());
    manager.run(&mut context, None).unwrap();
    manager
        .run(
            &mut context,
            Some(ManagerEvent::ConnectDone { connected: true }),
        )
        .unwrap();
    match cluster.read(&context, false, false, 1) {
        Ok(AttrReply::Networks(infos)) => {
            assert!(infos[0].connected);
            assert!(!infos[1].connected);
            assert_eq!(infos[0].network_id, b"a");
        }
        other => panic!("unexpected {:?}", other),
    }
    assert_eq!(cluster.invoked(Ok(())), Ok(()));
}

#[test]
fn wifi_context_persistence() {
    let mut context = wifi_context(&["a"]);
    assert!(context.to_store().is_none());
    assert_eq!(context.store(Ok(5)), Ok(None));
    context.context.state.changed = true;
    assert!(context.is_changed());
    assert!(context.wait_state_changed());
    assert_eq!(context.to_store().unwrap().len(), 1);
    assert_eq!(
        context.store(Err(ErrorCode::NoSpace)),
        Err(ErrorCode::NoSpace)
    );
    assert!(context.is_changed());
    assert_eq!(context.store(Ok(5)), Ok(Some(5)));
    assert!(!context.is_changed());

    let items = vec![
        StoredNetwork::Credentials(text("x", "1")),
        StoredNetwork::Credentials(text("y", "2")),
    ];
    assert_eq!(context.load(&Ok(items)), Ok(()));
    assert_eq!(context.context.state.networks[1].ssid.as_str(), "y");
    assert_eq!(context.context.state.networks[1].password.as_str(), "2");
    context.reset();
    assert!(context.context.state.networks.is_empty());
    assert!(WifiContext::<1>::default().to_store().is_none());
}

#[test]
fn wifi_names_are_text() {
    assert_eq!(
        <WifiName as NetworkId>::try_from(&[0xff]).err(),
        Some(ErrorCode::InvalidData)
    );
    assert_eq!(
        <WifiName as NetworkId>::try_from(&[b'a'; 33]).err(),
        Some(ErrorCode::InvalidData)
    );
    let name = <WifiName as NetworkId>::try_from("Küche".as_bytes()).unwrap();
    assert_eq!(name.as_ref(), "Küche".as_bytes());
    assert_eq!(name.duplicate().0.as_str(), "Küche");
    assert_eq!(text("Küche", "x").network_id().as_ref(), "Küche".as_bytes());
}
