use std::collections::HashMap;

use rs_matter_stack::error::{Error, ErrorCode, TryLockError};
use rs_matter_stack::eth::{Eth, PreexistingEthernet};
use rs_matter_stack::flow::{Discovery, FlowStep};
use rs_matter_stack::netif::NetifConf;
use rs_matter_stack::persist::{
    BlobLoad, DirKvBlobStore, DummyKvBlobStore, MatterPersist, MatterStackKey, NetworkPersist,
    PersistAction, SavePhase, StoreStep, KV_BLOB_BUF_SIZE, VENDOR_KEYS_START,
};
use rs_matter_stack::stack::{MdnsType, NetifAction, NetifRun, NetifSignal};
use rs_matter_stack::udp::{Address, Udp};
use rs_matter_stack::wireless::store::{NetworkContext, StoredNetwork};
use rs_matter_stack::wireless::traits::{
    AddWifiNetworkRequest, NetworkCredentials, NetworkId, WifiCredentials, WifiData,
};

#[test]
fn error_texts() {
    assert_eq!(Error::InvalidState.text(), "Invalid state");
    assert_eq!(
        Error::from(ErrorCode::NoNetworkInterface).text(),
        "Matter error: NoNetworkInterface"
    );
    assert_eq!(Error::from(TryLockError), Error::InvalidState);
    assert_eq!(ErrorCode::TLVTypeMismatch.name(), "TLVTypeMismatch");
}

#[test]
fn stack_keys() {
    for key in [MatterStackKey::Fabrics, MatterStackKey::Networks] {
        assert_eq!(MatterStackKey::try_from(key.id()), Ok(key));
        assert!(key.id() < VENDOR_KEYS_START);
    }
    assert_eq!(MatterStackKey::Fabrics.id(), 0);
    assert_eq!(MatterStackKey::Networks.id(), 1);
    assert_eq!(MatterStackKey::try_from(2), Err(()));
    assert_eq!(MatterStackKey::try_from(VENDOR_KEYS_START), Err(()));
    assert_eq!(MatterStackKey::Fabrics.name(), "fabrics");
    assert_eq!(MatterStackKey::Networks.name(), "networks");
    assert_eq!(KV_BLOB_BUF_SIZE, 4096);
    let _ = DummyKvBlobStore;
}

#[test]
fn key_paths() {
    let store = DirKvBlobStore::new(String::from("/var/matter"));
    assert_eq!(store.path(), "/var/matter");
    assert_eq!(store.key_path(0), "/var/matter/k_0000");
    assert_eq!(store.key_path(0x1a2b), "/var/matter/k_1a2b");
    assert_eq!(store.key_path(0xffff), "/var/matter/k_ffff");
    assert!(store.key_path(0x10) != store.key_path(0x100));
    let store = DirKvBlobStore::new(String::from("/var/"));
    assert_eq!(store.key_path(1), "/var/k_0001");
    assert_eq!(DirKvBlobStore::new(String::new()).key_path(1), "k_0001");
    assert_eq!(DirKvBlobStore::new_default("/tmp").path(), "/tmp/rs-matter");
    assert_eq!(
        DirKvBlobStore::new_default("/tmp/ü").key_path(2),
        "/tmp/ü/rs-matter/k_0002"
    );
}

fn load(mut reads: Vec<usize>, room: usize) -> Result<usize, ErrorCode> {
    let mut blob = DirKvBlobStore::load(true, room).unwrap();
    loop {
        blob.begin_read()?;
        if blob.end_read(Some(reads.remove(0)))? {
            return Ok(blob.offset);
        }
    }
}

#[test]
fn blobs_are_loaded_as_a_whole() {
    assert!(DirKvBlobStore::load(false, 10).is_none());
    assert_eq!(load(vec![0], 10), Ok(0));
    assert_eq!(load(vec![4, 5, 0], 10), Ok(9));
    assert_eq!(load(vec![4, 6, 0], 10), Err(ErrorCode::NoSpace));
    assert_eq!(load(vec![10, 0], 10), Err(ErrorCode::NoSpace));
    assert_eq!(load(vec![0], 0), Err(ErrorCode::NoSpace));
    let mut blob = BlobLoad {
        offset: 3,
        room: 10,
    };
    assert_eq!(blob.end_read(None), Err(ErrorCode::StdIoError));
    assert_eq!(blob.offset, 3);
}

type Files = HashMap<String, Vec<u8>>;

fn store_blob(store: &DirKvBlobStore, files: &mut Files, key: u16, data: &[u8]) {
    let path = store.key_path(key);
    let mut step = DirKvBlobStore::store();
    loop {
        match step {
            StoreStep::CreateDir => (),
            StoreStep::CreateFile => {
                files.insert(path.clone(), vec![]);
            }
            StoreStep::Write => files.get_mut(&path).unwrap().extend(data),
        }
        match step.next(true).unwrap() {
            Some(next) => step = next,
            _ => return,
        }
    }
}

fn load_blob(
    store: &DirKvBlobStore,
    files: &Files,
    key: u16,
    buf: &mut [u8],
) -> Result<Option<Vec<u8>>, ErrorCode> {
    let file = files.get(&store.key_path(key));
    let Some(mut load) = DirKvBlobStore::load(file.is_some(), buf.len()) else {
        return Ok(None);
    };
    loop {
        let offset = load.begin_read()?;
        let rest = &file.unwrap()[offset..];
        let len = rest.len().min(buf.len() - offset).min(2);
        buf[offset..offset + len].copy_from_slice(&rest[..len]);
        if load.end_read(Some(len))? {
            return Ok(Some(buf[..load.offset].to_vec()));
        }
    }
}

#[test]
fn what_is_loaded_is_what_was_last_stored() {
    let store = DirKvBlobStore::new(String::from("/var/matter"));
    let mut files = Files::new();
    let mut buf = [7; 6];
    assert_eq!(load_blob(&store, &files, 1, &mut buf), Ok(None));
    assert_eq!(buf, [7; 6]);
    store_blob(&store, &mut files, 1, &[1, 2, 3, 4, 5]);
    store_blob(&store, &mut files, 0x10, &[9]);
    assert_eq!(
        load_blob(&store, &files, 1, &mut buf),
        Ok(Some(vec![1, 2, 3, 4, 5]))
    );
    store_blob(&store, &mut files, 1, &[6]);
    assert_eq!(load_blob(&store, &files, 1, &mut buf), Ok(Some(vec![6])));
    store_blob(&store, &mut files, 1, &[]);
    assert_eq!(load_blob(&store, &files, 1, &mut buf), Ok(Some(vec![])));
    assert_eq!(load_blob(&store, &files, 0x10, &mut buf), Ok(Some(vec![9])));
    store_blob(&store, &mut files, 1, &[1; 6]);
    assert_eq!(
        load_blob(&store, &files, 1, &mut buf),
        Err(ErrorCode::NoSpace)
    );
    let removed = files.remove(&store.key_path(1)).is_some();
    assert_eq!(DirKvBlobStore::remove(removed), Ok(()));
    assert_eq!(load_blob(&store, &files, 1, &mut buf), Ok(None));
    assert_eq!(DirKvBlobStore::remove(false), Ok(()));
}

#[test]
fn a_failed_step_ends_the_storing() {
    for step in [
        StoreStep::CreateDir,
        StoreStep::CreateFile,
        StoreStep::Write,
    ] {
        assert_eq!(step.next(false), Err(ErrorCode::StdIoError));
    }
    assert_eq!(StoreStep::Write.next(true), Ok(None));
}

fn save(fabrics: bool, networks: bool) -> (Vec<PersistAction>, bool) {
    let mut actions = vec![];
    let mut phase = SavePhase::Start;
    loop {
        if let Some(action) = phase.action() {
            actions.push(action);
        }
        phase = phase.next(fabrics, networks, Ok(())).unwrap();
        if let SavePhase::Done { saved } = phase {
            return (actions, saved);
        }
    }
}

#[test]
fn what_has_changed_is_saved() {
    let fabrics = PersistAction::Store(MatterStackKey::Fabrics);
    let networks = PersistAction::Store(MatterStackKey::Networks);
    assert_eq!(save(false, false), (vec![], false));
    assert_eq!(save(true, false), (vec![fabrics], true));
    assert_eq!(save(false, true), (vec![networks], true));
    assert_eq!(save(true, true), (vec![fabrics, networks], true));
    let failure = Err(ErrorCode::StdIoError);
    assert_eq!(
        SavePhase::StoreFabrics.next(true, true, failure),
        Err(ErrorCode::StdIoError)
    );
    assert_eq!(
        SavePhase::StoreNetworks.next(true, true, failure),
        Err(ErrorCode::StdIoError)
    );
    assert_eq!(
        SavePhase::Networks.next(false, false, failure),
        Ok(SavePhase::Done { saved: true })
    );
    assert!(MatterPersist::changed(true, false));
    assert!(MatterPersist::changed(false, true));
    assert!(!MatterPersist::changed(false, false));
}

#[test]
fn persist_actions() {
    assert_eq!(
        MatterPersist::reset(),
        [
            PersistAction::Remove(MatterStackKey::Fabrics),
            PersistAction::Remove(MatterStackKey::Networks),
            PersistAction::ResetFabrics,
            PersistAction::ResetNetworks,
        ]
    );
    assert_eq!(
        MatterPersist::factory_reset(),
        [PersistAction::ResetFabrics, PersistAction::ResetNetworks]
    );
    assert_eq!(
        MatterPersist::load(),
        [
            PersistAction::Load(MatterStackKey::Fabrics),
            PersistAction::Load(MatterStackKey::Networks),
        ]
    );
}

#[test]
fn network_persistence() {
    assert!(!NetworkPersist::changed(&()));
    assert_eq!(NetworkPersist::reset(&mut ()), Ok(()));
    let mut context = NetworkContext::<2, WifiData>::new();
    context.state.changed = true;
    assert!(NetworkPersist::changed(&context));
    assert!(NetworkPersist::wait_state_changed(&mut context));
    assert_eq!(NetworkPersist::reset(&mut context), Ok(()));
    assert!(!NetworkPersist::changed(&context));
    assert!(!NetworkPersist::wait_state_changed(&mut context));
}

#[test]
fn stored_networks_come_back() {
    let creds = |ssid: &[u8]| {
        WifiCredentials::try_from_wifi(&AddWifiNetworkRequest {
            ssid: ssid.to_vec(),
            credentials: b"pw".to_vec(),
        })
        .unwrap()
    };
    let mut context = NetworkContext::<2, WifiData>::new();
    context.state.networks.push(creds(b"a"));
    context.state.networks.push(creds(b"b"));
    context.state.changed = true;
    let stored: Vec<_> = context
        .state
        .to_store()
        .iter()
        .map(|creds| StoredNetwork::Credentials(creds.duplicate()))
        .collect();
    let failure = Err(ErrorCode::NoSpace);
    assert_eq!(NetworkPersist::store(&mut context, failure), failure);
    assert!(NetworkPersist::changed(&context));
    assert_eq!(NetworkPersist::store(&mut context, Ok(9)), Ok(9));
    assert!(!NetworkPersist::changed(&context));
    let mut other = NetworkContext::<2, WifiData>::new();
    assert_eq!(NetworkPersist::load(&mut other, &Ok(stored)), Ok(()));
    assert_eq!(other.state.networks[0].ssid.as_ref(), b"a");
    assert_eq!(other.state.networks[1].ssid.as_ref(), b"b");
    assert_eq!(NetworkPersist::store(&mut (), failure), Ok(0));
    assert_eq!(NetworkPersist::load(&mut (), &()), Ok(()));
    assert!(NetworkPersist::wait_state_changed(&mut ()));
}

fn conf(interface: u32) -> NetifConf {
    NetifConf {
        interface,
        ..NetifConf::new()
    }
}

#[test]
fn netif_signal() {
    let mut signal = NetifSignal::new();
    assert!(signal.get_netif_info().is_none());
    assert!(signal.wait_netif_changed(&None).is_none());
    assert!(!signal.reset());
    signal.publish(conf(3));
    assert_eq!(signal.get_netif_info().unwrap().interface, 3);
    assert!(signal.wait_netif_changed(&Some(conf(3))).is_none());
    assert!(matches!(signal.wait_netif_changed(&None), Some(Some(_))));
    assert!(matches!(
        signal.wait_netif_changed(&Some(conf(4))),
        Some(Some(_))
    ));
    assert!(signal.reset());
    assert!(matches!(
        signal.wait_netif_changed(&Some(conf(3))),
        Some(None)
    ));
}

#[test]
fn stack_follows_the_interface() {
    let mut run = NetifRun::new();
    assert!(!run.restart());
    assert!(matches!(run.on_conf(None), NetifAction::WaitConfChange));
    assert!(!NetifAction::WaitConfChange.runs_user_task());
    assert!(matches!(
        run.on_conf(Some(conf(3))),
        NetifAction::Bind {
            port: 5540,
            interface: 3
        }
    ));
    assert_eq!(run.signal().get_netif_info().unwrap().interface, 3);
    match run.on_bound(true) {
        Ok(action) => {
            assert!(matches!(action, NetifAction::Run(c) if c.interface == 3));
            assert!(action.runs_user_task());
        }
        other => panic!("unexpected {:?}", other),
    }
    assert!(!run.is_down(&Some(conf(3))));
    assert!(run.is_down(&Some(conf(4))));
    assert!(run.is_down(&None));
    assert_eq!(run.on_ended(Ok(())), Ok(()));
    assert!(run.signal().get_netif_info().is_none());
    run.on_conf(Some(conf(4)));
    assert!(matches!(run.on_bound(false), Err(ErrorCode::StdIoError)));
    assert!(run.signal().get_netif_info().is_none());
    run.on_conf(Some(conf(4)));
    assert!(run.restart());
    assert_eq!(
        run.on_ended(Err(ErrorCode::MdnsError)),
        Err(ErrorCode::MdnsError)
    );
    assert_eq!(MdnsType::default(), MdnsType::Builtin);
    assert_eq!(<MdnsType as Default>::default(), MdnsType::Builtin);
}

#[test]
fn a_withdrawn_configuration_is_notified_of_once() {
    let mut run = NetifRun::new();
    assert!(!run.take_withdrawn());
    run.on_conf(Some(conf(3)));
    assert!(!run.take_withdrawn());
    assert!(run.on_bound(true).is_ok());
    assert!(!run.take_withdrawn());
    assert_eq!(
        run.on_ended(Err(ErrorCode::MdnsError)),
        Err(ErrorCode::MdnsError)
    );
    assert!(run.take_withdrawn());
    assert!(!run.take_withdrawn());
    assert_eq!(run.on_ended(Ok(())), Ok(()));
    assert!(!run.take_withdrawn());
    run.on_conf(Some(conf(4)));
    assert!(run.on_bound(false).is_err());
    assert!(!run.restart());
    assert!(run.take_withdrawn());
    run.on_conf(Some(conf(4)));
    assert!(run.restart());
    run.on_conf(Some(conf(5)));
    assert!(run.take_withdrawn());
}

#[test]
fn wireless_flow() {
    let ble = FlowStep::EnableCommissioning(Discovery::Ble);
    let next = |step: FlowStep, yes: bool| step.next_wireless(Ok(yes)).unwrap();
    assert_eq!(next(FlowStep::CheckCommissioned, false), ble);
    assert_eq!(next(ble, true), FlowStep::RunBle);
    assert_eq!(next(FlowStep::RunBle, true), FlowStep::RunWireless);
    assert_eq!(
        next(FlowStep::CheckCommissioned, true),
        FlowStep::DisableCommissioning
    );
    assert_eq!(
        next(FlowStep::DisableCommissioning, true),
        FlowStep::RunWireless
    );
    assert_eq!(
        next(FlowStep::RunWireless, true),
        FlowStep::CheckCommissioned
    );
    assert_eq!(
        FlowStep::RunBle.next_wireless(Err(ErrorCode::BtpError)),
        Err(ErrorCode::BtpError)
    );
}

#[test]
fn coexistence_flow() {
    let ble = FlowStep::EnableCommissioning(Discovery::Ble);
    let next = |step: FlowStep, yes: bool| step.next_coex(Ok(yes)).unwrap();
    assert_eq!(next(FlowStep::CheckCommissioned, false), ble);
    assert_eq!(next(ble, true), FlowStep::RunBleAndWireless);
    assert_eq!(
        next(FlowStep::RunBleAndWireless, true),
        FlowStep::CheckCommissioned
    );
    assert_eq!(
        next(FlowStep::CheckCommissioned, true),
        FlowStep::DisableCommissioning
    );
    assert_eq!(
        next(FlowStep::DisableCommissioning, true),
        FlowStep::RunWireless
    );
    assert_eq!(
        FlowStep::RunWireless.next_coex(Err(ErrorCode::BtpError)),
        Err(ErrorCode::BtpError)
    );
}

#[test]
fn ethernet_flow() {
    let ip = FlowStep::EnableCommissioning(Discovery::Ip);
    let next = |step: FlowStep, yes: bool| step.next_ethernet(Ok(yes)).unwrap();
    assert_eq!(
        next(FlowStep::ResetTransport, true),
        Some(FlowStep::CheckCommissioned)
    );
    assert_eq!(next(FlowStep::CheckCommissioned, false), Some(ip));
    assert_eq!(next(ip, true), Some(FlowStep::RunEthernet));
    assert_eq!(
        next(FlowStep::CheckCommissioned, true),
        Some(FlowStep::RunEthernet)
    );
    assert_eq!(next(FlowStep::RunEthernet, true), None);
    assert_eq!(
        FlowStep::RunEthernet.next_ethernet(Err(ErrorCode::StdIoError)),
        Err(ErrorCode::StdIoError)
    );
    assert_eq!(
        FlowStep::LoadPersisted.next_startup(Ok(true)),
        Ok(Some(FlowStep::ResetTransport))
    );
    assert_eq!(FlowStep::ResetTransport.next_startup(Ok(true)), Ok(None));
    assert_eq!(
        FlowStep::LoadPersisted.next_startup(Err(ErrorCode::NoSpace)),
        Err(ErrorCode::NoSpace)
    );
}

#[test]
fn wifi_ble_flow() {
    let walk = |rearm: bool, commissioned: bool| {
        let mut steps = vec![FlowStep::CheckCommissioned];
        loop {
            let last = *steps.last().unwrap();
            let next = last.next_wifi_ble(rearm, Ok(commissioned)).unwrap();
            if next == FlowStep::CheckCommissioned {
                return steps;
            }
            steps.push(next);
        }
    };
    assert_eq!(
        walk(true, false),
        [
            FlowStep::CheckCommissioned,
            FlowStep::FactoryReset,
            FlowStep::RunBle,
            FlowStep::ExpectRearm,
            FlowStep::RunWireless,
        ]
    );
    assert_eq!(
        walk(false, false),
        [
            FlowStep::CheckCommissioned,
            FlowStep::FactoryReset,
            FlowStep::RunBle,
            FlowStep::RunWireless,
        ]
    );
    assert_eq!(
        walk(true, true),
        [
            FlowStep::CheckCommissioned,
            FlowStep::ExpectRearm,
            FlowStep::RunWireless,
        ]
    );
    assert_eq!(
        FlowStep::FactoryReset.next_wifi_ble(true, Err(ErrorCode::Failure)),
        Err(ErrorCode::Failure)
    );
}

#[test]
fn udp_addresses() {
    type U = Udp<()>;
    assert_eq!(U::send_to(Address::Udp(7)), Ok(7));
    assert_eq!(
        U::send_to(Address::Tcp(7)),
        Err(ErrorCode::NoNetworkInterface)
    );
    assert_eq!(
        U::send_to(Address::<u8>::Btp([0; 6])),
        Err(ErrorCode::NoNetworkInterface)
    );
    assert_eq!(U::recv_from(Some((3, 'x'))), Ok((3, Address::Udp('x'))));
    assert_eq!(U::recv_from::<u8>(None), Err(ErrorCode::StdIoError));
    assert_eq!(U::outcome(true), Ok(()));
    assert_eq!(U::outcome(false), Err(ErrorCode::StdIoError));
    assert!(Address::Udp(1).is_udp());
    assert!(!Address::Tcp(1).is_udp());
}

#[test]
fn ethernet_parts() {
    let eth = Eth::new("user");
    assert_eq!(*eth.embedding(), "user");
    assert_eq!(eth.persist_context(), ());
    let preex = PreexistingEthernet::new(1, 'u');
    assert_eq!(preex.netif, 1);
    assert_eq!(preex.udp, 'u');
}
