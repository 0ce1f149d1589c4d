use rs_matter_stack::error::ErrorCode;
use rs_matter_stack::wireless::comm::Dataver;
use rs_matter_stack::wireless::diag::thread::ThreadNwDiagCluster;
use rs_matter_stack::wireless::diag::wifi::{DiagRead, WifiDiagValue, WifiNwDiagCluster};
use rs_matter_stack::wireless::proxy::{
    ControllerExchange, ControllerProxy, ScanCollector, ScanResult,
};
use rs_matter_stack::wireless::svc::{
    report_results, to_sec, AccessPointInfo, AuthMethod, ConnectAction, ScanAction, SvcConnect,
    SvcWifiController, WifiConfiguration,
};
use rs_matter_stack::wireless::traits::{
    AddWifiNetworkRequest, NetworkCredentials, NetworkId, ThreadScanResult, WiFiSecurity,
    WifiBand, WifiCredentials, WifiData, WifiNwDiagData, WifiSsid,
};

fn ssid(name: &str) -> WifiSsid {
    <WifiSsid as NetworkId>::try_from(name.as_bytes()).unwrap()
}

fn security(bits: [bool; 5]) -> WiFiSecurity {
    WiFiSecurity {
        unencrypted: bits[0],
        wep: bits[1],
        wpa_personal: bits[2],
        wpa2_personal: bits[3],
        wpa3_personal: bits[4],
    }
}

#[test]
fn security_of_access_points() {
    let wpa2 = security([false, false, false, true, false]);
    assert_eq!(to_sec(None), wpa2);
    assert_eq!(
        to_sec(Some(AuthMethod::Open)),
        security([true, false, false, false, false])
    );
    assert_eq!(
        to_sec(Some(AuthMethod::WEP)),
        security([false, true, false, false, false])
    );
    assert_eq!(
        to_sec(Some(AuthMethod::WPA)),
        security([false, false, true, false, false])
    );
    assert_eq!(to_sec(Some(AuthMethod::WPA2Personal)), wpa2);
    assert_eq!(
        to_sec(Some(AuthMethod::WPAWPA2Personal)),
        security([false, false, true, true, false])
    );
    assert_eq!(
        to_sec(Some(AuthMethod::WPA2WPA3Personal)),
        security([false, false, false, true, true])
    );
    assert_eq!(to_sec(Some(AuthMethod::WPA2Enterprise)), wpa2);
    assert_eq!(to_sec(Some(AuthMethod::WPA3Personal)), wpa2);
    assert_eq!(to_sec(Some(AuthMethod::WAPIPersonal)), wpa2);
}

fn access_points() -> Vec<AccessPointInfo> {
    ["home", "cafe", "home"]
        .iter()
        .enumerate()
        .map(|(i, name)| AccessPointInfo {
            ssid: ssid(name),
            bssid: [i as u8; 6],
            channel: 11,
            signal_strength: -60,
            auth_method: Some(AuthMethod::WPA2Personal),
        })
        .collect()
}

#[test]
fn scan_results_of_all_networks() {
    let reports = report_results(None, &access_points());
    assert_eq!(reports.len(), 4);
    let result = reports[1].as_ref().unwrap();
    assert_eq!(result.ssid.as_ref(), b"cafe");
    assert_eq!(result.bssid, [1; 6]);
    assert_eq!(result.channel, 11);
    assert_eq!(result.band, Some(WifiBand::B2G4));
    assert_eq!(result.rssi, Some(-60));
    assert!(result.security.wpa2_personal);
    assert!(reports[0].is_some());
    assert!(reports[2].is_some());
    assert!(reports[3].is_none());
}

#[test]
fn scan_results_of_one_network() {
    let reports = report_results(Some(&ssid("home")), &access_points());
    assert_eq!(reports.len(), 3);
    assert_eq!(reports[0].as_ref().unwrap().bssid, [0; 6]);
    assert_eq!(reports[1].as_ref().unwrap().bssid, [2; 6]);
    assert!(reports[2].is_none());
}

#[test]
fn the_end_of_a_scan_is_reported_even_without_results() {
    let reports = report_results(Some(&ssid("other")), &access_points());
    assert_eq!(reports.len(), 1);
    assert!(reports[0].is_none());
    let reports = report_results(None, &vec![]);
    assert_eq!(reports.len(), 1);
    assert!(reports[0].is_none());
}

#[test]
fn scan_of_a_running_client() {
    let step = ScanAction::first();
    assert_eq!(step, ScanAction::GetConfiguration);
    let step = step.next(Some(true)).unwrap().unwrap();
    assert_eq!(step, ScanAction::IsStarted);
    let step = step.next(Some(true)).unwrap().unwrap();
    assert_eq!(step, ScanAction::Scan);
    assert_eq!(step.next(Some(true)), Ok(None));
}

#[test]
fn scan_of_a_driver_that_has_to_be_set_up() {
    let mut step = ScanAction::first();
    for (answer, expected) in [
        (None, ScanAction::Stop),
        (None, ScanAction::SetConfiguration),
        (Some(true), ScanAction::IsStarted),
        (Some(false), ScanAction::Start),
        (Some(true), ScanAction::Scan),
    ] {
        step = step.next(answer).unwrap().unwrap();
        assert_eq!(step, expected);
    }
    assert_eq!(
        ScanAction::GetConfiguration.next(Some(false)),
        Ok(Some(ScanAction::Stop))
    );
}

#[test]
fn scan_failures() {
    for step in [
        ScanAction::SetConfiguration,
        ScanAction::IsStarted,
        ScanAction::Start,
        ScanAction::Scan,
    ] {
        assert_eq!(step.next(None), Err(ErrorCode::NoNetworkInterface));
    }
}

fn creds(name: &[u8], password: &str) -> WifiCredentials {
    WifiCredentials::try_from_wifi(&AddWifiNetworkRequest {
        ssid: name.to_vec(),
        credentials: password.as_bytes().to_vec(),
    })
    .unwrap()
}

#[test]
fn connect_with_every_method() {
    let mut run = SvcConnect::new(&creds(b"home", "secret"));
    let methods = [
        AuthMethod::WPA2Personal,
        AuthMethod::WPA2WPA3Personal,
        AuthMethod::WPAWPA2Personal,
        AuthMethod::WEP,
    ];
    for (i, method) in methods.iter().enumerate() {
        match run.next(false) {
            ConnectAction::SetConfiguration {
                ssid,
                auth_method,
                password,
            } => {
                assert_eq!(ssid, "home");
                assert_eq!(auth_method, *method);
                assert_eq!(password.as_str(), "secret");
            }
            other => panic!("unexpected {:?}", other),
        }
        assert!(matches!(run.next(true), ConnectAction::Start));
        assert!(matches!(run.next(true), ConnectAction::Connect));
        match run.next(false) {
            ConnectAction::Stop => assert!(i < 3),
            ConnectAction::Finish(result) => {
                assert_eq!(i, 3);
                assert_eq!(result, Err(ErrorCode::NoNetworkInterface));
            }
            other => panic!("unexpected {:?}", other),
        }
    }
}

#[test]
fn connect_to_open_network() {
    let mut run = SvcConnect::new(&creds(&[0xff], ""));
    match run.next(true) {
        ConnectAction::SetConfiguration {
            ssid, auth_method, ..
        } => {
            assert_eq!(ssid, "???");
            assert_eq!(auth_method, AuthMethod::Open);
        }
        other => panic!("unexpected {:?}", other),
    }
    assert!(matches!(run.next(true), ConnectAction::Start));
    assert!(matches!(run.next(true), ConnectAction::Connect));
    assert!(matches!(run.next(true), ConnectAction::Finish(Ok(()))));

    let mut run = SvcConnect::new(&creds(b"cafe", ""));
    run.next(true);
    run.next(true);
    run.next(true);
    assert!(matches!(
        run.next(false),
        ConnectAction::Finish(Err(ErrorCode::NoNetworkInterface))
    ));
}

#[test]
fn connect_ends_when_the_driver_fails() {
    let mut run = SvcConnect::new(&creds(b"home", "secret"));
    run.next(true);
    assert!(matches!(
        run.next(false),
        ConnectAction::Finish(Err(ErrorCode::NoNetworkInterface))
    ));
    let mut run = SvcConnect::new(&creds(b"home", "secret"));
    run.next(true);
    run.next(true);
    assert!(matches!(
        run.next(false),
        ConnectAction::Finish(Err(ErrorCode::NoNetworkInterface))
    ));
}

#[test]
fn svc_controller() {
    let mut controller = SvcWifiController::new(vec![1]);
    controller.wifi_mut().push(2);
    assert_eq!(controller.wifi(), &[1, 2]);
    type Controller = SvcWifiController<()>;
    assert_eq!(Controller::stats(), Ok(None));
}

#[test]
fn only_a_network_with_a_connection_is_the_connected_one() {
    type Controller = SvcWifiController<()>;
    let home = || Some(WifiConfiguration::Client { ssid: ssid("home") });
    let network = Controller::connected_network(home(), Some(true)).unwrap();
    assert_eq!(network.unwrap().as_ref(), b"home");
    assert!(matches!(
        Controller::connected_network(home(), Some(false)),
        Ok(None)
    ));
    for connected in [Some(true), Some(false), None] {
        assert!(matches!(
            Controller::connected_network(Some(WifiConfiguration::Other), connected),
            Ok(None)
        ));
        assert_eq!(
            Controller::connected_network(None, connected).err(),
            Some(ErrorCode::NoNetworkInterface)
        );
    }
    assert_eq!(
        Controller::connected_network(home(), None).err(),
        Some(ErrorCode::NoNetworkInterface)
    );
}

fn thread_result(pan_id: u16) -> ScanResult {
    ScanResult::Thread(ThreadScanResult {
        pan_id,
        extended_pan_id: 1,
        network_name: "net".try_into().unwrap(),
        channel: 15,
        version: 4,
        extended_address: [1, 2].as_slice().try_into().unwrap(),
        rssi: -70,
        lqi: 200,
    })
}

fn pan_id(result: &ScanResult) -> u16 {
    match result {
        ScanResult::Thread(result) => result.pan_id,
        ScanResult::Wifi(_) => 0,
    }
}

#[test]
fn five_results_are_kept() {
    let mut collector = ScanCollector::new();
    for i in 1..8 {
        collector.on_report(Some(thread_result(i)));
        collector.on_report(None);
    }
    let results = Some(collector.finish(Ok(())).unwrap());
    let kept: Vec<Option<u16>> = ControllerProxy::<WifiData>::reports(&results)
        .into_iter()
        .map(|result| result.map(pan_id))
        .collect();
    assert_eq!(kept, [Some(1), Some(2), Some(3), Some(4), Some(5), None]);

    let mut collector = ScanCollector::new();
    collector.on_report(Some(thread_result(1)));
    assert_eq!(
        collector.finish(Err(ErrorCode::Busy)).err(),
        Some(ErrorCode::Busy)
    );
}

type Proxy = ControllerProxy<WifiData>;

#[test]
fn exchange_kinds() {
    type Exchange = ControllerExchange<WifiData>;
    for command in [
        Exchange::Scan(None),
        Exchange::Connect(creds(b"home", "")),
        Exchange::ConnectedNetwork,
        Exchange::Stats,
    ] {
        assert!(command.is_command());
        assert!(!command.is_reply());
    }
    for reply in [
        Exchange::Empty,
        Exchange::ScanResult(Err(ErrorCode::Busy)),
        Exchange::ConnectResult(Ok(())),
        Exchange::ConnectedNetworkResult(Ok(None)),
        Exchange::StatsResult(Ok(None)),
    ] {
        assert!(!reply.is_command());
        assert!(reply.is_reply());
    }
    assert!(!Exchange::Processing.is_command());
    assert!(!Exchange::Processing.is_reply());
}

#[test]
fn proxy_without_controller() {
    let mut proxy = Proxy::new(true);
    assert!(proxy.supports_concurrent_connection());
    assert!(matches!(
        proxy.command(ControllerExchange::ConnectedNetwork),
        Ok(false)
    ));
    assert!(matches!(proxy.reply(), Some(Err(()))));
    assert!(matches!(Proxy::scan(None), Ok(None)));
    assert!(matches!(Proxy::scan(Some(Err(()))), Ok(None)));
    assert_eq!(Proxy::connect(None), Ok(()));
    assert_eq!(Proxy::connect(Some(Err(()))), Ok(()));
    assert!(matches!(Proxy::connected_network(None), Ok(None)));
    assert!(matches!(Proxy::stats(None), Ok(None)));
    assert!(!Proxy::new(false).supports_concurrent_connection());
}

#[test]
fn proxy_exchange() {
    let mut proxy = Proxy::new(false);
    proxy.set_connected(true);
    assert!(proxy.process().is_none());
    assert!(matches!(
        proxy.command(ControllerExchange::ConnectedNetwork),
        Ok(true)
    ));
    assert!(proxy.reply().is_none());
    assert!(matches!(
        proxy.command(ControllerExchange::Scan(None)),
        Err(ControllerExchange::Scan(None))
    ));
    assert!(matches!(
        proxy.process(),
        Some(ControllerExchange::ConnectedNetwork)
    ));
    assert!(proxy.process().is_none());
    assert!(proxy.reply().is_none());
    proxy.answer(ControllerExchange::ConnectedNetworkResult(Ok(Some(ssid(
        "home",
    )))));
    assert!(proxy.process().is_none());
    let reply = proxy.reply();
    let network = Proxy::connected_network(reply).unwrap().unwrap();
    assert_eq!(network.as_ref(), b"home");
    assert!(matches!(proxy.pipe, ControllerExchange::Empty));

    assert!(matches!(
        proxy.command(ControllerExchange::Connect(creds(b"a", "b"))),
        Ok(true)
    ));
    match proxy.process() {
        Some(ControllerExchange::Connect(creds)) => assert_eq!(creds.password.as_str(), "b"),
        _ => panic!(),
    }
    proxy.answer(ControllerExchange::ConnectResult(Err(
        ErrorCode::NoNetworkInterface,
    )));
    let reply = proxy.reply();
    assert_eq!(Proxy::connect(reply), Err(ErrorCode::NoNetworkInterface));

    proxy.set_connected(false);
    assert!(matches!(proxy.reply(), Some(Err(()))));
}

#[test]
fn proxy_scan_replies() {
    let mut collector = ScanCollector::new();
    collector.on_report(Some(thread_result(9)));
    let results = collector.finish(Ok(()));
    match Proxy::scan(Some(Ok(ControllerExchange::ScanResult(results)))) {
        Ok(results) => {
            let reports = Proxy::reports(&results);
            assert_eq!(reports.len(), 2);
            assert_eq!(reports[0].map(pan_id), Some(9));
            assert!(reports[1].is_none());
        }
        _ => panic!(),
    }
    let reports = Proxy::reports(&None);
    assert_eq!(reports.len(), 1);
    assert!(reports[0].is_none());
    assert!(matches!(
        Proxy::scan(Some(Ok(ControllerExchange::ScanResult(Err(
            ErrorCode::Busy
        ))))),
        Err(ErrorCode::Busy)
    ));
    assert!(matches!(
        Proxy::stats(Some(Ok(ControllerExchange::StatsResult(Err(
            ErrorCode::Busy
        ))))),
        Err(ErrorCode::Busy)
    ));
}

#[test]
fn statistics_come_from_the_controller() {
    let mut proxy = Proxy::new(false);
    proxy.set_connected(true);
    assert!(matches!(proxy.command(ControllerExchange::Stats), Ok(true)));
    assert!(proxy.reply().is_none());
    assert!(matches!(
        proxy.process(),
        Some(ControllerExchange::Stats)
    ));
    assert!(proxy.reply().is_none());
    let stats = WifiNwDiagData::placeholder();
    proxy.answer(ControllerExchange::StatsResult(Ok(Some(stats))));
    let reply = proxy.reply();
    assert_eq!(Proxy::stats(reply), Ok(Some(stats)));
}

#[test]
fn wifi_diagnostics() {
    assert_eq!(DiagRead::new(true, true), DiagRead::UpToDate);
    assert_eq!(DiagRead::new(false, true), DiagRead::System);
    assert_eq!(DiagRead::new(false, false), DiagRead::Stats);

    let mut cluster = WifiNwDiagCluster::new(Dataver(1));
    let data = WifiNwDiagData {
        bssid: [1, 2, 3, 4, 5, 6],
        security_type: 4,
        wifi_version: 3,
        channel_number: 36,
        rssi: -50,
    };
    let read = |attr: u32| cluster.read(attr, Ok(Some(data)));
    assert!(matches!(read(0), Ok(WifiDiagValue::Bssid([1, 2, 3, 4, 5, 6]))));
    assert!(matches!(read(1), Ok(WifiDiagValue::SecurityType(4))));
    assert!(matches!(read(2), Ok(WifiDiagValue::WifiVersion(3))));
    assert!(matches!(read(3), Ok(WifiDiagValue::ChannelNumber(36))));
    assert!(matches!(read(4), Ok(WifiDiagValue::Rssi(-50))));
    assert!(matches!(read(5), Err(ErrorCode::AttributeNotFound)));
    assert!(matches!(cluster.read(4, Ok(None)), Ok(WifiDiagValue::Null)));
    assert!(matches!(
        cluster.read(5, Ok(None)),
        Err(ErrorCode::AttributeNotFound)
    ));
    assert!(matches!(
        cluster.read(0, Err(ErrorCode::Busy)),
        Err(ErrorCode::Busy)
    ));
    assert_eq!(cluster.write(Ok(())), Ok(()));
    assert_eq!(
        cluster.write(Err(ErrorCode::DataVersionMismatch)),
        Err(ErrorCode::DataVersionMismatch)
    );
    assert_eq!(cluster.invoke(0), Ok(()));
    assert_eq!(cluster.invoke(1), Err(ErrorCode::CommandNotFound));
}

#[test]
fn thread_diagnostics() {
    let mut cluster = ThreadNwDiagCluster::new(Dataver(1));
    assert_eq!(cluster.read(true, Ok(())), Ok(()));
    assert_eq!(
        cluster.read(false, Ok(())),
        Err(ErrorCode::AttributeNotFound)
    );
    assert_eq!(cluster.read(true, Err(ErrorCode::Busy)), Err(ErrorCode::Busy));
    assert_eq!(cluster.write(Ok(())), Ok(()));
    assert_eq!(cluster.invoke(0), Ok(()));
    assert_eq!(cluster.invoke(7), Err(ErrorCode::CommandNotFound));
}
