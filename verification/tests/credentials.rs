use rs_matter_stack::error::ErrorCode;
use rs_matter_stack::wireless::traits::{
    AddThreadNetworkRequest, AddWifiNetworkRequest, DisconnectedController, NetworkCredentials,
    NetworkId, PreexistingWireless, ThreadCredentials, ThreadData, ThreadId, ThreadTlvRead,
    WifiCredentials, WifiData, WifiNwDiagData, WifiSsid, WirelessData,
};

fn dataset(bytes: &[u8]) -> ThreadCredentials {
    ThreadCredentials::try_from_thread(&AddThreadNetworkRequest {
        op_dataset: bytes.to_vec(),
    })
    .unwrap()
}

#[test]
fn tlv_short_values() {
    let bytes = [2u8, 3, 10, 11, 12, 7, 0, 9, 1, 99];
    let mut reader = ThreadTlvRead::new(&bytes);
    assert_eq!(reader.next_tlv(), Some((2, &[10u8, 11, 12][..])));
    assert_eq!(reader.next_tlv(), Some((7, &[][..])));
    assert_eq!(reader.next_tlv(), Some((9, &[99u8][..])));
    assert_eq!(reader.next_tlv(), None);
    assert_eq!(reader.next_tlv(), None);
}

#[test]
fn tlv_long_value() {
    let mut bytes = vec![5u8, 255, 0, 1, 4];
    bytes.extend(std::iter::repeat(0xabu8).take(0x104));
    bytes.extend([6, 1, 42]);
    let mut reader = ThreadTlvRead::new(&bytes);
    let (tlv_type, value) = reader.next_tlv().unwrap();
    assert_eq!(tlv_type, 5);
    assert_eq!(value.len(), 0x104);
    assert!(value.iter().all(|b| *b == 0xab));
    assert_eq!(reader.next_tlv(), Some((6, &[42u8][..])));
    assert_eq!(reader.next_tlv(), None);
}

#[test]
fn tlv_longest_short_value() {
    let mut bytes = vec![5u8, 254];
    bytes.extend(std::iter::repeat(1u8).take(254));
    let mut reader = ThreadTlvRead::new(&bytes);
    assert_eq!(reader.next_tlv().unwrap().1.len(), 254);
    assert_eq!(reader.next_tlv(), None);
}

#[test]
fn tlv_long_form_with_small_length() {
    let bytes = [5u8, 255, 0, 0, 2, 8, 9];
    assert_eq!(ThreadTlvRead::new(&bytes).next_tlv(), Some((5, &[8u8, 9][..])));
}

#[test]
fn tlv_incomplete() {
    assert_eq!(ThreadTlvRead::new(&[]).next_tlv(), None);
    assert_eq!(ThreadTlvRead::new(&[2]).next_tlv(), None);
    assert_eq!(ThreadTlvRead::new(&[2, 1]).next_tlv(), None);
    assert_eq!(ThreadTlvRead::new(&[2, 255]).next_tlv(), None);
    assert_eq!(ThreadTlvRead::new(&[2, 255, 0, 0]).next_tlv(), None);
    assert_eq!(ThreadTlvRead::new(&[2, 255, 0, 0, 1]).next_tlv(), None);
    assert_eq!(ThreadTlvRead::new(&[2, 0]).next_tlv(), Some((2, &[][..])));
}

#[test]
fn tlv_incomplete_is_left_in_place() {
    let bytes = [1u8, 1, 7, 2, 9, 0];
    let mut reader = ThreadTlvRead::new(&bytes);
    assert_eq!(reader.next_tlv(), Some((1, &[7u8][..])));
    assert_eq!(reader.next_tlv(), None);
    assert_eq!(reader.next_tlv(), None);
}

#[test]
fn ext_pan_id_is_the_first_of_its_type() {
    let creds = dataset(&[
        0, 3, 0, 0, 15, 2, 8, 1, 2, 3, 4, 5, 6, 7, 8, 2, 8, 9, 9, 9, 9, 9, 9, 9, 9,
    ]);
    assert_eq!(creds.ext_pan_id().unwrap().as_ref(), &[1, 2, 3, 4, 5, 6, 7, 8]);
    assert_eq!(creds.network_id().as_ref(), &[1, 2, 3, 4, 5, 6, 7, 8]);
    assert_eq!(creds.network_id().text(), "EPAN ID::0x102030405060708");
    assert_eq!(creds.op_dataset().len(), 25);
}

#[test]
fn ext_pan_id_is_empty_without_entry() {
    let creds = dataset(&[0, 3, 0, 0, 15]);
    assert!(creds.ext_pan_id().unwrap().as_ref().is_empty());
    assert!(creds.network_id().as_ref().is_empty());
    assert!(dataset(&[]).network_id().as_ref().is_empty());
}

#[test]
fn ext_pan_id_that_is_too_long() {
    let creds = dataset(&[2, 9, 1, 2, 3, 4, 5, 6, 7, 8, 9]);
    assert_eq!(creds.ext_pan_id().err(), Some(ErrorCode::InvalidData));
    assert!(creds.network_id().as_ref().is_empty());
}

#[test]
fn ext_pan_id_behind_incomplete_entry() {
    let creds = dataset(&[0, 200, 2, 1, 7]);
    assert!(creds.ext_pan_id().unwrap().as_ref().is_empty());
}

#[test]
fn thread_id_text_is_padded() {
    let id = <ThreadId as NetworkId>::try_from(&[0, 0, 0, 0, 0, 0, 0xab, 0xcd]).unwrap();
    assert_eq!(id.text(), "EPAN ID::0x0000abcd");
    let id = <ThreadId as NetworkId>::try_from(&[0, 0, 0, 1, 0, 0, 0xab, 0xcd]).unwrap();
    assert_eq!(id.text(), "EPAN ID::0x10000abcd");
    let id = <ThreadId as NetworkId>::try_from(&[255; 8]).unwrap();
    assert_eq!(id.text(), "EPAN ID::0xffffffffffffffff");
}

#[test]
fn thread_id_length() {
    assert_eq!(
        <ThreadId as NetworkId>::try_from(&[0; 9]).err(),
        Some(ErrorCode::InvalidData)
    );
    let id = <ThreadId as NetworkId>::try_from(&[7; 8]).unwrap();
    assert_eq!(id.as_ref(), &[7; 8]);
    assert_eq!(id.duplicate().as_ref(), &[7; 8]);
}

#[test]
fn ssid_length_and_text() {
    assert_eq!(
        <WifiSsid as NetworkId>::try_from(&[b'a'; 33]).err(),
        Some(ErrorCode::NoSpace)
    );
    let ssid = <WifiSsid as NetworkId>::try_from(&[b'a'; 32]).unwrap();
    assert_eq!(ssid.as_ref(), &[b'a'; 32]);
    let ssid = <WifiSsid as NetworkId>::try_from("Küche".as_bytes()).unwrap();
    assert_eq!(ssid.text(), "SSID::Küche");
    assert_eq!(ssid.duplicate().text(), "SSID::Küche");
    let ssid = <WifiSsid as NetworkId>::try_from(&[0xff, 0xfe]).unwrap();
    assert_eq!(ssid.text(), "SSID::???");
}

#[test]
fn wifi_credentials_from_requests() {
    let creds = WifiCredentials::try_from_wifi(&AddWifiNetworkRequest {
        ssid: b"home".to_vec(),
        credentials: b"secret".to_vec(),
    })
    .unwrap();
    assert_eq!(creds.ssid.as_ref(), b"home");
    assert_eq!(creds.password.as_str(), "secret");
    assert_eq!(creds.network_id().as_ref(), b"home");
    let copy = creds.duplicate();
    assert_eq!(copy.ssid.as_ref(), b"home");
    assert_eq!(copy.password.as_str(), "secret");

    let refused = |ssid: &[u8], credentials: &[u8]| {
        WifiCredentials::try_from_wifi(&AddWifiNetworkRequest {
            ssid: ssid.to_vec(),
            credentials: credentials.to_vec(),
        })
        .err()
    };
    assert_eq!(refused(&[b'a'; 33], b"secret"), Some(ErrorCode::NoSpace));
    assert_eq!(refused(&[b'a'; 33], &[0xff]), Some(ErrorCode::NoSpace));
    assert_eq!(refused(b"home", &[0xff]), Some(ErrorCode::InvalidData));
    assert_eq!(refused(b"home", &[b'x'; 65]), Some(ErrorCode::InvalidData));
    assert_eq!(refused(b"home", &[b'x'; 64]), None);
    assert_eq!(refused(&[0xff], b""), None);
    assert_eq!(
        WifiCredentials::try_from_thread(&AddThreadNetworkRequest { op_dataset: vec![] }).err(),
        Some(ErrorCode::InvalidCommand)
    );
}

#[test]
fn thread_credentials_from_requests() {
    assert_eq!(
        ThreadCredentials::try_from_thread(&AddThreadNetworkRequest {
            op_dataset: vec![0; 257]
        })
        .err(),
        Some(ErrorCode::NoSpace)
    );
    assert_eq!(dataset(&[1; 256]).op_dataset(), &[1; 256]);
    assert_eq!(dataset(&[1, 2, 3]).duplicate().op_dataset(), &[1, 2, 3]);
    assert_eq!(
        ThreadCredentials::try_from_wifi(&AddWifiNetworkRequest {
            ssid: b"home".to_vec(),
            credentials: vec![],
        })
        .err(),
        Some(ErrorCode::InvalidCommand)
    );
}

#[test]
fn wireless_data() {
    assert!(WifiData::WIFI);
    assert!(!ThreadData::WIFI);
    assert_eq!(WifiData::default_stats(), None);
    assert_eq!(ThreadData::default_stats(), ());
}

#[test]
fn disconnected_controller() {
    let controller = DisconnectedController::new();
    assert_eq!(controller.scan(), Err(ErrorCode::InvalidCommand));
    assert_eq!(controller.connect(), Ok(()));
    assert!(matches!(controller.connected_network::<WifiData>(), Ok(None)));
    assert!(matches!(controller.connected_network::<ThreadData>(), Ok(None)));
    assert_eq!(controller.stats::<WifiData>(), Ok(None));
    assert_eq!(controller.stats::<ThreadData>(), Ok(()));
    assert_eq!(DisconnectedController::default().connect(), Ok(()));
}

#[test]
fn preexisting_wireless_keeps_its_parts() {
    let wireless = PreexistingWireless::new(1u8, "udp", 'c', 2.5f64);
    assert_eq!(wireless.netif, 1);
    assert_eq!(wireless.udp, "udp");
    assert_eq!(wireless.controller, 'c');
    assert_eq!(wireless.gatt, 2.5);
}

#[test]
fn placeholder_statistics() {
    let data = WifiNwDiagData::placeholder();
    assert_eq!(data.bssid, [0; 6]);
    assert_eq!(data.security_type, 0);
    assert_eq!(data.wifi_version, 1);
    assert_eq!(data.channel_number, 20);
    assert_eq!(data.rssi, 0);
}
