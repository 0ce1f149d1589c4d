//! A wireless controller over a Wifi driver that is configured, started and connected step by
//! step.

use vstd::prelude::*;
use vstd::utf8::{decode_utf8, valid_utf8};

use crate::bytes::bytes_eq;
use crate::error::ErrorCode;
use crate::text::{string64_as_str, string64_chars, string64_clone, utf8_text};
use crate::wireless::traits::{
    NetworkId, WiFiSecurity, WifiBand, WifiCredentials, WifiNwDiagData, WifiScanResult, WifiSsid,
};

verus! {

/// How a Wifi network authenticates its users.
#[derive(Debug, Clone, Copy, PartialEq, Eq, Structural)]
pub enum AuthMethod {
    /// No authentication at all.
    Open,
    WEP,
    WPA,
    WPA2Personal,
    WPAWPA2Personal,
    WPA2Enterprise,
    WPA3Personal,
    WPA2WPA3Personal,
    WAPIPersonal,
}

/// The security modes of a network that uses the given method; WPA2 where the method is not
/// known or has no mode of its own.
pub open spec fn security_of(auth_method: Option<AuthMethod>) -> WiFiSecurity {
    match auth_method {
        Some(AuthMethod::Open) => WiFiSecurity {
            unencrypted: true,
            wep: false,
            wpa_personal: false,
            wpa2_personal: false,
            wpa3_personal: false,
        },
        Some(AuthMethod::WEP) => WiFiSecurity {
            unencrypted: false,
            wep: true,
            wpa_personal: false,
            wpa2_personal: false,
            wpa3_personal: false,
        },
        Some(AuthMethod::WPA) => WiFiSecurity {
            unencrypted: false,
            wep: false,
            wpa_personal: true,
            wpa2_personal: false,
            wpa3_personal: false,
        },
        Some(AuthMethod::WPAWPA2Personal) => WiFiSecurity {
            unencrypted: false,
            wep: false,
            wpa_personal: true,
            wpa2_personal: true,
            wpa3_personal: false,
        },
        Some(AuthMethod::WPA2WPA3Personal) => WiFiSecurity {
            unencrypted: false,
            wep: false,
            wpa_personal: false,
            wpa2_personal: true,
            wpa3_personal: true,
        },
        _ => WiFiSecurity {
            unencrypted: false,
            wep: false,
            wpa_personal: false,
            wpa2_personal: true,
            wpa3_personal: false,
        },
    }
}

/// The security modes of a network that uses the given method.
pub fn to_sec(value: Option<AuthMethod>) -> (res: WiFiSecurity)
    ensures
        res == security_of(value),
{
    let none = WiFiSecurity {
        unencrypted: false,
        wep: false,
        wpa_personal: false,
        wpa2_personal: false,
        wpa3_personal: false,
    };
    match value {
        // Best guess
        None => WiFiSecurity { wpa2_personal: true, ..none },
        Some(AuthMethod::Open) => WiFiSecurity { unencrypted: true, ..none },
        Some(AuthMethod::WEP) => WiFiSecurity { wep: true, ..none },
        Some(AuthMethod::WPA) => WiFiSecurity { wpa_personal: true, ..none },
        Some(AuthMethod::WPA2Personal) => WiFiSecurity { wpa2_personal: true, ..none },
        Some(AuthMethod::WPAWPA2Personal) => WiFiSecurity {
            wpa_personal: true,
            wpa2_personal: true,
            ..none
        },
        Some(AuthMethod::WPA2WPA3Personal) => WiFiSecurity {
            wpa2_personal: true,
            wpa3_personal: true,
            ..none
        },
        _ => WiFiSecurity { wpa2_personal: true, ..none },
    }
}

/// The contents of `AccessPointInfo`.
pub struct AccessPointView {
    pub ssid: Seq<u8>,
    pub bssid: Seq<u8>,
    pub channel: u8,
    pub signal_strength: i8,
    pub auth_method: Option<AuthMethod>,
}

/// An access point that the driver has seen.
#[derive(Debug)]
pub struct AccessPointInfo {
    pub ssid: WifiSsid,
    pub bssid: [u8; 6],
    pub channel: u8,
    pub signal_strength: i8,
    pub auth_method: Option<AuthMethod>,
}

impl View for AccessPointInfo {
    type V = AccessPointView;

    open spec fn view(&self) -> AccessPointView {
        AccessPointView {
            ssid: self.ssid@,
            bssid: self.bssid@,
            channel: self.channel,
            signal_strength: self.signal_strength,
            auth_method: self.auth_method,
        }
    }
}

/// The contents of `WifiScanResult`.
pub struct WifiScanResultView {
    pub security: WiFiSecurity,
    pub ssid: Seq<u8>,
    pub bssid: Seq<u8>,
    pub channel: u16,
    pub band: Option<WifiBand>,
    pub rssi: Option<i8>,
}

impl View for WifiScanResult {
    type V = WifiScanResultView;

    open spec fn view(&self) -> WifiScanResultView {
        WifiScanResultView {
            security: self.security,
            ssid: self.ssid@,
            bssid: self.bssid@,
            channel: self.channel,
            band: self.band,
            rssi: self.rssi,
        }
    }
}

/// An access point as the result of a scan.
pub open spec fn scan_result(ap: AccessPointView) -> WifiScanResultView {
    WifiScanResultView {
        security: security_of(ap.auth_method),
        ssid: ap.ssid,
        bssid: ap.bssid,
        channel: ap.channel as u16,
        band: Some(WifiBand::B2G4),
        rssi: Some(ap.signal_strength),
    }
}

/// The results of a scan for all networks, or for the one with the wanted SSID.
pub open spec fn scan_results(
    wanted: Option<Seq<u8>>,
    aps: Seq<AccessPointView>,
) -> Seq<WifiScanResultView>
    decreases aps.len(),
{
    if aps.len() == 0 {
        Seq::empty()
    } else {
        let front = scan_results(wanted, aps.drop_last());
        if wanted is None || wanted == Some(aps.last().ssid) {
            front.push(scan_result(aps.last()))
        } else {
            front
        }
    }
}

/// The contents of a list of access points.
pub open spec fn aps_view(aps: Seq<AccessPointInfo>) -> Seq<AccessPointView> {
    aps.map_values(|ap: AccessPointInfo| ap@)
}

/// The SSID that is wanted, if there is one.
pub open spec fn wanted_ssid(network_id: Option<&WifiSsid>) -> Option<Seq<u8>> {
    match network_id {
        Some(id) => Some(id@),
        None => None,
    }
}

/// The reports are the given results, one by one and in their order.
pub open spec fn reports_results(
    reports: Seq<Option<WifiScanResult>>,
    results: Seq<WifiScanResultView>,
) -> bool {
    &&& reports.len() == results.len()
    &&& forall|i: int|
        0 <= i < results.len() ==> (#[trigger] reports[i]) is Some && reports[i]->Some_0@
            == results[i]
}

/// What a scan for all networks, or for the one with the given SSID, reports: its results in the
/// order in which the driver has seen the access points, and then, once and last, `None`, which
/// tells that there are no more. This end is reported even where nothing was found.
pub fn report_results(network_id: Option<&WifiSsid>, aps: &Vec<AccessPointInfo>) -> (res: Vec<
    Option<WifiScanResult>,
>)
    ensures
        res.len() == scan_results(wanted_ssid(network_id), aps_view(aps@)).len() + 1,
        reports_results(
            res@.drop_last(),
            scan_results(wanted_ssid(network_id), aps_view(aps@)),
        ),
        res@.last() is None,
{
    let ghost wanted = wanted_ssid(network_id);
    let ghost all = aps_view(aps@);
    let mut res: Vec<Option<WifiScanResult>> = Vec::new();
    let mut i: usize = 0;
    while i < aps.len()
        invariant
            i <= aps.len(),
            all == aps_view(aps@),
            wanted == wanted_ssid(network_id),
            reports_results(res@, scan_results(wanted, all.take(i as int))),
        decreases aps.len() - i,
    {
        let ap = &aps[i];
        assert(all.take(i + 1).drop_last() =~= all.take(i as int));
        assert(all.take(i + 1).last() == ap@);
        let matching: bool = match network_id {
            Some(id) => bytes_eq(ap.ssid.as_ref(), id.as_ref()),
            None => true,
        };
        if matching {
            let result = WifiScanResult {
                security: to_sec(ap.auth_method),
                ssid: ap.ssid.duplicate(),
                bssid: ap.bssid,
                channel: ap.channel as u16,
                band: Some(WifiBand::B2G4),
                rssi: Some(ap.signal_strength),
            };
            assert(result@ == scan_result(ap@));
            res.push(Some(result));
        }
        i = i + 1;
    }
    assert(all.take(i as int) =~= all);
    let ghost found = res@;
    res.push(None);
    assert(res@.drop_last() =~= found);
    res
}

/// What the Wifi driver has to do for a scan, in the order in which it may come.
#[derive(Debug, Clone, Copy, PartialEq, Eq, Structural)]
pub enum ScanAction {
    /// Tell whether the driver is configured as a client.
    GetConfiguration,
    /// Stop; a failure does not matter.
    Stop,
    /// Configure the driver as a client of an open network, so that it can scan.
    SetConfiguration,
    /// Tell whether the driver is started.
    IsStarted,
    /// Start.
    Start,
    /// Scan for up to five access points.
    Scan,
}

/// What follows an action with the given answer. An answer is missing where the action failed;
/// otherwise it is `false` where the driver was asked a question and denied it.
///
/// `Ok(None)` means that the results of the scan can be reported.
pub open spec fn scan_next(action: ScanAction, answer: Option<bool>) -> Result<
    Option<ScanAction>,
    ErrorCode,
> {
    match action {
        ScanAction::GetConfiguration => if answer == Some(true) {
            Ok(Some(ScanAction::IsStarted))
        } else {
            Ok(Some(ScanAction::Stop))
        },
        ScanAction::Stop => Ok(Some(ScanAction::SetConfiguration)),
        ScanAction::SetConfiguration => if answer is Some {
            Ok(Some(ScanAction::IsStarted))
        } else {
            Err(ErrorCode::NoNetworkInterface)
        },
        ScanAction::IsStarted => match answer {
            Some(true) => Ok(Some(ScanAction::Scan)),
            Some(false) => Ok(Some(ScanAction::Start)),
            None => Err(ErrorCode::NoNetworkInterface),
        },
        ScanAction::Start => if answer is Some {
            Ok(Some(ScanAction::Scan))
        } else {
            Err(ErrorCode::NoNetworkInterface)
        },
        ScanAction::Scan => if answer is Some {
            Ok(None)
        } else {
            Err(ErrorCode::NoNetworkInterface)
        },
    }
}

impl ScanAction {
    /// The first action of a scan.
    pub fn first() -> (res: Self)
        ensures
            res == ScanAction::GetConfiguration,
    {
        ScanAction::GetConfiguration
    }

    /// What follows the action with the given answer.
    pub fn next(self, answer: Option<bool>) -> (res: Result<Option<Self>, ErrorCode>)
        ensures
            res == scan_next(self, answer),
    {
        match (self, answer) {
            (ScanAction::GetConfiguration, Some(true)) => Ok(Some(ScanAction::IsStarted)),
            (ScanAction::GetConfiguration, _) => Ok(Some(ScanAction::Stop)),
            (ScanAction::Stop, _) => Ok(Some(ScanAction::SetConfiguration)),
            (_, None) => Err(ErrorCode::NoNetworkInterface),
            (ScanAction::SetConfiguration, Some(_)) => Ok(Some(ScanAction::IsStarted)),
            (ScanAction::IsStarted, Some(true)) => Ok(Some(ScanAction::Scan)),
            (ScanAction::IsStarted, Some(false)) => Ok(Some(ScanAction::Start)),
            (ScanAction::Start, Some(_)) => Ok(Some(ScanAction::Scan)),
            (ScanAction::Scan, Some(_)) => Ok(None),
        }
    }

    /// How many actions can still come before the end of a scan.
    pub open spec fn rank(self) -> nat {
        match self {
            ScanAction::GetConfiguration => 5,
            ScanAction::Stop => 4,
            ScanAction::SetConfiguration => 3,
            ScanAction::IsStarted => 2,
            ScanAction::Start => 1,
            ScanAction::Scan => 0,
        }
    }
}

/// A scan takes six actions at most, whatever the driver answers.
pub proof fn lemma_scan_ends(action: ScanAction, answer: Option<bool>)
    ensures
        scan_next(action, answer) matches Ok(Some(next)) ==> next.rank() < action.rank() <= 5,
{
}

/// The ways to authenticate that are tried in turn: an open network only without a password, and
/// all the others only with one.
pub open spec fn auth_methods(open: bool) -> Seq<AuthMethod> {
    if open {
        seq![AuthMethod::Open]
    } else {
        seq![
            AuthMethod::WPA2Personal,
            AuthMethod::WPA2WPA3Personal,
            AuthMethod::WPAWPA2Personal,
            AuthMethod::WEP,
        ]
    }
}

/// The SSID as the driver is told it.
pub open spec fn ssid_text(ssid: Seq<u8>) -> Seq<char> {
    if valid_utf8(ssid) {
        decode_utf8(ssid)
    } else {
        "???"@
    }
}

/// What the Wifi driver has to do to connect to a network.
#[derive(Debug)]
pub enum ConnectAction {
    /// Stop; a failure does not matter.
    Stop,
    /// Configure the driver as a client of the given network.
    SetConfiguration { ssid: String, auth_method: AuthMethod, password: heapless::String<64> },
    /// Start.
    Start,
    /// Connect.
    Connect,
    /// Nothing more: the attempt ends with the given result.
    Finish(Result<(), ErrorCode>),
}

/// The contents of `ConnectAction`.
pub enum ConnectActionView {
    Stop,
    SetConfiguration { ssid: Seq<char>, auth_method: AuthMethod, password: Seq<char> },
    Start,
    Connect,
    Finish(Result<(), ErrorCode>),
}

impl View for ConnectAction {
    type V = ConnectActionView;

    open spec fn view(&self) -> ConnectActionView {
        match *self {
            ConnectAction::Stop => ConnectActionView::Stop,
            ConnectAction::SetConfiguration { ssid, auth_method, password } => {
                ConnectActionView::SetConfiguration {
                    ssid: ssid@,
                    auth_method,
                    password: string64_chars(password),
                }
            },
            ConnectAction::Start => ConnectActionView::Start,
            ConnectAction::Connect => ConnectActionView::Connect,
            ConnectAction::Finish(result) => ConnectActionView::Finish(result),
        }
    }
}

/// Which action the driver is busy with.
#[derive(Debug, Clone, Copy, PartialEq, Eq, Structural)]
pub enum ConnectPhase {
    Stopping,
    Configuring,
    Starting,
    Connecting,
    Finished,
}

/// The contents of `SvcConnect`.
pub struct SvcConnectView {
    pub ssid: Seq<u8>,
    pub password: Seq<char>,
    pub attempt: nat,
    pub phase: ConnectPhase,
}

/// An attempt to connect that has just begun.
pub open spec fn connect_start(ssid: Seq<u8>, password: Seq<char>) -> SvcConnectView {
    SvcConnectView { ssid, password, attempt: 0, phase: ConnectPhase::Stopping }
}

/// What follows when the action that the driver is busy with has `succeeded` or failed.
pub open spec fn connect_next(run: SvcConnectView, succeeded: bool) -> (
    SvcConnectView,
    ConnectActionView,
) {
    let methods = auth_methods(run.password.len() == 0);
    let failure = ConnectActionView::Finish(Err(ErrorCode::NoNetworkInterface));
    match run.phase {
        ConnectPhase::Stopping => (
            SvcConnectView { phase: ConnectPhase::Configuring, ..run },
            ConnectActionView::SetConfiguration {
                ssid: ssid_text(run.ssid),
                auth_method: methods[run.attempt as int],
                password: run.password,
            },
        ),
        ConnectPhase::Configuring => if succeeded {
            (SvcConnectView { phase: ConnectPhase::Starting, ..run }, ConnectActionView::Start)
        } else {
            (SvcConnectView { phase: ConnectPhase::Finished, ..run }, failure)
        },
        ConnectPhase::Starting => if succeeded {
            (SvcConnectView { phase: ConnectPhase::Connecting, ..run }, ConnectActionView::Connect)
        } else {
            (SvcConnectView { phase: ConnectPhase::Finished, ..run }, failure)
        },
        ConnectPhase::Connecting => if succeeded {
            (
                SvcConnectView { phase: ConnectPhase::Finished, ..run },
                ConnectActionView::Finish(Ok(())),
            )
        } else if run.attempt + 1 < methods.len() {
            (
                SvcConnectView {
                    attempt: run.attempt + 1,
                    phase: ConnectPhase::Stopping,
                    ..run
                },
                ConnectActionView::Stop,
            )
        } else {
            (SvcConnectView { phase: ConnectPhase::Finished, ..run }, failure)
        },
        ConnectPhase::Finished => (run, failure),
    }
}

/// An attempt to connect to a network, with one way to authenticate after the other.
pub struct SvcConnect {
    creds_ssid: WifiSsid,
    password: heapless::String<64>,
    attempt: usize,
    phase: ConnectPhase,
}

impl View for SvcConnect {
    type V = SvcConnectView;

    closed spec fn view(&self) -> SvcConnectView {
        SvcConnectView {
            ssid: self.creds_ssid@,
            password: string64_chars(self.password),
            attempt: self.attempt as nat,
            phase: self.phase,
        }
    }
}

impl SvcConnect {
    /// There is a way to authenticate that is being tried.
    pub open spec fn wf(&self) -> bool {
        self@.attempt < auth_methods(self@.password.len() == 0).len()
    }

    /// Start an attempt, with a stop of the driver as its first action.
    pub fn new(creds: &WifiCredentials) -> (res: Self)
        ensures
            res.wf(),
            res@ == (SvcConnectView {
                ssid: creds@.ssid,
                password: creds@.password,
                attempt: 0,
                phase: ConnectPhase::Stopping,
            }),
            res@ == connect_start(creds@.ssid, creds@.password),
    {
        SvcConnect {
            creds_ssid: creds.ssid.duplicate(),
            password: string64_clone(&creds.password),
            attempt: 0,
            phase: ConnectPhase::Stopping,
        }
    }

    /// The way to authenticate that is being tried.
    fn auth_method(&self) -> (res: AuthMethod)
        requires
            self.wf(),
        ensures
            res == auth_methods(self@.password.len() == 0)[self@.attempt as int],
    {
        if string64_as_str(&self.password).is_empty() {
            AuthMethod::Open
        } else if self.attempt == 0 {
            AuthMethod::WPA2Personal
        } else if self.attempt == 1 {
            AuthMethod::WPA2WPA3Personal
        } else if self.attempt == 2 {
            AuthMethod::WPAWPA2Personal
        } else {
            AuthMethod::WEP
        }
    }

    /// What follows when the action that the driver is busy with has `succeeded` or failed.
    pub fn next(&mut self, succeeded: bool) -> (action: ConnectAction)
        requires
            old(self).wf(),
            old(self)@.phase != ConnectPhase::Finished,
        ensures
            final(self).wf(),
            (final(self)@, action@) == connect_next(old(self)@, succeeded),
    {
        match self.phase {
            ConnectPhase::Stopping => {
                self.phase = ConnectPhase::Configuring;
                let ssid = match utf8_text(self.creds_ssid.as_ref()) {
                    Some(ssid) => ssid.to_owned(),
                    None => "???".to_owned(),
                };
                ConnectAction::SetConfiguration {
                    ssid,
                    auth_method: self.auth_method(),
                    password: string64_clone(&self.password),
                }
            },
            ConnectPhase::Configuring => {
                if succeeded {
                    self.phase = ConnectPhase::Starting;
                    return ConnectAction::Start;
                }
                self.phase = ConnectPhase::Finished;
                ConnectAction::Finish(Err(ErrorCode::NoNetworkInterface))
            },
            ConnectPhase::Starting => {
                if succeeded {
                    self.phase = ConnectPhase::Connecting;
                    return ConnectAction::Connect;
                }
                self.phase = ConnectPhase::Finished;
                ConnectAction::Finish(Err(ErrorCode::NoNetworkInterface))
            },
            ConnectPhase::Connecting => {
                if succeeded {
                    self.phase = ConnectPhase::Finished;
                    return ConnectAction::Finish(Ok(()));
                }
                let methods: usize = if string64_as_str(&self.password).is_empty() {
                    1
                } else {
                    4
                };
                if self.attempt + 1 < methods {
                    self.attempt = self.attempt + 1;
                    self.phase = ConnectPhase::Stopping;
                    return ConnectAction::Stop;
                }
                self.phase = ConnectPhase::Finished;
                ConnectAction::Finish(Err(ErrorCode::NoNetworkInterface))
            },
            ConnectPhase::Finished => ConnectAction::Finish(Err(ErrorCode::NoNetworkInterface)),
        }
    }
}

/// The state after one round, in which the driver stops, is configured and started, and then
/// fails to connect.
pub open spec fn after_failed_round(run: SvcConnectView) -> (SvcConnectView, ConnectActionView) {
    let configuring = connect_next(run, true).0;
    let starting = connect_next(configuring, true).0;
    let connecting = connect_next(starting, true).0;
    connect_next(connecting, false)
}

/// Each way to authenticate is tried in turn, and the attempt is given up only after the last.
pub proof fn lemma_every_method_is_tried(run: SvcConnectView)
    requires
        run.phase == ConnectPhase::Stopping,
        run.attempt < auth_methods(run.password.len() == 0).len(),
    ensures
        ({
            let methods = auth_methods(run.password.len() == 0);
            let (after, action) = after_failed_round(run);
            if run.attempt + 1 < methods.len() {
                &&& after == (SvcConnectView { attempt: run.attempt + 1, ..run })
                &&& action == ConnectActionView::Stop
            } else {
                &&& after.phase == ConnectPhase::Finished
                &&& action == ConnectActionView::Finish(Err(ErrorCode::NoNetworkInterface))
            }
        }),
{
}

/// A password is never sent to an open network, and a network that needs one is never tried
/// without.
pub proof fn lemma_open_only_without_password(open: bool, i: int)
    requires
        0 <= i < auth_methods(open).len(),
    ensures
        (auth_methods(open)[i] == AuthMethod::Open) == open,
{
}

/// How the driver is configured.
#[derive(Debug)]
pub enum WifiConfiguration {
    /// As a client of the network with the given SSID.
    Client { ssid: WifiSsid },
    /// In any other way.
    Other,
}

/// The network that the driver is connected to, given its answers.
pub open spec fn network_in_use(conf: Option<WifiConfiguration>, connected: Option<bool>) -> Result<
    Option<WifiSsid>,
    ErrorCode,
> {
    match (conf, connected) {
        (Some(WifiConfiguration::Client { ssid }), Some(true)) => Ok(Some(ssid)),
        (Some(WifiConfiguration::Client { .. }), Some(false)) => Ok(None),
        (Some(WifiConfiguration::Other), _) => Ok(None),
        _ => Err(ErrorCode::NoNetworkInterface),
    }
}

/// A wireless controller for a Wifi driver.
pub struct SvcWifiController<W>(pub W);

impl<W> SvcWifiController<W> {
    /// Create a new `SvcWifi` instance.
    pub fn new(wifi: W) -> (res: Self)
        ensures
            res.0 == wifi,
    {
        Self(wifi)
    }

    /// Get a reference to the inner driver.
    pub fn wifi(&self) -> (res: &W)
        ensures
            *res == self.0,
    {
        &self.0
    }

    /// Get a mutable reference to the inner driver.
    pub fn wifi_mut(&mut self) -> (res: &mut W)
        ensures
            *res == old(self).0,
            final(self).0 == *final(res),
    {
        &mut self.0
    }

    /// The network that the driver is currently connected to, if any: the one that it is
    /// configured for, provided that there is a connection. `conf` and `connected` are what the
    /// driver answered, and are missing where it failed to; only a client has to be asked for its
    /// connection.
    pub fn connected_network(conf: Option<WifiConfiguration>, connected: Option<bool>) -> (res:
        Result<Option<WifiSsid>, ErrorCode>)
        ensures
            match (conf, connected) {
                (Some(WifiConfiguration::Client { ssid }), Some(true)) => res is Ok && res->Ok_0
                    == Some(ssid),
                (Some(WifiConfiguration::Client { .. }), Some(false)) => res is Ok
                    && res->Ok_0 is None,
                (Some(WifiConfiguration::Other), _) => res is Ok && res->Ok_0 is None,
                (Some(WifiConfiguration::Client { .. }), None) => res is Err && res->Err_0
                    == ErrorCode::NoNetworkInterface,
                (None, _) => res is Err && res->Err_0 == ErrorCode::NoNetworkInterface,
            },
            res == network_in_use(conf, connected),
    {
        match (conf, connected) {
            (Some(WifiConfiguration::Client { ssid }), Some(true)) => Ok(Some(ssid)),
            (Some(WifiConfiguration::Client { .. }), Some(false)) => Ok(None),
            (Some(WifiConfiguration::Other), _) => Ok(None),
            _ => Err(ErrorCode::NoNetworkInterface),
        }
    }

    /// The statistics of the interface, which the driver does not provide.
    pub fn stats() -> (res: Result<Option<WifiNwDiagData>, ErrorCode>)
        ensures
            res == Ok::<Option<WifiNwDiagData>, ErrorCode>(None),
    {
        Ok(None)
    }
}

} // verus!
