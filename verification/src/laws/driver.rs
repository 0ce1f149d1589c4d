//! The Wifi driver is connected to a network, and scans for networks.

use vstd::prelude::*;
use vstd::utf8::{decode_utf8_encode_utf8, encode_utf8, valid_utf8};

use crate::error::ErrorCode;
use crate::wifi::{mgmt, WifiCredentialsView};
use crate::wireless::svc::{
    connect_next, connect_start, network_in_use, reports_results, scan_next, scan_results,
    security_of, wanted_ssid, AccessPointView, AuthMethod, ConnectActionView, ConnectPhase,
    ScanAction, SvcConnectView, WifiConfiguration, WifiScanResultView,
};
use crate::wireless::traits::{WifiBand, WifiScanResult, WifiSsid};

verus! {

/// The attempt after a number of rounds in which the driver was stopped or not, was configured
/// and started, and then failed to connect.
pub open spec fn svc_after(run: SvcConnectView, rounds: nat, stopped: bool) -> SvcConnectView
    decreases rounds,
{
    if rounds == 0 {
        run
    } else {
        let before = svc_after(run, (rounds - 1) as nat, stopped);
        let configuring = connect_next(before, stopped).0;
        let starting = connect_next(configuring, true).0;
        let connecting = connect_next(starting, true).0;
        connect_next(connecting, false).0
    }
}

/// The ways to authenticate for a password: they are tried in this order.
pub open spec fn svc_methods(password: Seq<char>) -> Seq<AuthMethod> {
    if password.len() == 0 {
        seq![AuthMethod::Open]
    } else {
        seq![
            AuthMethod::WPA2Personal,
            AuthMethod::WPA2WPA3Personal,
            AuthMethod::WPAWPA2Personal,
            AuthMethod::WEP,
        ]
    }
}

/// However many ways to authenticate have failed before, the next one is tried in full: the
/// driver is configured with the SSID, the password and that way, then started and connected. A
/// success of the connecting ends the attempt with success; a driver that cannot be configured or
/// started ends it with a failure; a failure of the connecting leads to the next way, and after
/// the last one to a failure.
pub proof fn lemma_svc_tries_each_way(
    ssid: Seq<u8>,
    password: Seq<char>,
    rounds: nat,
    stopped: bool,
)
    requires
        rounds < svc_methods(password).len(),
    ensures
        ({
            let failure = ConnectActionView::Finish(Err(ErrorCode::NoNetworkInterface));
            let run = svc_after(connect_start(ssid, password), rounds, stopped);
            let (configuring, configure) = connect_next(run, stopped);
            let (starting, start) = connect_next(configuring, true);
            let (connecting, connect) = connect_next(starting, true);
            &&& configure matches ConnectActionView::SetConfiguration {
                ssid: text,
                auth_method,
                password: sent,
            } && {
                &&& auth_method == svc_methods(password)[rounds as int]
                &&& sent == password
                &&& valid_utf8(ssid) ==> encode_utf8(text) == ssid
                &&& !valid_utf8(ssid) ==> text =~= seq!['?', '?', '?']
            }
            &&& start == ConnectActionView::Start
            &&& connect == ConnectActionView::Connect
            &&& connect_next(connecting, true).1 == ConnectActionView::Finish(Ok(()))
            &&& connect_next(connecting, true).0.phase == ConnectPhase::Finished
            &&& connect_next(configuring, false).1 == failure
            &&& connect_next(starting, false).1 == failure
            &&& connect_next(connecting, false).1 == (if rounds + 1 < svc_methods(
                password,
            ).len() {
                ConnectActionView::Stop
            } else {
                failure
            })
        }),
{
    lemma_svc_after(ssid, password, rounds, stopped);
    if valid_utf8(ssid) {
        decode_utf8_encode_utf8(ssid);
    }
    reveal_strlit("???");
}

proof fn lemma_svc_after(ssid: Seq<u8>, password: Seq<char>, rounds: nat, stopped: bool)
    requires
        rounds < svc_methods(password).len(),
    ensures
        svc_after(connect_start(ssid, password), rounds, stopped) == (SvcConnectView {
            attempt: rounds,
            ..connect_start(ssid, password)
        }),
    decreases rounds,
{
    if rounds > 0 {
        lemma_svc_after(ssid, password, (rounds - 1) as nat, stopped);
    }
}

/// Whatever has happened before, a driver that succeeds to connect has connected the device, and
/// nothing else has: the attempt ends with success exactly when the connecting succeeds.
pub proof fn lemma_svc_success_is_success(run: SvcConnectView, succeeded: bool)
    ensures
        connect_next(run, succeeded).1 == ConnectActionView::Finish(Ok(()))
            <==> run.phase == ConnectPhase::Connecting && succeeded,
        run.phase == ConnectPhase::Connecting && succeeded ==> connect_next(run, succeeded).0.phase
            == ConnectPhase::Finished,
        connect_next(run, succeeded).0.ssid == run.ssid,
        connect_next(run, succeeded).0.password == run.password,
{
}

/// The attempt after a number of rounds in each of which the driver failed in the given phase.
pub open spec fn wifi_after(
    run: mgmt::WifiConnectView,
    rounds: nat,
    stopped: bool,
    failing: mgmt::ConnectPhase,
) -> mgmt::WifiConnectView
    decreases rounds,
{
    if rounds == 0 {
        run
    } else {
        let before = wifi_after(run, (rounds - 1) as nat, stopped, failing);
        let configuring = mgmt::connect_next(before, stopped).0;
        if failing == mgmt::ConnectPhase::Configuring {
            mgmt::connect_next(configuring, false).0
        } else {
            let starting = mgmt::connect_next(configuring, true).0;
            if failing == mgmt::ConnectPhase::Starting {
                mgmt::connect_next(starting, false).0
            } else {
                let connecting = mgmt::connect_next(starting, true).0;
                mgmt::connect_next(connecting, false).0
            }
        }
    }
}

/// The ways to authenticate for a password where the SSID is text: they are tried in this order.
pub open spec fn wifi_methods(password: Seq<char>) -> Seq<AuthMethod> {
    if password.len() == 0 {
        seq![AuthMethod::Open]
    } else {
        seq![AuthMethod::WPAWPA2Personal, AuthMethod::WPA2WPA3Personal, AuthMethod::WEP]
    }
}

/// Where the SSID is text, a failure of the configuring or of the starting leads to the next way
/// to authenticate as well. An open network is connected to as soon as the driver is started.
pub proof fn lemma_wifi_tries_each_way(
    creds: WifiCredentialsView,
    rounds: nat,
    stopped: bool,
    failing: mgmt::ConnectPhase,
)
    requires
        rounds < wifi_methods(creds.password).len(),
    ensures
        ({
            let run = mgmt::connect_start(creds);
            let methods = wifi_methods(creds.password);
            let next = if rounds + 1 < methods.len() {
                mgmt::ConnectActionView::Stop
            } else {
                mgmt::ConnectActionView::Finish { connected: false }
            };
            let at = wifi_after(run, rounds, stopped, failing);
            let (configuring, configure) = mgmt::connect_next(at, stopped);
            let (starting, start) = mgmt::connect_next(configuring, true);
            let (connecting, connect) = mgmt::connect_next(starting, true);
            &&& configure == (mgmt::ConnectActionView::SetConfiguration {
                ssid: creds.ssid,
                auth_method: methods[rounds as int],
                password: creds.password,
            })
            &&& start == mgmt::ConnectActionView::Start
            &&& mgmt::connect_next(configuring, false).1 == next
            &&& mgmt::connect_next(starting, false).1 == next
            &&& if creds.password.len() == 0 {
                connect == (mgmt::ConnectActionView::Finish { connected: true })
            } else {
                &&& connect == mgmt::ConnectActionView::Connect
                &&& mgmt::connect_next(connecting, true).1 == (mgmt::ConnectActionView::Finish {
                    connected: true,
                })
                &&& mgmt::connect_next(connecting, false).1 == next
            }
        }),
{
    lemma_wifi_after(mgmt::connect_start(creds), rounds, stopped, failing);
}

proof fn lemma_wifi_after(
    run: mgmt::WifiConnectView,
    rounds: nat,
    stopped: bool,
    failing: mgmt::ConnectPhase,
)
    requires
        run.attempt == 0,
        run.phase == mgmt::ConnectPhase::Stopping,
        rounds < wifi_methods(run.creds.password).len(),
    ensures
        wifi_after(run, rounds, stopped, failing) == (mgmt::WifiConnectView {
            attempt: rounds,
            ..run
        }),
    decreases rounds,
{
    if rounds > 0 {
        lemma_wifi_after(run, (rounds - 1) as nat, stopped, failing);
    }
}

/// Where the SSID is text, the attempt ends with a connection exactly when the driver succeeds to
/// connect, or to start for a network without a password.
pub proof fn lemma_wifi_success_is_success(run: mgmt::WifiConnectView, succeeded: bool)
    requires
        run.attempt < wifi_methods(run.creds.password).len(),
    ensures
        mgmt::connect_next(run, succeeded).1 == (mgmt::ConnectActionView::Finish {
            connected: true,
        }) <==> succeeded && (run.phase == mgmt::ConnectPhase::Connecting || run.phase
            == mgmt::ConnectPhase::Starting && run.creds.password.len() == 0),
        mgmt::connect_next(run, succeeded).0.creds == run.creds,
{
}

/// A driver is told to scan only once it is known to be started, and to be configured only where
/// it is no client yet; it is started only where it is not. A failure matters everywhere but where
/// the configuration is looked at and where the driver is stopped.
pub proof fn lemma_scan_steps(action: ScanAction, answer: Option<bool>)
    ensures
        scan_next(action, answer) == Ok::<Option<ScanAction>, ErrorCode>(None) <==> action
            == ScanAction::Scan && answer is Some,
        scan_next(action, answer) == Ok::<Option<ScanAction>, ErrorCode>(Some(ScanAction::Scan))
            <==> (action == ScanAction::IsStarted && answer == Some(true)) || (action
            == ScanAction::Start && answer is Some),
        scan_next(action, answer) == Ok::<Option<ScanAction>, ErrorCode>(Some(ScanAction::Start))
            <==> action == ScanAction::IsStarted && answer == Some(false),
        scan_next(action, answer) == Ok::<Option<ScanAction>, ErrorCode>(
            Some(ScanAction::IsStarted),
        ) <==> (action == ScanAction::GetConfiguration && answer == Some(true)) || (action
            == ScanAction::SetConfiguration && answer is Some),
        scan_next(action, answer) == Ok::<Option<ScanAction>, ErrorCode>(
            Some(ScanAction::SetConfiguration),
        ) <==> action == ScanAction::Stop,
        scan_next(action, answer) == Ok::<Option<ScanAction>, ErrorCode>(Some(ScanAction::Stop))
            <==> action == ScanAction::GetConfiguration && answer != Some(true),
        scan_next(action, answer) is Err <==> answer is None && action
            != ScanAction::GetConfiguration && action != ScanAction::Stop,
        scan_next(action, answer) matches Err(code) ==> code == ErrorCode::NoNetworkInterface,
{
}

/// The results of a scan come in the order of the access points: those of the first ones come
/// before those of the others.
pub proof fn lemma_scan_results_in_order(
    wanted: Option<Seq<u8>>,
    first: Seq<AccessPointView>,
    others: Seq<AccessPointView>,
)
    ensures
        scan_results(wanted, first + others) == scan_results(wanted, first) + scan_results(
            wanted,
            others,
        ),
    decreases others.len(),
{
    if others.len() == 0 {
        assert(first + others =~= first);
        assert(scan_results(wanted, first) + scan_results(wanted, others) =~= scan_results(
            wanted,
            first,
        ));
    } else {
        lemma_scan_results_in_order(wanted, first, others.drop_last());
        assert((first + others).drop_last() =~= first + others.drop_last());
        assert((first + others).last() == others.last());
        assert(scan_results(wanted, first + others) =~= scan_results(wanted, first)
            + scan_results(wanted, others));
    }
}

/// An access point is reported exactly when all networks, or its own, are scanned for. The report
/// says what is known of it.
pub proof fn lemma_scan_result_of_one(wanted: Option<Seq<u8>>, ap: AccessPointView)
    ensures
        wanted is None || wanted == Some(ap.ssid) ==> {
            let results = scan_results(wanted, seq![ap]);
            &&& results.len() == 1
            &&& results[0].ssid == ap.ssid
            &&& results[0].bssid == ap.bssid
            &&& results[0].channel == ap.channel
            &&& results[0].rssi == Some(ap.signal_strength)
            &&& results[0].band == Some(WifiBand::B2G4)
            &&& results[0].security == security_of(ap.auth_method)
        },
        wanted is Some && wanted != Some(ap.ssid) ==> scan_results(wanted, seq![ap]).len() == 0,
{
    reveal_with_fuel(scan_results, 2);
    assert(seq![ap].drop_last() =~= Seq::<AccessPointView>::empty());
}

/// Without access points there are no results.
pub proof fn lemma_scan_results_of_none(wanted: Option<Seq<u8>>)
    ensures
        scan_results(wanted, Seq::empty()) == Seq::<WifiScanResultView>::empty(),
{
}

/// The reports are just the results, each at its place.
pub proof fn lemma_reports(
    network_id: Option<&WifiSsid>,
    reports: Seq<Option<WifiScanResult>>,
    results: Seq<WifiScanResultView>,
    i: int,
)
    requires
        reports_results(reports, results),
        0 <= i < reports.len() || 0 <= i < results.len(),
    ensures
        i < reports.len() && i < results.len(),
        reports[i] is Some,
        reports[i]->Some_0.ssid@ == results[i].ssid,
        reports[i]->Some_0.bssid@ == results[i].bssid,
        reports[i]->Some_0.channel == results[i].channel,
        reports[i]->Some_0.rssi == results[i].rssi,
        reports[i]->Some_0.band == results[i].band,
        reports[i]->Some_0.security == results[i].security,
        network_id matches Some(id) ==> wanted_ssid(network_id) == Some(id@),
        network_id is None ==> wanted_ssid(network_id) is None,
{
}

/// There is a connection to a network only if the driver says so, and then to the one that the
/// driver is configured for. A driver that fails to answer what it has to be asked is an error.
pub proof fn lemma_network_in_use(ssid: WifiSsid, connected: Option<bool>)
    ensures
        network_in_use(Some(WifiConfiguration::Client { ssid }), Some(true)) == Ok::<
            Option<WifiSsid>,
            ErrorCode,
        >(Some(ssid)),
        network_in_use(Some(WifiConfiguration::Client { ssid }), Some(false)) == Ok::<
            Option<WifiSsid>,
            ErrorCode,
        >(None),
        network_in_use(Some(WifiConfiguration::Client { ssid }), None) == Err::<
            Option<WifiSsid>,
            ErrorCode,
        >(ErrorCode::NoNetworkInterface),
        network_in_use(Some(WifiConfiguration::Other), connected) == Ok::<
            Option<WifiSsid>,
            ErrorCode,
        >(None),
        network_in_use(None, connected) == Err::<Option<WifiSsid>, ErrorCode>(
            ErrorCode::NoNetworkInterface,
        ),
{
}

/// Which security modes a network has: each one exactly for certain ways to authenticate, and WPA2
/// also for those that are not known or have no mode of their own.
pub proof fn lemma_security_modes(auth_method: Option<AuthMethod>)
    ensures
        ({
            let security = security_of(auth_method);
            &&& security.unencrypted <==> auth_method == Some(AuthMethod::Open)
            &&& security.wep <==> auth_method == Some(AuthMethod::WEP)
            &&& security.wpa_personal <==> auth_method == Some(AuthMethod::WPA) || auth_method
                == Some(AuthMethod::WPAWPA2Personal)
            &&& security.wpa3_personal <==> auth_method == Some(AuthMethod::WPA2WPA3Personal)
            &&& security.wpa2_personal <==> auth_method != Some(AuthMethod::Open) && auth_method
                != Some(AuthMethod::WEP) && auth_method != Some(AuthMethod::WPA)
        }),
{
}

} // verus!
