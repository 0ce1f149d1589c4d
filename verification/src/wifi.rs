//! Wifi networks whose SSIDs are text.

use vstd::prelude::*;
use vstd::utf8::{decode_utf8, encode_utf8, valid_utf8};

use crate::error::ErrorCode;
use crate::private::Sealed;
use crate::text::{
    string32_as_str, string32_chars, string32_clone, string32_try_from, string64_chars,
    string64_clone, string64_try_from, utf8_text,
};
use crate::wireless::store::{
    awaited_change, awaited_request, load_context, networks_view, new_context, stored_context,
    NetworkContext, NetworkContextView, NetworkStateView, StoredNetwork,
};
use crate::wireless::traits::{
    AddThreadNetworkRequest, AddWifiNetworkRequest, NetworkCredentials, NetworkId,
    WifiNwDiagData, WifiScanResult, WirelessData, MAX_PASSWORD_LEN, MAX_SSID_LEN,
};

pub mod comm;
pub mod mgmt;

verus! {

/// An SSID that is text. Its view is the UTF-8 encoding of the text.
#[derive(Debug)]
pub struct WifiName(pub heapless::String<32>);

impl View for WifiName {
    type V = Seq<u8>;

    open spec fn view(&self) -> Seq<u8> {
        encode_utf8(string32_chars(self.0))
    }
}

impl Sealed for WifiName {

}

impl NetworkId for WifiName {
    open spec fn refusal(bytes: Seq<u8>) -> Option<ErrorCode> {
        if !valid_utf8(bytes) || bytes.len() > MAX_SSID_LEN {
            Some(ErrorCode::InvalidData)
        } else {
            None
        }
    }

    fn try_from(bytes: &[u8]) -> (res: Result<Self, ErrorCode>) {
        match utf8_text(bytes) {
            Some(text) => {
                proof {
                    vstd::utf8::decode_utf8_encode_utf8(bytes@);
                }
                match string32_try_from(text) {
                    Ok(ssid) => Ok(WifiName(ssid)),
                    Err(_) => Err(ErrorCode::InvalidData),
                }
            },
            None => Err(ErrorCode::InvalidData),
        }
    }

    fn as_ref(&self) -> (bytes: &[u8]) {
        let text = string32_as_str(&self.0);
        proof {
            vstd::utf8::encode_utf8_valid_utf8(text@);
        }
        text.as_bytes()
    }

    fn duplicate(&self) -> (res: Self) {
        WifiName(string32_clone(&self.0))
    }
}

/// The contents of `WifiCredentials`.
pub struct WifiCredentialsView {
    pub ssid: Seq<char>,
    pub password: Seq<char>,
}

/// The credentials of a Wifi network whose SSID is text.
#[derive(Debug)]
pub struct WifiCredentials {
    pub ssid: heapless::String<32>,
    pub password: heapless::String<64>,
}

impl View for WifiCredentials {
    type V = WifiCredentialsView;

    open spec fn view(&self) -> WifiCredentialsView {
        WifiCredentialsView {
            ssid: string32_chars(self.ssid),
            password: string64_chars(self.password),
        }
    }
}

impl Sealed for WifiCredentials {

}

impl NetworkCredentials for WifiCredentials {
    type NetworkId = WifiName;

    open spec fn id_of(creds: WifiCredentialsView) -> Seq<u8> {
        encode_utf8(creds.ssid)
    }

    open spec fn of_wifi(ssid: Seq<u8>, credentials: Seq<u8>) -> Result<
        WifiCredentialsView,
        ErrorCode,
    > {
        if !valid_utf8(ssid) || ssid.len() > MAX_SSID_LEN || !valid_utf8(credentials)
            || credentials.len() > MAX_PASSWORD_LEN {
            Err(ErrorCode::InvalidData)
        } else {
            Ok(
                WifiCredentialsView {
                    ssid: decode_utf8(ssid),
                    password: decode_utf8(credentials),
                },
            )
        }
    }

    open spec fn of_thread(op_dataset: Seq<u8>) -> Result<WifiCredentialsView, ErrorCode> {
        Err(ErrorCode::CommandNotFound)
    }

    fn network_id(&self) -> (id: WifiName) {
        let ssid = string32_clone(&self.ssid);
        let id = WifiName(ssid);
        assert(id@ == encode_utf8(self@.ssid));
        id
    }

    fn duplicate(&self) -> (res: Self) {
        Self { ssid: string32_clone(&self.ssid), password: string64_clone(&self.password) }
    }

    fn try_from_wifi(req: &AddWifiNetworkRequest) -> (res: Result<Self, ErrorCode>) {
        proof {
            if valid_utf8(req.ssid@) {
                vstd::utf8::decode_utf8_encode_utf8(req.ssid@);
            }
            if valid_utf8(req.credentials@) {
                vstd::utf8::decode_utf8_encode_utf8(req.credentials@);
            }
        }
        match (utf8_text(req.ssid.as_slice()), utf8_text(req.credentials.as_slice())) {
            (Some(ssid), Some(password)) => match (
                string32_try_from(ssid),
                string64_try_from(password),
            ) {
                (Ok(ssid), Ok(password)) => Ok(Self { ssid, password }),
                _ => Err(ErrorCode::InvalidData),
            },
            _ => Err(ErrorCode::InvalidData),
        }
    }

    fn try_from_thread(_req: &AddThreadNetworkRequest) -> (res: Result<Self, ErrorCode>) {
        Err(ErrorCode::CommandNotFound)
    }
}

/// The data of Wifi networks whose SSIDs are text.
#[derive(Debug)]
pub struct WifiTextData;

impl Sealed for WifiTextData {

}

impl WirelessData for WifiTextData {
    type NetworkCredentials = WifiCredentials;

    type ScanResult = WifiScanResult;

    type Stats = Option<WifiNwDiagData>;

    const WIFI: bool = true;

    open spec fn no_stats() -> Option<WifiNwDiagData> {
        None
    }

    fn default_stats() -> (res: Option<WifiNwDiagData>) {
        None
    }
}

/// How long to wait after a connect request before Wifi takes over from BLE, in seconds: any
/// outstanding messages may still be exchanged over BLE in that time.
pub const SWITCH_DELAY_SECS: u64 = 4;

/// The number of Wifi networks that a device keeps.
pub const MAX_WIFI_NETWORKS: usize = 2;

/// The state of the Wifi module.
pub struct WifiContext<const N: usize> {
    pub context: NetworkContext<N, WifiTextData>,
}

impl<const N: usize> View for WifiContext<N> {
    type V = NetworkContextView<WifiCredentialsView>;

    open spec fn view(&self) -> NetworkContextView<WifiCredentialsView> {
        self.context@
    }
}

impl<const N: usize> WifiContext<N> {
    /// The state is well-formed.
    pub open spec fn wf(&self) -> bool {
        self.context.wf()
    }

    /// Create a new instance.
    pub fn new() -> (res: Self)
        ensures
            res.wf(),
            res@ == (NetworkContextView {
                state: NetworkStateView::<WifiCredentialsView>::empty(),
                state_changed: false,
                concurrent_connection: false,
                network_connect_requested: false,
            }),
            res@ == new_context::<WifiCredentialsView>(),
    {
        Self { context: NetworkContext::new() }
    }

    /// Reset the state.
    pub fn reset(&mut self)
        ensures
            final(self).wf(),
            final(self)@ == (NetworkContextView {
                state: NetworkStateView::<WifiCredentialsView>::empty(),
                ..old(self)@
            }),
    {
        self.context.reset();
    }

    /// Load the state from the stored networks.
    pub fn load(&mut self, stored: &Result<Vec<StoredNetwork<WifiCredentials>>, ErrorCode>) -> (res:
        Result<(), ErrorCode>)
        ensures
            load_context(old(self)@, *stored, N as nat) == (final(self)@, res),
            stored is Ok ==> final(self).wf(),
    {
        self.context.load(stored)
    }

    /// The networks to be stored, where they have changed.
    pub fn to_store(&self) -> (res: Option<&Vec<WifiCredentials>>)
        ensures
            match res {
                Some(networks) => self@.state.changed && networks_view(networks@)
                    == self@.state.networks,
                None => !self@.state.changed,
            },
    {
        if self.context.state.changed {
            Some(self.context.state.to_store())
        } else {
            None
        }
    }

    /// Take note of whether the networks could be written: `written` is the number of bytes that
    /// they took. Networks that have not changed are not written at all.
    pub fn store(&mut self, written: Result<usize, ErrorCode>) -> (res: Result<
        Option<usize>,
        ErrorCode,
    >)
        ensures
            if !old(self)@.state.changed {
                &&& res == Ok::<Option<usize>, ErrorCode>(None)
                &&& final(self)@ == old(self)@
            } else {
                match written {
                    Ok(len) => {
                        &&& res == Ok::<Option<usize>, ErrorCode>(Some(len))
                        &&& final(self)@ == (NetworkContextView {
                            state: NetworkStateView { changed: false, ..old(self)@.state },
                            ..old(self)@
                        })
                    },
                    Err(code) => {
                        &&& res == Err::<Option<usize>, ErrorCode>(code)
                        &&& final(self)@ == old(self)@
                    },
                }
            },
            final(self)@ == stored_context(old(self)@, written is Ok),
            old(self).wf() ==> final(self).wf(),
    {
        if !self.context.state.changed {
            return Ok(None);
        }
        match self.context.state.store(written) {
            Ok(len) => Ok(Some(len)),
            Err(code) => Err(code),
        }
    }

    /// Return `true` if the state has changed.
    pub fn is_changed(&self) -> (res: bool)
        ensures
            res == self@.state.changed,
    {
        self.context.changed()
    }

    /// Return `true` if a network has been asked for and not been tried yet.
    pub fn is_network_connect_requested(&self) -> (res: bool)
        ensures
            res == (self@.state.connect_requested is Some),
    {
        self.context.is_network_activated()
    }

    /// One round of waiting until signalled that a network connect request was issued during
    /// commissioning: when the wait is over, the number of seconds that BLE has for any
    /// outstanding messages; otherwise the next notification has to be awaited.
    ///
    /// Typically, this is a signal that the BLE/BTP transport should be teared down and
    /// the Wifi transport should be brought up.
    pub fn wait_network_connect(&mut self) -> (res: Option<u64>)
        ensures
            res == (if old(self)@.state.connect_requested is Some {
                Some(SWITCH_DELAY_SECS)
            } else {
                None
            }),
            final(self)@ == (NetworkContextView {
                network_connect_requested: old(self)@.network_connect_requested && res is Some,
                ..old(self)@
            }),
            (final(self)@, res is Some) == awaited_request(old(self)@),
            old(self).wf() ==> final(self).wf(),
    {
        if self.context.wait_network_activated() {
            Some(SWITCH_DELAY_SECS)
        } else {
            None
        }
    }

    /// One round of waiting until the state has changed: `true` when the wait is over, `false`
    /// when the next notification has to be awaited.
    pub fn wait_state_changed(&mut self) -> (ready: bool)
        ensures
            ready == old(self)@.state.changed,
            final(self)@ == (NetworkContextView {
                state_changed: old(self)@.state_changed && ready,
                ..old(self)@
            }),
            (final(self)@, ready) == awaited_change(old(self)@),
            old(self).wf() ==> final(self).wf(),
    {
        self.context.wait_state_changed()
    }
}

impl<const N: usize> Default for WifiContext<N> {
    fn default() -> (res: Self)
        ensures
            res.wf(),
            res@ == (NetworkContextView {
                state: NetworkStateView::<WifiCredentialsView>::empty(),
                state_changed: false,
                concurrent_connection: false,
                network_connect_requested: false,
            }),
            res@ == new_context::<WifiCredentialsView>(),
    {
        Self::new()
    }
}

} // verus!
