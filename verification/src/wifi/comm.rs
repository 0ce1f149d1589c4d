//! Wifi network commissioning cluster.

use vstd::prelude::*;
use vstd::utf8::{decode_utf8, valid_utf8};

use crate::error::ErrorCode;
use crate::wifi::{WifiContext, WifiCredentials, WifiCredentialsView, WifiName, WifiTextData};
use crate::wireless::comm::{
    add_network, added, asked_for, attr_value, edited, read_attribute, remove_network, removed,
    reorder_network, reordered, replied, AttrReply, Command, CommandView,
    ConnectNetworkRequest, ConnectNetworkResponse, Dataver, NetworkConfigResponse,
    RemoveNetworkRequest, ReorderNetworkRequest,
};
use crate::wireless::store::{NetworkCommissioningStatus, NetworkContextView, NetworkStateView};
use crate::wireless::traits::{
    AddWifiNetworkRequest, NetworkCredentials, NetworkId, MAX_PASSWORD_LEN, MAX_SSID_LEN,
};

verus! {

/// Whether the bytes are the text of an SSID.
pub open spec fn is_ssid(bytes: Seq<u8>) -> bool {
    valid_utf8(bytes) && bytes.len() <= MAX_SSID_LEN
}

/// Whether the bytes are the text of a password.
pub open spec fn is_password(bytes: Seq<u8>) -> bool {
    valid_utf8(bytes) && bytes.len() <= MAX_PASSWORD_LEN
}

/// What a command leads to.
#[derive(Debug)]
pub enum WifiReply {
    /// The reply to a command that changes the list of networks.
    Config(NetworkConfigResponse),
    /// The reply to a command to connect to a network.
    Connect(ConnectNetworkResponse),
}

/// A cluster implementing the Matter Network Commissioning Cluster
/// for managing WiFi networks.
pub struct WifiNwCommCluster {
    data_ver: Dataver,
}

impl View for WifiNwCommCluster {
    type V = Dataver;

    closed spec fn view(&self) -> Dataver {
        self.data_ver
    }
}

/// The context after a request to connect to the network with the given ID.
pub open spec fn connect_requested(
    context: NetworkContextView<WifiCredentialsView>,
    id: Seq<u8>,
) -> NetworkContextView<WifiCredentialsView> {
    NetworkContextView {
        state: NetworkStateView { connect_requested: Some(id), changed: true, ..context.state },
        state_changed: true,
        ..context
    }
}

/// Why a command cannot be carried out, if it cannot: networks are not scanned for, and there are
/// no Thread networks.
pub open spec fn unsupported(cmd: CommandView) -> Option<ErrorCode> {
    match cmd {
        CommandView::ScanNetworks { .. } => Some(ErrorCode::Busy),
        CommandView::AddOrUpdateThreadNetwork { .. } => Some(ErrorCode::CommandNotFound),
        _ => None,
    }
}

impl WifiNwCommCluster {
    /// Create a new instance.
    pub fn new(data_ver: Dataver) -> (res: Self)
        ensures
            res@ == data_ver,
    {
        Self { data_ver }
    }

    /// The version of the data.
    pub fn data_ver(&self) -> (res: Dataver)
        ensures
            res == self@,
    {
        self.data_ver
    }

    /// Read an attribute.
    ///
    /// `up_to_date` tells that the reader already has this version of the data, `system` that
    /// the attribute is one that every cluster has.
    pub fn read<const N: usize>(
        &self,
        networks: &WifiContext<N>,
        up_to_date: bool,
        system: bool,
        attr_id: u32,
    ) -> (res: Result<AttrReply, ErrorCode>)
        ensures
            match attr_value::<WifiCredentials>(
                networks@.state,
                N as u8,
                true,
                up_to_date,
                system,
                attr_id,
            ) {
                Some(value) => res is Ok && res->Ok_0@ == value,
                None => res is Err && res->Err_0 == ErrorCode::AttributeNotFound,
            },
    {
        read_attribute(&networks.context, up_to_date, system, attr_id)
    }

    /// Invoke a command.
    ///
    /// The SSIDs and the passwords in it have to be text that is not too long.
    pub fn invoke<const N: usize>(&self, networks: &mut WifiContext<N>, cmd: &Command) -> (res:
        Result<WifiReply, ErrorCode>)
        requires
            old(networks).wf(),
            match *cmd {
                Command::AddOrUpdateWifiNetwork(req) => is_ssid(req.ssid@) && is_password(
                    req.credentials@,
                ),
                Command::ConnectNetwork(req) => is_ssid(req.network_id@),
                _ => true,
            },
        ensures
            final(networks).wf(),
            match *cmd {
                Command::ScanNetworks(_) => {
                    &&& res is Err && res->Err_0 == ErrorCode::Busy
                    &&& final(networks)@ == old(networks)@
                },
                Command::AddOrUpdateThreadNetwork(_) => {
                    &&& res is Err && res->Err_0 == ErrorCode::CommandNotFound
                    &&& final(networks)@ == old(networks)@
                },
                Command::AddOrUpdateWifiNetwork(req) => {
                    let outcome = added::<WifiCredentials>(
                        old(networks)@.state.networks,
                        WifiCredentialsView {
                            ssid: decode_utf8(req.ssid@),
                            password: decode_utf8(req.credentials@),
                        },
                        N as nat,
                    );
                    &&& res is Ok && res->Ok_0 == WifiReply::Config(outcome.1)
                    &&& final(networks)@ == edited(old(networks)@, outcome)
                },
                Command::RemoveNetwork(req) => {
                    let outcome = removed::<WifiCredentials>(
                        old(networks)@.state.networks,
                        req.network_id@,
                    );
                    &&& res is Ok && res->Ok_0 == WifiReply::Config(outcome.1)
                    &&& final(networks)@ == edited(old(networks)@, outcome)
                },
                Command::ReorderNetwork(req) => {
                    let outcome = reordered::<WifiCredentials>(
                        old(networks)@.state.networks,
                        req.network_id@,
                        req.index,
                    );
                    &&& res is Ok && res->Ok_0 == WifiReply::Config(outcome.1)
                    &&& final(networks)@ == edited(old(networks)@, outcome)
                },
                Command::ConnectNetwork(req) => {
                    &&& res is Ok && res->Ok_0 == WifiReply::Connect(
                        ConnectNetworkResponse {
                            status: NetworkCommissioningStatus::Success,
                            error_value: 0,
                        },
                    )
                    &&& final(networks)@ == connect_requested(old(networks)@, req.network_id@)
                    &&& final(networks)@ == asked_for(old(networks)@, req.network_id@)
                },
            },
            match unsupported(cmd@) {
                Some(code) => {
                    &&& res is Err && res->Err_0 == code
                    &&& final(networks)@ == old(networks)@
                },
                None => res is Ok,
            },
    {
        match cmd {
            Command::ScanNetworks(_) => Err(ErrorCode::Busy),
            Command::AddOrUpdateWifiNetwork(req) => Ok(
                WifiReply::Config(self.add_network(networks, req)),
            ),
            Command::RemoveNetwork(req) => Ok(
                WifiReply::Config(self.remove_network(networks, req)),
            ),
            Command::ConnectNetwork(req) => Ok(
                WifiReply::Connect(self.connect_network(networks, req)),
            ),
            Command::ReorderNetwork(req) => Ok(
                WifiReply::Config(self.reorder_network(networks, req)),
            ),
            Command::AddOrUpdateThreadNetwork(_) => Err(ErrorCode::CommandNotFound),
        }
    }

    /// Add or update the network in the request.
    pub fn add_network<const N: usize>(
        &self,
        networks: &mut WifiContext<N>,
        req: &AddWifiNetworkRequest,
    ) -> (res: NetworkConfigResponse)
        requires
            old(networks).wf(),
            is_ssid(req.ssid@),
            is_password(req.credentials@),
        ensures
            final(networks).wf(),
            ({
                let outcome = added::<WifiCredentials>(
                    old(networks)@.state.networks,
                    WifiCredentialsView {
                        ssid: decode_utf8(req.ssid@),
                        password: decode_utf8(req.credentials@),
                    },
                    N as nat,
                );
                &&& res == outcome.1
                &&& final(networks)@ == edited(old(networks)@, outcome)
            }),
    {
        let network = <WifiCredentials as NetworkCredentials>::try_from_wifi(req).unwrap();
        add_network::<N, WifiTextData>(&mut networks.context, network)
    }

    /// Remove the network with the SSID in the request.
    pub fn remove_network<const N: usize>(
        &self,
        networks: &mut WifiContext<N>,
        req: &RemoveNetworkRequest,
    ) -> (res: NetworkConfigResponse)
        requires
            old(networks).wf(),
        ensures
            final(networks).wf(),
            ({
                let outcome = removed::<WifiCredentials>(
                    old(networks)@.state.networks,
                    req.network_id@,
                );
                &&& res == outcome.1
                &&& final(networks)@ == edited(old(networks)@, outcome)
            }),
    {
        remove_network(&mut networks.context, req.network_id.as_slice())
    }

    /// Ask for the network with the SSID in the request.
    ///
    /// The reply is a success: whether the device can use the network becomes apparent only
    /// later, once it switches over to Wifi.
    pub fn connect_network<const N: usize>(
        &self,
        networks: &mut WifiContext<N>,
        req: &ConnectNetworkRequest,
    ) -> (res: ConnectNetworkResponse)
        requires
            is_ssid(req.network_id@),
        ensures
            old(networks).wf() ==> final(networks).wf(),
            res == (ConnectNetworkResponse {
                status: NetworkCommissioningStatus::Success,
                error_value: 0,
            }),
            final(networks)@ == connect_requested(old(networks)@, req.network_id@),
            final(networks)@ == asked_for(old(networks)@, req.network_id@),
    {
        let ssid = <WifiName as NetworkId>::try_from(req.network_id.as_slice()).unwrap();
        networks.context.state.connect_requested = Some(ssid);
        networks.context.state.changed = true;
        networks.context.state_changed = true;
        ConnectNetworkResponse { status: NetworkCommissioningStatus::Success, error_value: 0 }
    }

    /// Notify of a connect request once its reply was written.
    pub fn connect_network_replied<const N: usize>(
        &self,
        networks: &mut WifiContext<N>,
        written: Result<(), ErrorCode>,
    ) -> (res: Result<(), ErrorCode>)
        ensures
            res == written,
            final(networks)@ == (NetworkContextView {
                network_connect_requested: old(networks)@.network_connect_requested
                    || written is Ok,
                ..old(networks)@
            }),
            final(networks)@ == replied(old(networks)@, written is Ok),
            old(networks).wf() ==> final(networks).wf(),
    {
        if written.is_ok() {
            networks.context.network_connect_requested = true;
        }
        written
    }

    /// Move the network with the SSID in the request.
    pub fn reorder_network<const N: usize>(
        &self,
        networks: &mut WifiContext<N>,
        req: &ReorderNetworkRequest,
    ) -> (res: NetworkConfigResponse)
        requires
            old(networks).wf(),
        ensures
            final(networks).wf(),
            ({
                let outcome = reordered::<WifiCredentials>(
                    old(networks)@.state.networks,
                    req.network_id@,
                    req.index,
                );
                &&& res == outcome.1
                &&& final(networks)@ == edited(old(networks)@, outcome)
            }),
    {
        reorder_network(&mut networks.context, req.network_id.as_slice(), req.index)
    }

    /// Take note of the outcome of a command: the data of the cluster has a new version once a
    /// command was carried out and replied to.
    pub fn invoked(&mut self, outcome: Result<(), ErrorCode>) -> (res: Result<(), ErrorCode>)
        ensures
            res == outcome,
            final(self)@ == (if outcome is Ok { old(self)@.next() } else { old(self)@ }),
            final(self)@ == old(self)@.after(outcome is Ok),
    {
        if outcome.is_ok() {
            self.data_ver.changed();
        }
        outcome
    }
}

} // verus!
