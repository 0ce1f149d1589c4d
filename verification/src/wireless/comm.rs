//! Wireless network commissioning cluster.

use vstd::prelude::*;
use vstd::slice::slice_to_vec;

use crate::bytes::bytes_eq;
use crate::error::ErrorCode;
use crate::wireless::store::{
    distinct_ids, find, lemma_position, position, NetworkCommissioningStatus,
    NetworkContext, NetworkContextView, NetworkStateView, NetworkStatusView,
};
use crate::wireless::traits::{
    AddThreadNetworkRequest, AddWifiNetworkRequest, NetworkCredentials, NetworkId, WirelessData,
};

verus! {

/// A version of the data of a cluster, which differs from the one before it.
#[derive(Debug, Clone, Copy, PartialEq, Eq, Structural)]
pub struct Dataver(pub u32);

impl Dataver {
    /// The version that follows this one.
    pub open spec fn next(self) -> Self {
        Dataver(if self.0 == u32::MAX { 0 } else { (self.0 + 1) as u32 })
    }

    /// The version after something was tried that makes for a new one if it is `done`.
    pub open spec fn after(self, done: bool) -> Self {
        if done {
            self.next()
        } else {
            self
        }
    }

    /// Move on to the next version.
    pub fn changed(&mut self)
        ensures
            *final(self) == old(self).next(),
    {
        self.0 = if self.0 == u32::MAX {
            0
        } else {
            self.0 + 1
        };
    }
}

/// A version differs from the one before it.
pub proof fn lemma_version_differs(data_ver: Dataver)
    ensures
        data_ver.next() != data_ver,
{
}

/// The attributes of the Network Commissioning Cluster.
#[derive(Debug, Clone, Copy, PartialEq, Eq, Structural)]
pub enum Attributes {
    MaxNetworks,
    Networks,
    ScanMaxTimeSecs,
    ConnectMaxTimeSecs,
    InterfaceEnabled,
    LastNetworkingStatus,
    LastNetworkID,
    LastConnectErrorValue,
}

impl Attributes {
    /// The attribute with the given ID.
    pub open spec fn of_id(id: u32) -> Option<Self> {
        if id == 0 {
            Some(Attributes::MaxNetworks)
        } else if id == 1 {
            Some(Attributes::Networks)
        } else if id == 2 {
            Some(Attributes::ScanMaxTimeSecs)
        } else if id == 3 {
            Some(Attributes::ConnectMaxTimeSecs)
        } else if id == 4 {
            Some(Attributes::InterfaceEnabled)
        } else if id == 5 {
            Some(Attributes::LastNetworkingStatus)
        } else if id == 6 {
            Some(Attributes::LastNetworkID)
        } else if id == 7 {
            Some(Attributes::LastConnectErrorValue)
        } else {
            None
        }
    }

    /// The attribute with the given ID.
    pub fn try_from(id: u32) -> (res: Result<Self, ErrorCode>)
        ensures
            res == Self::of_id(id).ok_or(ErrorCode::AttributeNotFound),
    {
        match id {
            0 => Ok(Attributes::MaxNetworks),
            1 => Ok(Attributes::Networks),
            2 => Ok(Attributes::ScanMaxTimeSecs),
            3 => Ok(Attributes::ConnectMaxTimeSecs),
            4 => Ok(Attributes::InterfaceEnabled),
            5 => Ok(Attributes::LastNetworkingStatus),
            6 => Ok(Attributes::LastNetworkID),
            7 => Ok(Attributes::LastConnectErrorValue),
            _ => Err(ErrorCode::AttributeNotFound),
        }
    }
}

/// The commands of the Network Commissioning Cluster.
#[derive(Debug, Clone, Copy, PartialEq, Eq, Structural)]
pub enum Commands {
    ScanNetworks,
    AddOrUpdateWifiNetwork,
    AddOrUpdateThreadNetwork,
    RemoveNetwork,
    ConnectNetwork,
    ReorderNetwork,
}

impl Commands {
    /// The command with the given ID.
    pub open spec fn of_id(id: u32) -> Option<Self> {
        if id == 0 {
            Some(Commands::ScanNetworks)
        } else if id == 2 {
            Some(Commands::AddOrUpdateWifiNetwork)
        } else if id == 3 {
            Some(Commands::AddOrUpdateThreadNetwork)
        } else if id == 4 {
            Some(Commands::RemoveNetwork)
        } else if id == 6 {
            Some(Commands::ConnectNetwork)
        } else if id == 8 {
            Some(Commands::ReorderNetwork)
        } else {
            None
        }
    }

    /// The command with the given ID.
    pub fn try_from(id: u32) -> (res: Result<Self, ErrorCode>)
        ensures
            res == Self::of_id(id).ok_or(ErrorCode::CommandNotFound),
    {
        match id {
            0 => Ok(Commands::ScanNetworks),
            2 => Ok(Commands::AddOrUpdateWifiNetwork),
            3 => Ok(Commands::AddOrUpdateThreadNetwork),
            4 => Ok(Commands::RemoveNetwork),
            6 => Ok(Commands::ConnectNetwork),
            8 => Ok(Commands::ReorderNetwork),
            _ => Err(ErrorCode::CommandNotFound),
        }
    }
}

/// A request to scan for networks, or for the one with the given SSID.
#[derive(Debug)]
pub struct ScanNetworksRequest {
    pub ssid: Option<Vec<u8>>,
}

/// A request to forget a network.
#[derive(Debug)]
pub struct RemoveNetworkRequest {
    pub network_id: Vec<u8>,
}

/// A request to connect to a network.
#[derive(Debug)]
pub struct ConnectNetworkRequest {
    pub network_id: Vec<u8>,
}

/// A request to move a network to another place in the order of preference.
#[derive(Debug)]
pub struct ReorderNetworkRequest {
    pub network_id: Vec<u8>,
    pub index: u8,
}

/// The reply to a request that changes the list of networks.
#[derive(Debug, Clone, Copy, PartialEq, Eq, Structural)]
pub struct NetworkConfigResponse {
    pub status: NetworkCommissioningStatus,
    pub network_index: Option<u8>,
}

/// The reply to a request to connect to a network.
#[derive(Debug, Clone, Copy, PartialEq, Eq, Structural)]
pub struct ConnectNetworkResponse {
    pub status: NetworkCommissioningStatus,
    pub error_value: i32,
}

/// The networks and the reply after a request to add a network, with room for `room` networks:
/// a network with a known ID takes the place of the old one, any other goes to the end.
pub open spec fn added<C: NetworkCredentials>(
    networks: Seq<C::V>,
    creds: C::V,
    room: nat,
) -> (Seq<C::V>, NetworkConfigResponse) {
    match position::<C>(networks, C::id_of(creds)) {
        Some(i) => (
            networks.update(i, creds),
            NetworkConfigResponse {
                status: NetworkCommissioningStatus::Success,
                network_index: Some(i as u8),
            },
        ),
        None => if networks.len() < room {
            (
                networks.push(creds),
                NetworkConfigResponse {
                    status: NetworkCommissioningStatus::Success,
                    network_index: Some(networks.len() as u8),
                },
            )
        } else {
            (
                networks,
                NetworkConfigResponse {
                    status: NetworkCommissioningStatus::BoundsExceeded,
                    network_index: None,
                },
            )
        },
    }
}

/// The networks and the reply after a request to remove a network.
pub open spec fn removed<C: NetworkCredentials>(networks: Seq<C::V>, id: Seq<u8>) -> (
    Seq<C::V>,
    NetworkConfigResponse,
) {
    match position::<C>(networks, id) {
        Some(i) => (
            networks.remove(i),
            NetworkConfigResponse {
                status: NetworkCommissioningStatus::Success,
                network_index: Some(i as u8),
            },
        ),
        None => (
            networks,
            NetworkConfigResponse {
                status: NetworkCommissioningStatus::NetworkIdNotFound,
                network_index: None,
            },
        ),
    }
}

/// The networks and the reply after a request to move a network to the position `index`.
pub open spec fn reordered<C: NetworkCredentials>(
    networks: Seq<C::V>,
    id: Seq<u8>,
    index: u8,
) -> (Seq<C::V>, NetworkConfigResponse) {
    match position::<C>(networks, id) {
        Some(i) => if index < networks.len() as u8 {
            (
                networks.remove(i).insert(index as int, networks[i]),
                NetworkConfigResponse {
                    status: NetworkCommissioningStatus::Success,
                    network_index: Some(index),
                },
            )
        } else {
            (
                networks,
                NetworkConfigResponse {
                    status: NetworkCommissioningStatus::OutOfRange,
                    network_index: Some(index),
                },
            )
        },
        None => (
            networks,
            NetworkConfigResponse {
                status: NetworkCommissioningStatus::NetworkIdNotFound,
                network_index: None,
            },
        ),
    }
}

/// The context after a request that gave the networks and the reply in `outcome`: a request
/// that was met changes the state and notifies of it, a refused one changes nothing.
pub open spec fn edited<C>(
    context: NetworkContextView<C>,
    outcome: (Seq<C>, NetworkConfigResponse),
) -> NetworkContextView<C> {
    if outcome.1.status == NetworkCommissioningStatus::Success {
        NetworkContextView {
            state: NetworkStateView { networks: outcome.0, changed: true, ..context.state },
            state_changed: true,
            ..context
        }
    } else {
        context
    }
}

/// The context after the network with the given ID was asked for.
pub open spec fn asked_for<C>(context: NetworkContextView<C>, id: Seq<u8>) -> NetworkContextView<
    C,
> {
    NetworkContextView {
        state: NetworkStateView { connect_requested: Some(id), changed: true, ..context.state },
        state_changed: true,
        ..context
    }
}

/// The context after the reply to a request for a network was written, or could not be.
pub open spec fn replied<C>(context: NetworkContextView<C>, written: bool) -> NetworkContextView<
    C,
> {
    NetworkContextView {
        network_connect_requested: context.network_connect_requested || written,
        ..context
    }
}

/// The position of a network as the replies give it: the lowest eight bits.
fn reply_index(index: usize) -> (res: u8)
    ensures
        res == index as u8,
        res <= index,
{
    assert(index as u8 <= index) by (bit_vector);
    #[verifier::truncate]
    (index as u8)
}

/// Add a network, or update the one with the same ID.
pub fn add_network<const N: usize, T: WirelessData>(
    networks: &mut NetworkContext<N, T>,
    network: T::NetworkCredentials,
) -> (res: NetworkConfigResponse)
    requires
        old(networks).wf(),
    ensures
        final(networks).wf(),
        res == added::<T::NetworkCredentials>(
            old(networks)@.state.networks,
            network@,
            N as nat,
        ).1,
        final(networks)@ == edited(
            old(networks)@,
            added::<T::NetworkCredentials>(
                old(networks)@.state.networks,
                network@,
                N as nat,
            ),
        ),
{
    let network_id = network.network_id();
    let ghost before = networks.state@.networks;
    let ghost creds = network@;
    proof {
        lemma_position::<T::NetworkCredentials>(before, network_id@);
    }
    match find(&networks.state.networks, network_id.as_ref()) {
        Some(index) => {
            // Update
            networks.state.networks.set(index, network);
            networks.state.changed = true;
            networks.state_changed = true;
            assert(networks.state@.networks =~= before.update(index as int, creds));
            NetworkConfigResponse {
                status: NetworkCommissioningStatus::Success,
                network_index: Some(reply_index(index)),
            }
        },
        None => {
            // Add
            let len: usize = networks.state.networks.len();
            if len < N {
                networks.state.networks.push(network);
                networks.state.changed = true;
                networks.state_changed = true;
                assert(networks.state@.networks =~= before.push(creds));
                NetworkConfigResponse {
                    status: NetworkCommissioningStatus::Success,
                    network_index: Some(reply_index(len)),
                }
            } else {
                NetworkConfigResponse {
                    status: NetworkCommissioningStatus::BoundsExceeded,
                    network_index: None,
                }
            }
        },
    }
}

/// Remove the network with the given ID.
pub fn remove_network<const N: usize, T: WirelessData>(
    networks: &mut NetworkContext<N, T>,
    network_id: &[u8],
) -> (res: NetworkConfigResponse)
    requires
        old(networks).wf(),
    ensures
        final(networks).wf(),
        res == removed::<T::NetworkCredentials>(old(networks)@.state.networks, network_id@).1,
        final(networks)@ == edited(
            old(networks)@,
            removed::<T::NetworkCredentials>(old(networks)@.state.networks, network_id@),
        ),
{
    let ghost before = networks.state@.networks;
    proof {
        lemma_position::<T::NetworkCredentials>(before, network_id@);
    }
    match find(&networks.state.networks, network_id) {
        Some(index) => {
            // Found
            networks.state.networks.remove(index);
            networks.state.changed = true;
            networks.state_changed = true;
            assert(networks.state@.networks =~= before.remove(index as int));
            NetworkConfigResponse {
                status: NetworkCommissioningStatus::Success,
                network_index: Some(reply_index(index)),
            }
        },
        None => {
            // Not found
            NetworkConfigResponse {
                status: NetworkCommissioningStatus::NetworkIdNotFound,
                network_index: None,
            }
        },
    }
}

/// Move the network with the given ID to the position `to`.
pub fn reorder_network<const N: usize, T: WirelessData>(
    networks: &mut NetworkContext<N, T>,
    network_id: &[u8],
    to: u8,
) -> (res: NetworkConfigResponse)
    requires
        old(networks).wf(),
    ensures
        final(networks).wf(),
        res == reordered::<T::NetworkCredentials>(
            old(networks)@.state.networks,
            network_id@,
            to,
        ).1,
        final(networks)@ == edited(
            old(networks)@,
            reordered::<T::NetworkCredentials>(old(networks)@.state.networks, network_id@, to),
        ),
{
    let ghost before = networks.state@.networks;
    proof {
        lemma_position::<T::NetworkCredentials>(before, network_id@);
    }
    match find(&networks.state.networks, network_id) {
        Some(index) => {
            // Found
            let len: usize = networks.state.networks.len();
            if to < reply_index(len) {
                let conf = networks.state.networks.remove(index);
                networks.state.networks.insert(to as usize, conf);
                networks.state.changed = true;
                networks.state_changed = true;
                assert(networks.state@.networks =~= before.remove(index as int).insert(
                    to as int,
                    before[index as int],
                ));
                NetworkConfigResponse {
                    status: NetworkCommissioningStatus::Success,
                    network_index: Some(to),
                }
            } else {
                NetworkConfigResponse {
                    status: NetworkCommissioningStatus::OutOfRange,
                    network_index: Some(to),
                }
            }
        },
        None => {
            // Not found
            NetworkConfigResponse {
                status: NetworkCommissioningStatus::NetworkIdNotFound,
                network_index: None,
            }
        },
    }
}

/// Read an attribute.
///
/// `up_to_date` tells that the reader already has this version of the data, `system` that
/// the attribute is one that every cluster has.
pub fn read_attribute<const N: usize, T: WirelessData>(
    networks: &NetworkContext<N, T>,
    up_to_date: bool,
    system: bool,
    attr_id: u32,
) -> (res: Result<AttrReply, ErrorCode>)
    ensures
        match attr_value::<T::NetworkCredentials>(
            networks@.state,
            N as u8,
            T::WIFI,
            up_to_date,
            system,
            attr_id,
        ) {
            Some(value) => res is Ok && res->Ok_0@ == value,
            None => res is Err && res->Err_0 == ErrorCode::AttributeNotFound,
        },
{
    if up_to_date {
        return Ok(AttrReply::UpToDate);
    }
    if system {
        return Ok(AttrReply::System { wifi: T::WIFI });
    }
    match Attributes::try_from(attr_id) {
        Err(code) => Err(code),
        Ok(Attributes::MaxNetworks) => Ok(AttrReply::Number(reply_index(N))),
        Ok(Attributes::Networks) => Ok(AttrReply::Networks(network_infos(networks))),
        Ok(Attributes::ScanMaxTimeSecs) => Ok(AttrReply::Number(SCAN_MAX_TIME_SECS)),
        Ok(Attributes::ConnectMaxTimeSecs) => Ok(AttrReply::Number(CONNECT_MAX_TIME_SECS)),
        Ok(Attributes::InterfaceEnabled) => Ok(AttrReply::Flag(true)),
        Ok(Attributes::LastNetworkingStatus) => Ok(
            AttrReply::Status(
                match &networks.state.status {
                    Some(status) => Some(status.status.code()),
                    None => None,
                },
            ),
        ),
        Ok(Attributes::LastNetworkID) => Ok(
            AttrReply::NetworkId(
                match &networks.state.status {
                    Some(status) => Some(slice_to_vec(status.network_id.as_ref())),
                    None => None,
                },
            ),
        ),
        Ok(Attributes::LastConnectErrorValue) => Ok(
            AttrReply::ErrorValue(
                match &networks.state.status {
                    Some(status) => Some(status.value),
                    None => None,
                },
            ),
        ),
    }
}

/// The ID of each network and whether it is the one that the device is connected to.
fn network_infos<const N: usize, T: WirelessData>(networks: &NetworkContext<N, T>) -> (res: Vec<
    NwInfo,
>)
    ensures
        res@.map_values(|info: NwInfo| info@) == nw_infos::<T::NetworkCredentials>(
            networks@.state,
        ),
{
    let ghost expected = nw_infos::<T::NetworkCredentials>(networks@.state);
    let mut res: Vec<NwInfo> = Vec::new();
    let mut i: usize = 0;
    while i < networks.state.networks.len()
        invariant
            i <= networks.state.networks.len(),
            res.len() == i,
            expected == nw_infos::<T::NetworkCredentials>(networks@.state),
            forall|j: int| 0 <= j < i ==> (#[trigger] res@[j])@ == expected[j],
        decreases networks.state.networks.len() - i,
    {
        let network_id = networks.state.networks[i].network_id();
        let connected = match &networks.state.status {
            Some(status) => bytes_eq(status.network_id.as_ref(), network_id.as_ref())
                && status.status == NetworkCommissioningStatus::Success,
            None => false,
        };
        res.push(NwInfo { network_id: slice_to_vec(network_id.as_ref()), connected });
        i = i + 1;
    }
    assert(res@.map_values(|info: NwInfo| info@) =~= expected);
    res
}

/// A cluster implementing the Matter Network Commissioning Cluster
/// for managing wireless networks.
pub struct WirelessNwCommCluster {
    data_ver: Dataver,
}

impl View for WirelessNwCommCluster {
    type V = Dataver;

    closed spec fn view(&self) -> Dataver {
        self.data_ver
    }
}

impl WirelessNwCommCluster {
    /// Create a new instance.
    pub fn new(data_ver: Dataver) -> (res: Self)
        ensures
            res@ == data_ver,
    {
        Self { data_ver }
    }

    /// The version of the data.
    pub fn data_ver(&self) -> (res: Dataver)
        ensures
            res == self@,
    {
        self.data_ver
    }

    /// Add or update the Wifi network in the request.
    pub fn add_wifi_network<const N: usize, T: WirelessData>(
        &self,
        networks: &mut NetworkContext<N, T>,
        req: &AddWifiNetworkRequest,
    ) -> (res: Result<NetworkConfigResponse, ErrorCode>)
        requires
            old(networks).wf(),
        ensures
            final(networks).wf(),
            match T::NetworkCredentials::of_wifi(req.ssid@, req.credentials@) {
                Ok(creds) => {
                    let outcome = added::<T::NetworkCredentials>(
                        old(networks)@.state.networks,
                        creds,
                        N as nat,
                    );
                    &&& res == Ok::<NetworkConfigResponse, ErrorCode>(outcome.1)
                    &&& final(networks)@ == edited(old(networks)@, outcome)
                },
                Err(code) => {
                    &&& res == Err::<NetworkConfigResponse, ErrorCode>(code)
                    &&& final(networks)@ == old(networks)@
                },
            },
    {
        match T::NetworkCredentials::try_from_wifi(req) {
            Ok(network) => Ok(add_network(networks, network)),
            Err(code) => Err(code),
        }
    }

    /// Add or update the Thread network in the request.
    pub fn add_thread_network<const N: usize, T: WirelessData>(
        &self,
        networks: &mut NetworkContext<N, T>,
        req: &AddThreadNetworkRequest,
    ) -> (res: Result<NetworkConfigResponse, ErrorCode>)
        requires
            old(networks).wf(),
        ensures
            final(networks).wf(),
            match T::NetworkCredentials::of_thread(req.op_dataset@) {
                Ok(creds) => {
                    let outcome = added::<T::NetworkCredentials>(
                        old(networks)@.state.networks,
                        creds,
                        N as nat,
                    );
                    &&& res == Ok::<NetworkConfigResponse, ErrorCode>(outcome.1)
                    &&& final(networks)@ == edited(old(networks)@, outcome)
                },
                Err(code) => {
                    &&& res == Err::<NetworkConfigResponse, ErrorCode>(code)
                    &&& final(networks)@ == old(networks)@
                },
            },
    {
        match T::NetworkCredentials::try_from_thread(req) {
            Ok(network) => Ok(add_network(networks, network)),
            Err(code) => Err(code),
        }
    }

    /// Remove the network with the ID in the request.
    pub fn remove_network<const N: usize, T: WirelessData>(
        &self,
        networks: &mut NetworkContext<N, T>,
        req: &RemoveNetworkRequest,
    ) -> (res: Result<NetworkConfigResponse, ErrorCode>)
        requires
            old(networks).wf(),
        ensures
            final(networks).wf(),
            match <T::NetworkCredentials as NetworkCredentials>::NetworkId::refusal(
                req.network_id@,
            ) {
                None => {
                    let outcome = removed::<T::NetworkCredentials>(
                        old(networks)@.state.networks,
                        req.network_id@,
                    );
                    &&& res == Ok::<NetworkConfigResponse, ErrorCode>(outcome.1)
                    &&& final(networks)@ == edited(old(networks)@, outcome)
                },
                Some(code) => {
                    &&& res == Err::<NetworkConfigResponse, ErrorCode>(code)
                    &&& final(networks)@ == old(networks)@
                },
            },
    {
        let network_id =
            match <<T::NetworkCredentials as NetworkCredentials>::NetworkId as NetworkId>::try_from(
            req.network_id.as_slice(),
        ) {
            Ok(network_id) => network_id,
            Err(code) => return Err(code),
        };
        Ok(remove_network(networks, network_id.as_ref()))
    }

    /// Move the network with the ID in the request.
    pub fn reorder_network<const N: usize, T: WirelessData>(
        &self,
        networks: &mut NetworkContext<N, T>,
        req: &ReorderNetworkRequest,
    ) -> (res: Result<NetworkConfigResponse, ErrorCode>)
        requires
            old(networks).wf(),
        ensures
            final(networks).wf(),
            match <T::NetworkCredentials as NetworkCredentials>::NetworkId::refusal(
                req.network_id@,
            ) {
                None => {
                    let outcome = reordered::<T::NetworkCredentials>(
                        old(networks)@.state.networks,
                        req.network_id@,
                        req.index,
                    );
                    &&& res == Ok::<NetworkConfigResponse, ErrorCode>(outcome.1)
                    &&& final(networks)@ == edited(old(networks)@, outcome)
                },
                Some(code) => {
                    &&& res == Err::<NetworkConfigResponse, ErrorCode>(code)
                    &&& final(networks)@ == old(networks)@
                },
            },
    {
        let network_id =
            match <<T::NetworkCredentials as NetworkCredentials>::NetworkId as NetworkId>::try_from(
            req.network_id.as_slice(),
        ) {
            Ok(network_id) => network_id,
            Err(code) => return Err(code),
        };
        Ok(reorder_network(networks, network_id.as_ref(), req.index))
    }

    /// What to connect to: the ID and the credentials of the requested network.
    ///
    /// The request has to name a network that is known.
    pub fn connect_network<const N: usize, T: WirelessData>(
        &self,
        networks: &NetworkContext<N, T>,
        req: &ConnectNetworkRequest,
    ) -> (res: Result<
        (<T::NetworkCredentials as NetworkCredentials>::NetworkId, T::NetworkCredentials),
        ErrorCode,
    >)
        requires
            <T::NetworkCredentials as NetworkCredentials>::NetworkId::refusal(
                req.network_id@,
            ) is None ==> position::<T::NetworkCredentials>(
                networks@.state.networks,
                req.network_id@,
            ) is Some,
        ensures
            match <T::NetworkCredentials as NetworkCredentials>::NetworkId::refusal(
                req.network_id@,
            ) {
                None => {
                    let index = position::<T::NetworkCredentials>(
                        networks@.state.networks,
                        req.network_id@,
                    )->Some_0;
                    &&& res is Ok
                    &&& res->Ok_0.0@ == req.network_id@
                    &&& res->Ok_0.1@ == networks@.state.networks[index]
                },
                Some(code) => res is Err && res->Err_0 == code,
            },
    {
        let network_id =
            match <<T::NetworkCredentials as NetworkCredentials>::NetworkId as NetworkId>::try_from(
            req.network_id.as_slice(),
        ) {
            Ok(network_id) => network_id,
            Err(code) => return Err(code),
        };
        let index: usize = find(&networks.state.networks, network_id.as_ref()).unwrap();
        Ok((network_id, networks.state.networks[index].duplicate()))
    }

    /// Take note of how the attempt to connect to the requested network went.
    ///
    /// As soon as the attempt was made, the reply is a success: whether the device can use the
    /// network becomes apparent only later, once it switches over to it. The network is the one
    /// that will be tried next.
    pub fn connect_network_done<const N: usize, T: WirelessData>(
        &self,
        networks: &mut NetworkContext<N, T>,
        network_id: <T::NetworkCredentials as NetworkCredentials>::NetworkId,
        connected: Result<(), ErrorCode>,
    ) -> (res: Result<ConnectNetworkResponse, ErrorCode>)
        ensures
            old(networks).wf() ==> final(networks).wf(),
            match connected {
                Ok(_) => {
                    &&& res == Ok::<ConnectNetworkResponse, ErrorCode>(
                        ConnectNetworkResponse {
                            status: NetworkCommissioningStatus::Success,
                            error_value: 0,
                        },
                    )
                    &&& final(networks)@ == (NetworkContextView {
                        state: NetworkStateView {
                            connect_requested: Some(network_id@),
                            changed: true,
                            ..old(networks)@.state
                        },
                        state_changed: true,
                        ..old(networks)@
                    })
                    &&& final(networks)@ == asked_for(old(networks)@, network_id@)
                },
                Err(code) => {
                    &&& res == Err::<ConnectNetworkResponse, ErrorCode>(code)
                    &&& final(networks)@ == old(networks)@
                },
            },
    {
        match connected {
            Ok(_) => {
                networks.state.connect_requested = Some(network_id);
                networks.state.changed = true;
                networks.state_changed = true;
                Ok(
                    ConnectNetworkResponse {
                        status: NetworkCommissioningStatus::Success,
                        error_value: 0,
                    },
                )
            },
            Err(code) => Err(code),
        }
    }

    /// Notify of a connect request once its reply was written.
    pub fn connect_network_replied<const N: usize, T: WirelessData>(
        &self,
        networks: &mut NetworkContext<N, T>,
        written: Result<(), ErrorCode>,
    ) -> (res: Result<(), ErrorCode>)
        ensures
            res == written,
            final(networks)@ == (NetworkContextView {
                network_connect_requested: old(networks)@.network_connect_requested
                    || written is Ok,
                ..old(networks)@
            }),
            final(networks)@ == replied(old(networks)@, written is Ok),
            old(networks).wf() ==> final(networks).wf(),
    {
        if written.is_ok() {
            networks.network_connect_requested = true;
        }
        written
    }

    /// What to scan for: all networks, or the one with the given ID.
    pub fn scan_networks<T: WirelessData>(&self, req: &ScanNetworksRequest) -> (res: Result<
        Option<<T::NetworkCredentials as NetworkCredentials>::NetworkId>,
        ErrorCode,
    >)
        ensures
            match req.ssid {
                None => res is Ok && res->Ok_0 is None,
                Some(ssid) => match <T::NetworkCredentials as NetworkCredentials>::
                    NetworkId::refusal(ssid@) {
                    None => res is Ok && res->Ok_0 is Some && res->Ok_0->Some_0@ == ssid@,
                    Some(code) => res is Err && res->Err_0 == code,
                },
            },
    {
        match &req.ssid {
            None => Ok(None),
            Some(ssid) => {
                match <<T::NetworkCredentials as NetworkCredentials>::NetworkId as NetworkId>::
                    try_from(ssid.as_slice()) {
                    Ok(network_id) => Ok(Some(network_id)),
                    Err(code) => Err(code),
                }
            },
        }
    }

    /// Read an attribute.
    ///
    /// `up_to_date` tells that the reader already has this version of the data, `system` that
    /// the attribute is one that every cluster has.
    pub fn read<const N: usize, T: WirelessData>(
        &self,
        networks: &NetworkContext<N, T>,
        up_to_date: bool,
        system: bool,
        attr_id: u32,
    ) -> (res: Result<AttrReply, ErrorCode>)
        ensures
            match attr_value::<T::NetworkCredentials>(
                networks@.state,
                N as u8,
                T::WIFI,
                up_to_date,
                system,
                attr_id,
            ) {
                Some(value) => res is Ok && res->Ok_0@ == value,
                None => res is Err && res->Err_0 == ErrorCode::AttributeNotFound,
            },
    {
        read_attribute(networks, up_to_date, system, attr_id)
    }

    /// Take note of the outcome of a command: the data of the cluster has a new version once a
    /// command was carried out and replied to.
    pub fn invoked(&mut self, outcome: Result<(), ErrorCode>) -> (res: Result<(), ErrorCode>)
        ensures
            res == outcome,
            final(self)@ == (if outcome is Ok { old(self)@.next() } else { old(self)@ }),
            final(self)@ == old(self)@.after(outcome is Ok),
    {
        if outcome.is_ok() {
            self.data_ver.changed();
        }
        outcome
    }
}

/// How long a scan may take, in seconds.
pub const SCAN_MAX_TIME_SECS: u8 = 30;

/// How long it may take to connect, in seconds.
pub const CONNECT_MAX_TIME_SECS: u8 = 60;

/// The contents of `NwInfo`.
pub struct NwInfoView {
    pub network_id: Seq<u8>,
    pub connected: bool,
}

/// A network, as it is shown to others.
#[derive(Debug)]
pub struct NwInfo {
    pub network_id: Vec<u8>,
    pub connected: bool,
}

impl View for NwInfo {
    type V = NwInfoView;

    open spec fn view(&self) -> NwInfoView {
        NwInfoView { network_id: self.network_id@, connected: self.connected }
    }
}

/// The reply to the reading of an attribute.
#[derive(Debug)]
pub enum AttrReply {
    /// The reader has the value already.
    UpToDate,
    /// The attribute is one that every cluster has: read it from the metadata of the cluster,
    /// either for Wifi or for Thread.
    System { wifi: bool },
    /// A small number.
    Number(u8),
    /// The known networks.
    Networks(Vec<NwInfo>),
    /// A flag.
    Flag(bool),
    /// The status of the last attempt to connect.
    Status(Option<u8>),
    /// The ID of the network of the last attempt to connect.
    NetworkId(Option<Vec<u8>>),
    /// The error of the last attempt to connect.
    ErrorValue(Option<i32>),
}

/// The contents of `AttrReply`.
pub enum AttrReplyView {
    UpToDate,
    System { wifi: bool },
    Number(u8),
    Networks(Seq<NwInfoView>),
    Flag(bool),
    Status(Option<u8>),
    NetworkId(Option<Seq<u8>>),
    ErrorValue(Option<i32>),
}

impl View for AttrReply {
    type V = AttrReplyView;

    open spec fn view(&self) -> AttrReplyView {
        match *self {
            AttrReply::UpToDate => AttrReplyView::UpToDate,
            AttrReply::System { wifi } => AttrReplyView::System { wifi },
            AttrReply::Number(value) => AttrReplyView::Number(value),
            AttrReply::Networks(infos) => AttrReplyView::Networks(
                infos@.map_values(|info: NwInfo| info@),
            ),
            AttrReply::Flag(value) => AttrReplyView::Flag(value),
            AttrReply::Status(status) => AttrReplyView::Status(status),
            AttrReply::NetworkId(Some(id)) => AttrReplyView::NetworkId(Some(id@)),
            AttrReply::NetworkId(None) => AttrReplyView::NetworkId(None),
            AttrReply::ErrorValue(value) => AttrReplyView::ErrorValue(value),
        }
    }
}

/// Whether the last attempt to connect made a connection to the network with the given ID.
pub open spec fn is_connected(status: Option<NetworkStatusView>, id: Seq<u8>) -> bool {
    status matches Some(status) && status.network_id == id && status.status
        == NetworkCommissioningStatus::Success
}

/// The known networks, as they are shown to others.
pub open spec fn nw_infos<C: NetworkCredentials>(state: NetworkStateView<C::V>) -> Seq<NwInfoView> {
    state.networks.map_values(
        |creds: C::V|
            NwInfoView {
                network_id: C::id_of(creds),
                connected: is_connected(state.status, C::id_of(creds)),
            },
    )
}

/// The value of an attribute, where there is such an attribute.
pub open spec fn attr_value<C: NetworkCredentials>(
    state: NetworkStateView<C::V>,
    max_networks: u8,
    wifi: bool,
    up_to_date: bool,
    system: bool,
    attr_id: u32,
) -> Option<AttrReplyView> {
    if up_to_date {
        Some(AttrReplyView::UpToDate)
    } else if system {
        Some(AttrReplyView::System { wifi })
    } else {
        match Attributes::of_id(attr_id) {
            None => None,
            Some(Attributes::MaxNetworks) => Some(AttrReplyView::Number(max_networks)),
            Some(Attributes::Networks) => Some(AttrReplyView::Networks(nw_infos::<C>(state))),
            Some(Attributes::ScanMaxTimeSecs) => Some(AttrReplyView::Number(SCAN_MAX_TIME_SECS)),
            Some(Attributes::ConnectMaxTimeSecs) => Some(
                AttrReplyView::Number(CONNECT_MAX_TIME_SECS),
            ),
            Some(Attributes::InterfaceEnabled) => Some(AttrReplyView::Flag(true)),
            Some(Attributes::LastNetworkingStatus) => Some(
                AttrReplyView::Status(
                    match state.status {
                        Some(status) => Some(status.status.spec_code()),
                        None => None,
                    },
                ),
            ),
            Some(Attributes::LastNetworkID) => Some(
                AttrReplyView::NetworkId(
                    match state.status {
                        Some(status) => Some(status.network_id),
                        None => None,
                    },
                ),
            ),
            Some(Attributes::LastConnectErrorValue) => Some(
                AttrReplyView::ErrorValue(
                    match state.status {
                        Some(status) => Some(status.value),
                        None => None,
                    },
                ),
            ),
        }
    }
}

/// A command together with what it asks for.
#[derive(Debug)]
pub enum Command {
    ScanNetworks(ScanNetworksRequest),
    AddOrUpdateWifiNetwork(AddWifiNetworkRequest),
    AddOrUpdateThreadNetwork(AddThreadNetworkRequest),
    RemoveNetwork(RemoveNetworkRequest),
    ConnectNetwork(ConnectNetworkRequest),
    ReorderNetwork(ReorderNetworkRequest),
}

/// The contents of `Command`.
pub enum CommandView {
    ScanNetworks { wanted: Option<Seq<u8>> },
    AddOrUpdateWifiNetwork { ssid: Seq<u8>, credentials: Seq<u8> },
    AddOrUpdateThreadNetwork { op_dataset: Seq<u8> },
    RemoveNetwork { network_id: Seq<u8> },
    ConnectNetwork { network_id: Seq<u8> },
    ReorderNetwork { network_id: Seq<u8>, index: u8 },
}

impl View for Command {
    type V = CommandView;

    open spec fn view(&self) -> CommandView {
        match *self {
            Command::ScanNetworks(req) => CommandView::ScanNetworks {
                wanted: match req.ssid {
                    Some(ssid) => Some(ssid@),
                    None => None,
                },
            },
            Command::AddOrUpdateWifiNetwork(req) => CommandView::AddOrUpdateWifiNetwork {
                ssid: req.ssid@,
                credentials: req.credentials@,
            },
            Command::AddOrUpdateThreadNetwork(req) => CommandView::AddOrUpdateThreadNetwork {
                op_dataset: req.op_dataset@,
            },
            Command::RemoveNetwork(req) => CommandView::RemoveNetwork {
                network_id: req.network_id@,
            },
            Command::ConnectNetwork(req) => CommandView::ConnectNetwork {
                network_id: req.network_id@,
            },
            Command::ReorderNetwork(req) => CommandView::ReorderNetwork {
                network_id: req.network_id@,
                index: req.index,
            },
        }
    }
}

/// What a command leads to.
pub enum InvokeStep<C: NetworkCredentials> {
    /// The command was carried out, and this is the reply.
    Reply(NetworkConfigResponse),
    /// Scan for all networks, or for the given one.
    Scan(Option<C::NetworkId>),
    /// Connect to the network with this ID and these credentials.
    Connect(C::NetworkId, C),
}

/// The contents of `InvokeStep`.
pub enum InvokeStepView<V> {
    Reply(NetworkConfigResponse),
    Scan(Option<Seq<u8>>),
    Connect(Seq<u8>, V),
}

impl<C: NetworkCredentials> View for InvokeStep<C> {
    type V = InvokeStepView<C::V>;

    open spec fn view(&self) -> InvokeStepView<C::V> {
        match *self {
            InvokeStep::Reply(reply) => InvokeStepView::Reply(reply),
            InvokeStep::Scan(id) => InvokeStepView::Scan(
                match id {
                    Some(id) => Some(id@),
                    None => None,
                },
            ),
            InvokeStep::Connect(id, creds) => InvokeStepView::Connect(id@, creds@),
        }
    }
}

/// Why a command is refused before anything is done, if it is.
pub open spec fn command_refusal<C: NetworkCredentials>(cmd: CommandView) -> Option<ErrorCode> {
    match cmd {
        CommandView::ScanNetworks { wanted: Some(ssid) } => C::NetworkId::refusal(ssid),
        CommandView::ScanNetworks { wanted: None } => None,
        CommandView::AddOrUpdateWifiNetwork { ssid, credentials } => match C::of_wifi(
            ssid,
            credentials,
        ) {
            Ok(_) => None,
            Err(code) => Some(code),
        },
        CommandView::AddOrUpdateThreadNetwork { op_dataset } => match C::of_thread(op_dataset) {
            Ok(_) => None,
            Err(code) => Some(code),
        },
        CommandView::RemoveNetwork { network_id } => C::NetworkId::refusal(network_id),
        CommandView::ConnectNetwork { network_id } => C::NetworkId::refusal(network_id),
        CommandView::ReorderNetwork { network_id, .. } => C::NetworkId::refusal(network_id),
    }
}

/// The networks and the reply after a command that changes the list of networks.
pub open spec fn command_outcome<C: NetworkCredentials>(
    networks: Seq<C::V>,
    cmd: CommandView,
    room: nat,
) -> Option<(Seq<C::V>, NetworkConfigResponse)> {
    match cmd {
        CommandView::AddOrUpdateWifiNetwork { ssid, credentials } => match C::of_wifi(
            ssid,
            credentials,
        ) {
            Ok(creds) => Some(added::<C>(networks, creds, room)),
            Err(_) => None,
        },
        CommandView::AddOrUpdateThreadNetwork { op_dataset } => match C::of_thread(op_dataset) {
            Ok(creds) => Some(added::<C>(networks, creds, room)),
            Err(_) => None,
        },
        CommandView::RemoveNetwork { network_id } => Some(removed::<C>(networks, network_id)),
        CommandView::ReorderNetwork { network_id, index } => Some(
            reordered::<C>(networks, network_id, index),
        ),
        CommandView::ScanNetworks { .. } => None,
        CommandView::ConnectNetwork { .. } => None,
    }
}

/// What a command that is not refused leads to.
pub open spec fn command_step<C: NetworkCredentials>(
    networks: Seq<C::V>,
    cmd: CommandView,
    room: nat,
) -> InvokeStepView<C::V> {
    match cmd {
        CommandView::ScanNetworks { wanted } => InvokeStepView::Scan(wanted),
        CommandView::ConnectNetwork { network_id } => InvokeStepView::Connect(
            network_id,
            networks[position::<C>(networks, network_id)->Some_0],
        ),
        _ => InvokeStepView::Reply(command_outcome::<C>(networks, cmd, room)->Some_0.1),
    }
}

impl Command {
    /// Whether the command can be carried out at all, which is known before anything is done.
    pub fn check<C: NetworkCredentials>(&self) -> (res: Result<(), ErrorCode>)
        ensures
            res == (match command_refusal::<C>(self@) {
                Some(code) => Err::<(), ErrorCode>(code),
                None => Ok(()),
            }),
    {
        let id: &Vec<u8> = match self {
            Command::ScanNetworks(req) => match &req.ssid {
                Some(ssid) => ssid,
                None => return Ok(()),
            },
            Command::AddOrUpdateWifiNetwork(req) => {
                return match C::try_from_wifi(req) {
                    Ok(_) => Ok(()),
                    Err(code) => Err(code),
                };
            },
            Command::AddOrUpdateThreadNetwork(req) => {
                return match C::try_from_thread(req) {
                    Ok(_) => Ok(()),
                    Err(code) => Err(code),
                };
            },
            Command::RemoveNetwork(req) => &req.network_id,
            Command::ConnectNetwork(req) => &req.network_id,
            Command::ReorderNetwork(req) => &req.network_id,
        };
        match <C::NetworkId as NetworkId>::try_from(id.as_slice()) {
            Ok(_) => Ok(()),
            Err(code) => Err(code),
        }
    }
}

impl WirelessNwCommCluster {
    /// Invoke a command.
    ///
    /// A command to connect has to name a network that is known.
    pub fn invoke<const N: usize, T: WirelessData>(
        &self,
        networks: &mut NetworkContext<N, T>,
        cmd: &Command,
    ) -> (res: Result<InvokeStep<T::NetworkCredentials>, ErrorCode>)
        requires
            old(networks).wf(),
            cmd@ matches CommandView::ConnectNetwork { network_id } ==> {
                <T::NetworkCredentials as NetworkCredentials>::NetworkId::refusal(
                    network_id,
                ) is None ==> position::<T::NetworkCredentials>(
                    old(networks)@.state.networks,
                    network_id,
                ) is Some
            },
        ensures
            final(networks).wf(),
            match command_refusal::<T::NetworkCredentials>(cmd@) {
                Some(code) => {
                    &&& res is Err
                    &&& res->Err_0 == code
                    &&& final(networks)@ == old(networks)@
                },
                None => {
                    &&& res is Ok
                    &&& res->Ok_0@ == command_step::<T::NetworkCredentials>(
                        old(networks)@.state.networks,
                        cmd@,
                        N as nat,
                    )
                    &&& final(networks)@ == match command_outcome::<T::NetworkCredentials>(
                        old(networks)@.state.networks,
                        cmd@,
                        N as nat,
                    ) {
                        Some(outcome) => edited(old(networks)@, outcome),
                        None => old(networks)@,
                    }
                },
            },
    {
        let reply = match cmd {
            Command::ScanNetworks(req) => {
                return match self.scan_networks::<T>(req) {
                    Ok(network_id) => Ok(InvokeStep::Scan(network_id)),
                    Err(code) => Err(code),
                };
            },
            Command::ConnectNetwork(req) => {
                return match self.connect_network(networks, req) {
                    Ok((network_id, creds)) => Ok(InvokeStep::Connect(network_id, creds)),
                    Err(code) => Err(code),
                };
            },
            Command::AddOrUpdateWifiNetwork(req) => self.add_wifi_network(networks, req),
            Command::AddOrUpdateThreadNetwork(req) => self.add_thread_network(networks, req),
            Command::RemoveNetwork(req) => self.remove_network(networks, req),
            Command::ReorderNetwork(req) => self.reorder_network(networks, req),
        };
        match reply {
            Ok(reply) => Ok(InvokeStep::Reply(reply)),
            Err(code) => Err(code),
        }
    }
}

/// What to write when a scan reports something.
#[derive(Debug, Clone, Copy, PartialEq, Eq, Structural)]
pub enum ScanWrite {
    /// Nothing.
    Nothing,
    /// The start of the response, with a success status, an empty debug text and the start of
    /// the list of results, followed by the first result.
    StartAndResult,
    /// One more result.
    Result,
}

/// A response to a scan request, which is written while the results come in.
#[derive(Debug, Clone, Copy, PartialEq, Eq, Structural)]
pub struct ScanNetworksResponse {
    pub started: bool,
}

/// What is written when a scan reports a result (`true`) or its end (`false`).
pub open spec fn scan_write(started: bool, result: bool) -> ScanWrite {
    if !result {
        ScanWrite::Nothing
    } else if started {
        ScanWrite::Result
    } else {
        ScanWrite::StartAndResult
    }
}

/// Whether the response has been started after one more report.
pub open spec fn started_after(started: bool, result: bool) -> bool {
    started || result
}

/// Whether the response has been started after the given reports.
pub open spec fn scan_started(reports: Seq<bool>) -> bool {
    exists|i: int| 0 <= i < reports.len() && #[trigger] reports[i]
}

/// What is written for each of the reports of a scan.
pub open spec fn scan_writes(reports: Seq<bool>) -> Seq<ScanWrite> {
    Seq::new(
        reports.len(),
        |i: int| scan_write(scan_started(reports.take(i)), reports[i]),
    )
}

/// However many results a scan reports, the response is started once at most, and it is
/// started before any further result is written.
pub proof fn lemma_scan_response_started_once(reports: Seq<bool>, i: int, j: int)
    requires
        0 <= i < reports.len(),
        0 <= j < reports.len(),
        scan_writes(reports)[i] == ScanWrite::StartAndResult,
        scan_writes(reports)[j] != ScanWrite::Nothing,
        i != j,
    ensures
        i < j,
        scan_writes(reports)[j] == ScanWrite::Result,
{
    if j < i {
        assert(reports.take(i)[j]);
    } else {
        assert(reports.take(j)[i]);
    }
}

impl ScanNetworksResponse {
    /// A response of which nothing was written.
    pub fn new() -> (res: Self)
        ensures
            !res.started,
    {
        ScanNetworksResponse { started: false }
    }

    /// What to write for a report of the scan: a result, or its end.
    pub fn on_report(&mut self, result: bool) -> (write: ScanWrite)
        ensures
            write == scan_write(old(self).started, result),
            final(self).started == (old(self).started || result),
            final(self).started == started_after(old(self).started, result),
    {
        if !result {
            return ScanWrite::Nothing;
        }
        if self.started {
            return ScanWrite::Result;
        }
        self.started = true;
        ScanWrite::StartAndResult
    }

    /// Whether there is a response that has to be completed after the scan.
    pub fn finish(&self, scanned: Result<(), ErrorCode>) -> (res: Result<bool, ErrorCode>)
        ensures
            match scanned {
                Ok(_) => res == Ok::<bool, ErrorCode>(self.started),
                Err(code) => res == Err::<bool, ErrorCode>(code),
            },
    {
        match scanned {
            Ok(_) => Ok(self.started),
            Err(code) => Err(code),
        }
    }
}

/// Adding keeps the IDs distinct and never exceeds the room for networks.
pub proof fn lemma_added_keeps_ids_distinct<C: NetworkCredentials>(
    networks: Seq<C::V>,
    creds: C::V,
    room: nat,
)
    requires
        distinct_ids::<C>(networks),
        networks.len() <= room,
    ensures
        distinct_ids::<C>(added::<C>(networks, creds, room).0),
        added::<C>(networks, creds, room).0.len() <= room,
{
    lemma_position::<C>(networks, C::id_of(creds));
}

/// A network that was added is found with its credentials at the position that the reply names,
/// as long as positions fit a reply.
pub proof fn lemma_added_is_found<C: NetworkCredentials>(
    networks: Seq<C::V>,
    creds: C::V,
    room: nat,
)
    requires
        networks.len() <= room <= 0x100,
        added::<C>(networks, creds, room).1.status == NetworkCommissioningStatus::Success,
    ensures
        ({
            let (after, reply) = added::<C>(networks, creds, room);
            &&& reply.network_index is Some
            &&& position::<C>(after, C::id_of(creds)) == Some(reply.network_index->Some_0 as int)
            &&& after[reply.network_index->Some_0 as int] == creds
        }),
{
    let after = added::<C>(networks, creds, room).0;
    lemma_position::<C>(networks, C::id_of(creds));
    lemma_position::<C>(after, C::id_of(creds));
    match position::<C>(networks, C::id_of(creds)) {
        Some(i) => {
            assert(after[i] == creds);
            assert forall|j: int| 0 <= j < i implies C::id_of(#[trigger] after[j]) != C::id_of(
                creds,
            ) by {
                assert(after[j] == networks[j]);
            }
        },
        None => {
            assert(after[networks.len() as int] == creds);
            assert forall|j: int| 0 <= j < networks.len() implies C::id_of(#[trigger] after[j])
                != C::id_of(creds) by {
                assert(after[j] == networks[j]);
            }
        },
    }
}

/// A network can always be updated: the room for networks limits only the new ones.
pub proof fn lemma_add_refused_only_when_full<C: NetworkCredentials>(
    networks: Seq<C::V>,
    creds: C::V,
    room: nat,
)
    ensures
        added::<C>(networks, creds, room).1.status == (if position::<C>(
            networks,
            C::id_of(creds),
        ) is None && networks.len() >= room {
            NetworkCommissioningStatus::BoundsExceeded
        } else {
            NetworkCommissioningStatus::Success
        }),
{
}

/// Removing keeps the IDs distinct, and the removed network is gone.
pub proof fn lemma_removed_is_gone<C: NetworkCredentials>(networks: Seq<C::V>, id: Seq<u8>)
    requires
        distinct_ids::<C>(networks),
    ensures
        distinct_ids::<C>(removed::<C>(networks, id).0),
        position::<C>(removed::<C>(networks, id).0, id) is None,
{
    let after = removed::<C>(networks, id).0;
    lemma_position::<C>(networks, id);
    lemma_position::<C>(after, id);
    if let Some(i) = position::<C>(networks, id) {
        assert forall|j: int| 0 <= j < after.len() implies C::id_of(#[trigger] after[j]) != id by {
            if j < i {
                assert(after[j] == networks[j]);
            } else {
                assert(after[j] == networks[j + 1]);
            }
        }
    }
}

/// Removing a network that was just added gives the networks back as they were.
pub proof fn lemma_remove_undoes_add<C: NetworkCredentials>(
    networks: Seq<C::V>,
    creds: C::V,
    room: nat,
)
    requires
        position::<C>(networks, C::id_of(creds)) is None,
        networks.len() < room,
    ensures
        removed::<C>(added::<C>(networks, creds, room).0, C::id_of(creds)).0 == networks,
{
    let after = networks.push(creds);
    lemma_position::<C>(networks, C::id_of(creds));
    lemma_position::<C>(after, C::id_of(creds));
    assert(after[networks.len() as int] == creds);
    assert forall|j: int| 0 <= j < networks.len() implies C::id_of(#[trigger] after[j]) != C::id_of(
        creds,
    ) by {
        assert(after[j] == networks[j]);
    }
    assert(after.remove(networks.len() as int) =~= networks);
}

/// Reordering moves one network: it is found at the requested position, and the others keep
/// their order.
pub proof fn lemma_reordered_moves_one<C: NetworkCredentials>(
    networks: Seq<C::V>,
    id: Seq<u8>,
    index: u8,
)
    requires
        networks.len() <= usize::MAX,
        reordered::<C>(networks, id, index).1.status == NetworkCommissioningStatus::Success,
    ensures
        ({
            let after = reordered::<C>(networks, id, index).0;
            let i = position::<C>(networks, id)->Some_0;
            &&& after.len() == networks.len()
            &&& index < networks.len()
            &&& after[index as int] == networks[i]
            &&& C::id_of(after[index as int]) == id
            &&& after.remove(index as int) == networks.remove(i)
        }),
{
    lemma_position::<C>(networks, id);
    let i = position::<C>(networks, id)->Some_0;
    lemma_low_byte_bound(networks.len());
    let after = reordered::<C>(networks, id, index).0;
    assert(after.remove(index as int) =~= networks.remove(i));
}

/// The lowest eight bits of a number are not above the number.
proof fn lemma_low_byte_bound(n: nat)
    requires
        n <= usize::MAX,
    ensures
        n as u8 <= n,
{
    let m = n as usize;
    assert(m as u8 <= m) by (bit_vector);
}

/// Reordering neither adds nor drops a network.
pub proof fn lemma_reordered_is_permutation<C: NetworkCredentials>(
    networks: Seq<C::V>,
    id: Seq<u8>,
    index: u8,
)
    requires
        networks.len() <= usize::MAX,
    ensures
        reordered::<C>(networks, id, index).0.to_multiset() == networks.to_multiset(),
{
    lemma_position::<C>(networks, id);
    if reordered::<C>(networks, id, index).1.status == NetworkCommissioningStatus::Success {
        let i = position::<C>(networks, id)->Some_0;
        lemma_low_byte_bound(networks.len());
        let rest = networks.remove(i);
        vstd::seq_lib::to_multiset_remove(networks, i);
        vstd::seq_lib::to_multiset_insert(rest, index as int, networks[i]);
        assert(networks.to_multiset().count(networks[i]) > 0) by {
            broadcast use vstd::seq_lib::group_to_multiset_ensures;

            assert(networks.contains(networks[i]));
        }
        assert(networks.to_multiset().remove(networks[i]).insert(networks[i])
            =~= networks.to_multiset());
    }
}

/// Reordering keeps the IDs distinct.
pub proof fn lemma_reordered_keeps_ids_distinct<C: NetworkCredentials>(
    networks: Seq<C::V>,
    id: Seq<u8>,
    index: u8,
)
    requires
        networks.len() <= usize::MAX,
        distinct_ids::<C>(networks),
    ensures
        distinct_ids::<C>(reordered::<C>(networks, id, index).0),
{
    lemma_position::<C>(networks, id);
    if reordered::<C>(networks, id, index).1.status == NetworkCommissioningStatus::Success {
        lemma_reordered_moves_one::<C>(networks, id, index);
        let k = index as int;
        let i = position::<C>(networks, id)->Some_0;
        let after = reordered::<C>(networks, id, index).0;
        let from = |a: int|
            if a == k {
                i
            } else {
                let b = if a < k {
                    a
                } else {
                    a - 1
                };
                if b < i {
                    b
                } else {
                    b + 1
                }
            };
        assert forall|a: int| 0 <= a < after.len() implies #[trigger] after[a]
            == networks[from(a)] by {}
        assert forall|a: int, b: int| 0 <= a < b < after.len() implies C::id_of(
            #[trigger] after[a],
        ) != C::id_of(#[trigger] after[b]) by {
            assert(from(a) != from(b));
            assert(0 <= from(a) < networks.len() && 0 <= from(b) < networks.len());
        }
    }
}

/// Moving a network back to where it was restores the order.
pub proof fn lemma_reorder_undoes_reorder<C: NetworkCredentials>(
    networks: Seq<C::V>,
    id: Seq<u8>,
    index: u8,
)
    requires
        networks.len() < 0x100,
        distinct_ids::<C>(networks),
        reordered::<C>(networks, id, index).1.status == NetworkCommissioningStatus::Success,
    ensures
        reordered::<C>(
            reordered::<C>(networks, id, index).0,
            id,
            position::<C>(networks, id)->Some_0 as u8,
        ).0 == networks,
{
    let i = position::<C>(networks, id)->Some_0;
    let after = reordered::<C>(networks, id, index).0;
    lemma_position::<C>(networks, id);
    lemma_reordered_moves_one::<C>(networks, id, index);
    lemma_reordered_keeps_ids_distinct::<C>(networks, id, index);
    lemma_position::<C>(after, id);
    assert(position::<C>(after, id) == Some(index as int));
    assert(after.remove(index as int).insert(i, after[index as int]) =~= networks);
}

/// Whatever the command, one that is not met leaves the context as it was, and one that is met
/// marks the state as changed and notifies of it. The IDs stay distinct and the networks never
/// exceed the room for them.
pub proof fn lemma_command_outcome<C: NetworkCredentials>(
    context: NetworkContextView<C::V>,
    cmd: CommandView,
    room: nat,
)
    requires
        context.state.networks.len() <= room <= usize::MAX,
        distinct_ids::<C>(context.state.networks),
        command_outcome::<C>(context.state.networks, cmd, room) is Some,
    ensures
        ({
            let outcome = command_outcome::<C>(context.state.networks, cmd, room)->Some_0;
            let after = edited(context, outcome);
            &&& distinct_ids::<C>(after.state.networks)
            &&& after.state.networks.len() <= room
            &&& after.state.networks == outcome.0
            &&& if outcome.1.status == NetworkCommissioningStatus::Success {
                after.state.changed && after.state_changed
            } else {
                after == context
            }
        }),
{
    let networks = context.state.networks;
    match cmd {
        CommandView::AddOrUpdateWifiNetwork { ssid, credentials } => {
            let creds = C::of_wifi(ssid, credentials)->Ok_0;
            lemma_added_keeps_ids_distinct::<C>(networks, creds, room);
        },
        CommandView::AddOrUpdateThreadNetwork { op_dataset } => {
            lemma_added_keeps_ids_distinct::<C>(networks, C::of_thread(op_dataset)->Ok_0, room);
        },
        CommandView::RemoveNetwork { network_id } => {
            lemma_position::<C>(networks, network_id);
            lemma_removed_is_gone::<C>(networks, network_id);
        },
        CommandView::ReorderNetwork { network_id, index } => {
            lemma_reordered_keeps_ids_distinct::<C>(networks, network_id, index);
            if reordered::<C>(networks, network_id, index).1.status
                == NetworkCommissioningStatus::Success {
                lemma_reordered_moves_one::<C>(networks, network_id, index);
            }
        },
        _ => {},
    }
}

} // verus!
