//! The list of networks is commissioned, in order of preference.

use vstd::prelude::*;

use crate::error::ErrorCode;
use crate::persist::NetworkPersist;
use crate::wifi::comm::unsupported;
use crate::wireless::comm::{
    asked_for, attr_value, command_outcome, command_refusal, command_step, edited, replied,
    scan_started, scan_write, scan_writes, started_after, AttrReplyView, Attributes, CommandView,
    Commands, Dataver, InvokeStepView, ScanWrite,
};
use crate::wireless::mgmt::{pick_step, ManagerAction};
use crate::wireless::store::{
    awaited_change, awaited_request, distinct_ids, lemma_position, load_context, load_networks,
    new_context, next_network, store_networks, stored_context,
    NetworkCommissioningStatus, NetworkContext, NetworkContextView, NetworkStateView,
    StoredNetwork,
};
use crate::wireless::traits::{NetworkCredentials, NetworkId, WirelessData};

verus! {

/// The context after a command.
pub open spec fn after_command<C: NetworkCredentials>(
    context: NetworkContextView<C::V>,
    cmd: CommandView,
    room: nat,
) -> NetworkContextView<C::V> {
    match command_outcome::<C>(context.state.networks, cmd, room) {
        Some(outcome) => edited(context, outcome),
        None => context,
    }
}

/// The networks are now these; this is marked as a change and notified of, and nothing else is
/// different.
pub open spec fn networks_are<V>(
    before: NetworkContextView<V>,
    after: NetworkContextView<V>,
    networks: Seq<V>,
) -> bool {
    &&& after.state.networks =~= networks
    &&& after.state.changed
    &&& after.state_changed
    &&& after.state.connected_once == before.state.connected_once
    &&& after.state.connect_requested == before.state.connect_requested
    &&& after.state.status == before.state.status
    &&& after.concurrent_connection == before.concurrent_connection
    &&& after.network_connect_requested == before.network_connect_requested
}

/// No network has the ID.
pub open spec fn is_unknown<C: NetworkCredentials>(networks: Seq<C::V>, id: Seq<u8>) -> bool {
    forall|j: int| 0 <= j < networks.len() ==> C::id_of(#[trigger] networks[j]) != id
}

/// The network at this place has the ID, and none before it.
pub open spec fn is_at<C: NetworkCredentials>(
    networks: Seq<C::V>,
    id: Seq<u8>,
    i: int,
) -> bool {
    &&& 0 <= i < networks.len()
    &&& C::id_of(networks[i]) == id
    &&& forall|j: int| 0 <= j < i ==> C::id_of(#[trigger] networks[j]) != id
}

/// The command is replied to with a status and with a place in the list, of which the reply has the
/// lowest eight bits.
pub open spec fn replies<V>(
    step: InvokeStepView<V>,
    status: NetworkCommissioningStatus,
    index: Option<int>,
) -> bool {
    step matches InvokeStepView::Reply(reply) && {
        &&& reply.status == status
        &&& match index {
            Some(i) => {
                &&& reply.network_index == Some(i as u8)
                &&& 0 <= i < 0x100 ==> reply.network_index->Some_0 == i
            },
            None => reply.network_index is None,
        }
    }
}

/// Whether a command asks for a network with these credentials to be added.
pub open spec fn adds<C: NetworkCredentials>(cmd: CommandView, creds: C::V) -> bool {
    match cmd {
        CommandView::AddOrUpdateWifiNetwork { ssid, credentials } => C::of_wifi(ssid, credentials)
            == Ok::<C::V, ErrorCode>(creds),
        CommandView::AddOrUpdateThreadNetwork { op_dataset } => C::of_thread(op_dataset) == Ok::<
            C::V,
            ErrorCode,
        >(creds),
        _ => false,
    }
}

proof fn lemma_is_at<C: NetworkCredentials>(networks: Seq<C::V>, id: Seq<u8>, i: int)
    requires
        is_at::<C>(networks, id, i),
    ensures
        crate::wireless::store::position::<C>(networks, id) == Some(i),
{
    lemma_position::<C>(networks, id);
}

proof fn lemma_is_unknown<C: NetworkCredentials>(networks: Seq<C::V>, id: Seq<u8>)
    requires
        is_unknown::<C>(networks, id),
    ensures
        crate::wireless::store::position::<C>(networks, id) is None,
{
    lemma_position::<C>(networks, id);
}

/// A network with an ID that is known already takes the place of the old one, and all others stay
/// where they are, however little room there is.
pub proof fn lemma_update_network<C: NetworkCredentials>(
    context: NetworkContextView<C::V>,
    cmd: CommandView,
    creds: C::V,
    room: nat,
    i: int,
)
    requires
        adds::<C>(cmd, creds),
        is_at::<C>(context.state.networks, C::id_of(creds), i),
    ensures
        ({
            let networks = context.state.networks;
            &&& networks_are(
                context,
                after_command::<C>(context, cmd, room),
                networks.take(i) + seq![creds] + networks.skip(i + 1),
            )
            &&& replies(
                command_step::<C>(networks, cmd, room),
                NetworkCommissioningStatus::Success,
                Some(i),
            )
        }),
{
    lemma_is_at::<C>(context.state.networks, C::id_of(creds), i);
}

/// A network with a new ID goes to the end of the list, if there is room for it, and is refused
/// otherwise.
pub proof fn lemma_new_network<C: NetworkCredentials>(
    context: NetworkContextView<C::V>,
    cmd: CommandView,
    creds: C::V,
    room: nat,
)
    requires
        adds::<C>(cmd, creds),
        is_unknown::<C>(context.state.networks, C::id_of(creds)),
    ensures
        ({
            let networks = context.state.networks;
            let after = after_command::<C>(context, cmd, room);
            let step = command_step::<C>(networks, cmd, room);
            if networks.len() < room {
                &&& networks_are(context, after, networks + seq![creds])
                &&& replies(
                    step,
                    NetworkCommissioningStatus::Success,
                    Some(networks.len() as int),
                )
            } else {
                &&& after == context
                &&& replies(step, NetworkCommissioningStatus::BoundsExceeded, None)
            }
        }),
{
    lemma_is_unknown::<C>(context.state.networks, C::id_of(creds));
}

/// A network that is removed leaves all the others in their order, wherever it was.
pub proof fn lemma_remove_network<C: NetworkCredentials>(
    context: NetworkContextView<C::V>,
    id: Seq<u8>,
    room: nat,
    i: int,
)
    requires
        is_at::<C>(context.state.networks, id, i),
    ensures
        ({
            let networks = context.state.networks;
            let cmd = CommandView::RemoveNetwork { network_id: id };
            &&& networks_are(
                context,
                after_command::<C>(context, cmd, room),
                networks.take(i) + networks.skip(i + 1),
            )
            &&& replies(
                command_step::<C>(networks, cmd, room),
                NetworkCommissioningStatus::Success,
                Some(i),
            )
        }),
{
    lemma_is_at::<C>(context.state.networks, id, i);
}

/// A network can be moved to any place in the list: it is there afterwards, and all the others are
/// in their order around it. A place that is not in the list is refused; the lowest eight bits of
/// the length of the list count here.
pub proof fn lemma_reorder_network<C: NetworkCredentials>(
    context: NetworkContextView<C::V>,
    id: Seq<u8>,
    index: u8,
    room: nat,
    i: int,
)
    requires
        is_at::<C>(context.state.networks, id, i),
        context.state.networks.len() <= usize::MAX,
    ensures
        ({
            let networks = context.state.networks;
            let others = networks.take(i) + networks.skip(i + 1);
            let cmd = CommandView::ReorderNetwork { network_id: id, index };
            let after = after_command::<C>(context, cmd, room);
            let step = command_step::<C>(networks, cmd, room);
            if index < networks.len() as u8 {
                &&& networks_are(
                    context,
                    after,
                    others.take(index as int) + seq![networks[i]] + others.skip(index as int),
                )
                &&& replies(step, NetworkCommissioningStatus::Success, Some(index as int))
            } else {
                &&& after == context
                &&& replies(step, NetworkCommissioningStatus::OutOfRange, Some(index as int))
            }
        }),
{
    lemma_is_at::<C>(context.state.networks, id, i);
    let len = context.state.networks.len() as usize;
    assert(len as u8 <= len) by (bit_vector);
}

/// A network that is not known can be neither removed nor moved.
pub proof fn lemma_unknown_network<C: NetworkCredentials>(
    context: NetworkContextView<C::V>,
    id: Seq<u8>,
    index: u8,
    room: nat,
)
    requires
        is_unknown::<C>(context.state.networks, id),
    ensures
        ({
            let remove = CommandView::RemoveNetwork { network_id: id };
            let reorder = CommandView::ReorderNetwork { network_id: id, index };
            let networks = context.state.networks;
            &&& after_command::<C>(context, remove, room) == context
            &&& after_command::<C>(context, reorder, room) == context
            &&& replies(
                command_step::<C>(networks, remove, room),
                NetworkCommissioningStatus::NetworkIdNotFound,
                None,
            )
            &&& replies(
                command_step::<C>(networks, reorder, room),
                NetworkCommissioningStatus::NetworkIdNotFound,
                None,
            )
        }),
{
    lemma_is_unknown::<C>(context.state.networks, id);
}

/// A network that can be connected to is connected to with its own credentials. A scan is for what
/// is asked for. Neither changes the networks.
pub proof fn lemma_connect_and_scan<C: NetworkCredentials>(
    context: NetworkContextView<C::V>,
    id: Seq<u8>,
    wanted: Option<Seq<u8>>,
    room: nat,
    i: int,
)
    requires
        is_at::<C>(context.state.networks, id, i),
    ensures
        ({
            let connect = CommandView::ConnectNetwork { network_id: id };
            let scan = CommandView::ScanNetworks { wanted };
            let networks = context.state.networks;
            &&& command_step::<C>(networks, connect, room) == InvokeStepView::Connect(
                id,
                networks[i],
            )
            &&& after_command::<C>(context, connect, room) == context
            &&& command_step::<C>(networks, scan, room) == InvokeStepView::<C::V>::Scan(wanted)
            &&& after_command::<C>(context, scan, room) == context
        }),
{
    lemma_is_at::<C>(context.state.networks, id, i);
}

/// The network that was asked for is the one that the device connects to next, whichever one it
/// used before; that it was asked for is a change to be stored.
pub proof fn lemma_asked_for_is_next<C: NetworkCredentials>(
    context: NetworkContextView<C::V>,
    last: Option<C::V>,
    i: int,
)
    requires
        0 <= i < context.state.networks.len(),
        distinct_ids::<C>(context.state.networks),
    ensures
        ({
            let networks = context.state.networks;
            let after = asked_for(context, C::id_of(networks[i]));
            &&& pick_step::<C>(last, after.state).action == ManagerAction::Connect(networks[i])
            &&& after.state.changed
            &&& after.state_changed
            &&& after.state.connect_requested == Some(C::id_of(networks[i]))
            &&& after.state.networks == networks
            &&& after.state.connected_once == context.state.connected_once
            &&& after.state.status == context.state.status
            &&& after.concurrent_connection == context.concurrent_connection
            &&& after.network_connect_requested == context.network_connect_requested
        }),
{
    lemma_position::<C>(context.state.networks, C::id_of(context.state.networks[i]));
}

/// Where SSIDs are text there is no scanning, and there are no Thread networks; all else can be
/// asked for.
pub proof fn lemma_unsupported(cmd: CommandView)
    ensures
        unsupported(cmd) == Some(ErrorCode::Busy) <==> cmd is ScanNetworks,
        unsupported(cmd) == Some(ErrorCode::CommandNotFound) <==> cmd is AddOrUpdateThreadNetwork,
        unsupported(cmd) is None <==> {
            ||| cmd is AddOrUpdateWifiNetwork
            ||| cmd is RemoveNetwork
            ||| cmd is ConnectNetwork
            ||| cmd is ReorderNetwork
        },
{
}

/// Where SSIDs are text the same happens when a network is asked for.
pub proof fn lemma_asked_for_text(
    context: NetworkContextView<crate::wifi::WifiCredentialsView>,
    id: Seq<u8>,
)
    ensures
        crate::wifi::comm::connect_requested(context, id) == asked_for(context, id),
{
}

/// Once the reply to a request for a network was written, this is notified of, and not before.
pub proof fn lemma_replied<V>(context: NetworkContextView<V>, written: bool)
    ensures
        replied(context, written).network_connect_requested <==> written
            || context.network_connect_requested,
        replied(context, written).state == context.state,
        replied(context, written).state_changed == context.state_changed,
        replied(context, written).concurrent_connection == context.concurrent_connection,
{
}

/// A command is refused exactly for an ID or credentials that are none.
pub proof fn lemma_refused_commands<C: NetworkCredentials>(
    id: Seq<u8>,
    index: u8,
    ssid: Seq<u8>,
    credentials: Seq<u8>,
    op_dataset: Seq<u8>,
)
    ensures
        command_refusal::<C>(CommandView::ScanNetworks { wanted: None }) is None,
        command_refusal::<C>(CommandView::ScanNetworks { wanted: Some(id) })
            == C::NetworkId::refusal(id),
        command_refusal::<C>(CommandView::RemoveNetwork { network_id: id })
            == C::NetworkId::refusal(id),
        command_refusal::<C>(CommandView::ConnectNetwork { network_id: id })
            == C::NetworkId::refusal(id),
        command_refusal::<C>(CommandView::ReorderNetwork { network_id: id, index })
            == C::NetworkId::refusal(id),
        forall|creds: C::V|
            #[trigger] adds::<C>(
                CommandView::AddOrUpdateWifiNetwork { ssid, credentials },
                creds,
            ) ==> command_refusal::<C>(
                CommandView::AddOrUpdateWifiNetwork { ssid, credentials },
            ) is None,
        forall|creds: C::V|
            #[trigger] adds::<C>(CommandView::AddOrUpdateThreadNetwork { op_dataset }, creds)
                ==> command_refusal::<C>(
                CommandView::AddOrUpdateThreadNetwork { op_dataset },
            ) is None,
        C::of_wifi(ssid, credentials) matches Err(code) ==> command_refusal::<C>(
            CommandView::AddOrUpdateWifiNetwork { ssid, credentials },
        ) == Some(code),
        C::of_thread(op_dataset) matches Err(code) ==> command_refusal::<C>(
            CommandView::AddOrUpdateThreadNetwork { op_dataset },
        ) == Some(code),
{
}

/// The networks are shown in their order, each with its ID; the one that the last attempt made a
/// connection to is shown as connected, and no other.
pub proof fn lemma_networks_attribute<C: NetworkCredentials>(
    state: NetworkStateView<C::V>,
    max_networks: u8,
    wifi: bool,
    i: int,
)
    requires
        0 <= i < state.networks.len(),
    ensures
        attr_value::<C>(state, max_networks, wifi, false, false, 1) matches Some(
            AttrReplyView::Networks(infos),
        ) && {
            &&& infos.len() == state.networks.len()
            &&& infos[i].network_id == C::id_of(state.networks[i])
            &&& infos[i].connected <==> state.status is Some && state.status->Some_0.network_id
                == C::id_of(state.networks[i]) && state.status->Some_0.status
                == NetworkCommissioningStatus::Success
        },
{
}

/// What else can be read of the cluster. What the reader knows already is not given again, and
/// what every cluster has is left to the metadata of the cluster.
pub proof fn lemma_other_attributes<C: NetworkCredentials>(
    state: NetworkStateView<C::V>,
    max_networks: u8,
    wifi: bool,
    system: bool,
    attr_id: u32,
)
    ensures
        attr_value::<C>(state, max_networks, wifi, true, system, attr_id) == Some(
            AttrReplyView::UpToDate,
        ),
        attr_value::<C>(state, max_networks, wifi, false, true, attr_id) == Some(
            AttrReplyView::System { wifi },
        ),
        attr_value::<C>(state, max_networks, wifi, false, false, 0) == Some(
            AttrReplyView::Number(max_networks),
        ),
        attr_value::<C>(state, max_networks, wifi, false, false, 2) == Some(
            AttrReplyView::Number(30),
        ),
        attr_value::<C>(state, max_networks, wifi, false, false, 3) == Some(
            AttrReplyView::Number(60),
        ),
        attr_value::<C>(state, max_networks, wifi, false, false, 4) == Some(
            AttrReplyView::Flag(true),
        ),
        attr_id > 7 ==> attr_value::<C>(
            state,
            max_networks,
            wifi,
            false,
            false,
            attr_id,
        ) is None,
        ({
            let code = attr_value::<C>(state, max_networks, wifi, false, false, 5);
            let id = attr_value::<C>(state, max_networks, wifi, false, false, 6);
            let error = attr_value::<C>(state, max_networks, wifi, false, false, 7);
            match state.status {
                None => {
                    &&& code == Some(AttrReplyView::Status(None))
                    &&& id == Some(AttrReplyView::NetworkId(None))
                    &&& error == Some(AttrReplyView::ErrorValue(None))
                },
                Some(status) => {
                    &&& code == Some(AttrReplyView::Status(Some(status.status.spec_code())))
                    &&& id == Some(AttrReplyView::NetworkId(Some(status.network_id)))
                    &&& error == Some(AttrReplyView::ErrorValue(Some(status.value)))
                },
            }
        }),
{
}

/// The statuses in the order of their numbers.
pub open spec fn statuses() -> Seq<NetworkCommissioningStatus> {
    seq![
        NetworkCommissioningStatus::Success,
        NetworkCommissioningStatus::OutOfRange,
        NetworkCommissioningStatus::BoundsExceeded,
        NetworkCommissioningStatus::NetworkIdNotFound,
        NetworkCommissioningStatus::DuplicateNetworkId,
        NetworkCommissioningStatus::NetworkNotFound,
        NetworkCommissioningStatus::RegulatoryError,
        NetworkCommissioningStatus::AuthFailure,
        NetworkCommissioningStatus::UnsupportedSecurity,
        NetworkCommissioningStatus::OtherConnectionFailure,
        NetworkCommissioningStatus::Ipv6Failed,
        NetworkCommissioningStatus::IpBindFailed,
        NetworkCommissioningStatus::UnknownError,
    ]
}

/// The attributes in the order of their IDs.
pub open spec fn attributes() -> Seq<Attributes> {
    seq![
        Attributes::MaxNetworks,
        Attributes::Networks,
        Attributes::ScanMaxTimeSecs,
        Attributes::ConnectMaxTimeSecs,
        Attributes::InterfaceEnabled,
        Attributes::LastNetworkingStatus,
        Attributes::LastNetworkID,
        Attributes::LastConnectErrorValue,
    ]
}

/// The commands in the order of their IDs; the missing ones are replies or unknown.
pub open spec fn commands() -> Seq<Option<Commands>> {
    seq![
        Some(Commands::ScanNetworks),
        None,
        Some(Commands::AddOrUpdateWifiNetwork),
        Some(Commands::AddOrUpdateThreadNetwork),
        Some(Commands::RemoveNetwork),
        None,
        Some(Commands::ConnectNetwork),
        None,
        Some(Commands::ReorderNetwork),
    ]
}

/// Statuses, attributes and commands have just the numbers of the Matter protocol.
pub proof fn lemma_protocol_numbers(id: u32)
    ensures
        id < 13 ==> statuses()[id as int].spec_code() == id,
        Attributes::of_id(id) == (if id < 8 {
            Some(attributes()[id as int])
        } else {
            None
        }),
        Commands::of_id(id) == (if id < 9 {
            commands()[id as int]
        } else {
            None
        }),
{
}

/// Of the reports of a scan just the results are written, and the response is started right before
/// the first of them.
pub proof fn lemma_scan_is_written(reports: Seq<bool>, i: int)
    requires
        0 <= i < reports.len(),
    ensures
        scan_writes(reports).len() == reports.len(),
        scan_writes(reports)[i] == ScanWrite::Nothing <==> !reports[i],
        scan_writes(reports)[i] == ScanWrite::StartAndResult <==> reports[i] && forall|j: int|
            0 <= j < i ==> !#[trigger] reports[j],
{
    let before = reports.take(i);
    if scan_started(before) {
        let j = choose|j: int| 0 <= j < before.len() && #[trigger] before[j];
        assert(reports[j]);
    } else {
        assert forall|j: int| 0 <= j < i implies !#[trigger] reports[j] by {
            assert(before[j] == reports[j]);
        }
    }
}

/// The response is started with the first result, and stays so.
pub proof fn lemma_scan_start(reports: Seq<bool>, result: bool)
    ensures
        started_after(scan_started(reports), result) == scan_started(reports.push(result)),
        !scan_started(Seq::empty()),
        scan_started(reports) <==> exists|i: int| 0 <= i < reports.len() && #[trigger] reports[i],
{
    let all = reports.push(result);
    if scan_started(reports) {
        let i = choose|i: int| 0 <= i < reports.len() && #[trigger] reports[i];
        assert(all[i]);
    }
    if result {
        assert(all[reports.len() as int]);
    }
    if scan_started(all) && !result {
        let i = choose|i: int| 0 <= i < all.len() && #[trigger] all[i];
        assert(reports[i]);
    }
}

/// What is written for one report tells whether a response has been started.
pub proof fn lemma_scan_write(started: bool)
    ensures
        scan_write(started, false) == ScanWrite::Nothing,
        scan_write(true, true) == ScanWrite::Result,
        scan_write(false, true) == ScanWrite::StartAndResult,
{
}

/// The version of the data is one more with every change, and all of them have their turn before
/// one comes again.
pub proof fn lemma_versions(a: Dataver, b: Dataver)
    ensures
        a.0 < 0xffff_ffff ==> a.next().0 == a.0 + 1,
        a.0 == 0xffff_ffff ==> a.next().0 == 0,
        a.next() == b.next() ==> a == b,
        a.after(true) == a.next(),
        a.after(false) == a,
{
}

/// Networks that are loaded up to an entry that is none are kept, and the entry tells why the
/// loading has ended.
pub proof fn lemma_load_up_to_bad_entry<V>(
    kept: Seq<V>,
    networks: Seq<V>,
    bad: StoredNetwork<V>,
    rest: Seq<StoredNetwork<V>>,
    room: nat,
)
    requires
        kept.len() + networks.len() < room,
        !(bad is Credentials),
    ensures
        load_networks(kept, store_networks(networks) + seq![bad] + rest, room) == (
            kept + networks,
            Some(
                match bad {
                    StoredNetwork::Malformed(code) => code,
                    StoredNetwork::Undecodable(code) => code,
                    StoredNetwork::Credentials(_) => ErrorCode::NoSpace,
                },
            ),
        ),
    decreases networks.len(),
{
    let items = store_networks(networks) + seq![bad] + rest;
    if networks.len() == 0 {
        assert(items[0] == bad);
        assert(kept + networks =~= kept);
    } else {
        let next = networks.skip(1);
        lemma_load_up_to_bad_entry(kept.push(networks[0]), next, bad, rest, room);
        assert(items[0] == StoredNetwork::Credentials(networks[0]));
        assert(items.skip(1) =~= store_networks(next) + seq![bad] + rest);
        assert(kept.push(networks[0]) + next =~= kept + networks);
    }
}

/// When there is no room for more, a further entry ends the loading for want of room, unless it
/// is no entry at all.
pub proof fn lemma_load_without_room<V>(
    kept: Seq<V>,
    networks: Seq<V>,
    entry: StoredNetwork<V>,
    rest: Seq<StoredNetwork<V>>,
)
    ensures
        load_networks(
            kept,
            store_networks(networks) + seq![entry] + rest,
            kept.len() + networks.len(),
        ) == (
            kept + networks,
            Some(
                match entry {
                    StoredNetwork::Malformed(code) => code,
                    _ => ErrorCode::NoSpace,
                },
            ),
        ),
    decreases networks.len(),
{
    let items = store_networks(networks) + seq![entry] + rest;
    if networks.len() == 0 {
        assert(items[0] == entry);
        assert(kept + networks =~= kept);
    } else {
        let next = networks.skip(1);
        lemma_load_without_room(kept.push(networks[0]), next, entry, rest);
        assert(items[0] == StoredNetwork::Credentials(networks[0]));
        assert(items.skip(1) =~= store_networks(next) + seq![entry] + rest);
        assert(kept.push(networks[0]) + next =~= kept + networks);
    }
}

/// Stored networks that are loaded replace all others, and count as unchanged only if all of them
/// could be taken over. What is no list changes nothing. Nothing else is touched.
pub proof fn lemma_load_replaces_networks<C: NetworkCredentials>(
    context: NetworkContextView<C::V>,
    stored: Result<Vec<StoredNetwork<C>>, ErrorCode>,
    room: nat,
)
    ensures
        ({
            let (after, res) = load_context::<C>(context, stored, room);
            match stored {
                Err(code) => after == context && res == Err::<(), ErrorCode>(code),
                Ok(items) => {
                    let (networks, failure) = load_networks(
                        Seq::empty(),
                        crate::wireless::store::stored_view(items@),
                        room,
                    );
                    &&& after.state.networks == networks
                    &&& after.state.changed == (context.state.changed && failure is Some)
                    &&& after.state.connected_once == context.state.connected_once
                    &&& after.state.connect_requested == context.state.connect_requested
                    &&& after.state.status == context.state.status
                    &&& after.state_changed == context.state_changed
                    &&& after.concurrent_connection == context.concurrent_connection
                    &&& after.network_connect_requested == context.network_connect_requested
                    &&& res is Ok <==> failure is None
                    &&& failure matches Some(code) ==> res == Err::<(), ErrorCode>(code)
                },
            }
        }),
{
}

/// Networks that were written are no longer changed, and those that could not be written are as
/// much changed as before. Nothing else is touched.
pub proof fn lemma_stored<V>(context: NetworkContextView<V>)
    ensures
        stored_context(context, false) == context,
        ({
            let after = stored_context(context, true);
            &&& !after.state.changed
            &&& after.state.networks == context.state.networks
            &&& after.state.connected_once == context.state.connected_once
            &&& after.state.connect_requested == context.state.connect_requested
            &&& after.state.status == context.state.status
            &&& after.state_changed == context.state_changed
            &&& after.concurrent_connection == context.concurrent_connection
            &&& after.network_connect_requested == context.network_connect_requested
        }),
{
}

/// A wait is over exactly when what is waited for has happened, however often and by whomever it
/// was waited for before; otherwise the notifications so far are used up, and nothing else is
/// touched.
pub proof fn lemma_waits<V>(context: NetworkContextView<V>)
    ensures
        ({
            let (after, ready) = awaited_request(context);
            &&& ready <==> context.state.connect_requested is Some
            &&& ready ==> after == context
            &&& !ready ==> !after.network_connect_requested
            &&& after.state == context.state
            &&& after.state_changed == context.state_changed
            &&& after.concurrent_connection == context.concurrent_connection
        }),
        ({
            let (after, ready) = awaited_change(context);
            &&& ready <==> context.state.changed
            &&& ready ==> after == context
            &&& !ready ==> !after.state_changed
            &&& after.state == context.state
            &&& after.network_connect_requested == context.network_connect_requested
            &&& after.concurrent_connection == context.concurrent_connection
        }),
{
}

/// Who waits for a network to be asked for does so no longer once it was asked for, and finds a
/// change that is to be stored; who waits for that change does so until it was stored.
pub proof fn lemma_request_ends_waits<V>(context: NetworkContextView<V>, id: Seq<u8>)
    ensures
        awaited_request(replied(asked_for(context, id), true)).1,
        awaited_change(asked_for(context, id)).1,
        !awaited_change(stored_context(asked_for(context, id), true)).1,
{
}

/// A context that was reset is like one of a device that was never used: no network is known, none
/// was asked for or connected to, and there is nothing to store.
pub proof fn lemma_nothing_is_known<C: NetworkCredentials>()
    ensures
        ({
            let state = NetworkStateView::<C::V>::empty();
            &&& state.networks.len() == 0
            &&& !state.connected_once
            &&& state.connect_requested is None
            &&& state.status is None
            &&& !state.changed
        }),
        ({
            let context = new_context::<C::V>();
            &&& context.state == NetworkStateView::<C::V>::empty()
            &&& !context.state_changed
            &&& !context.concurrent_connection
            &&& !context.network_connect_requested
        }),
{
}

/// A network that is known and was asked for comes next, whichever one was the last one.
pub proof fn lemma_asked_for_network<C: NetworkCredentials>(
    networks: Seq<C::V>,
    id: Seq<u8>,
    last: Option<Seq<u8>>,
    i: int,
)
    requires
        is_at::<C>(networks, id, i),
    ensures
        next_network::<C>(networks, Some(id), last) == Some(networks[i]),
{
    lemma_is_at::<C>(networks, id, i);
}

/// A reset of the networks forgets all that was known of them. Whether somebody was notified of
/// something is another matter.
pub proof fn lemma_reset<const N: usize, T: WirelessData>(
    before: NetworkContext<N, T>,
    after: NetworkContext<N, T>,
)
    requires
        after.is_reset_of(before),
    ensures
        after@.state.networks.len() == 0,
        !after@.state.connected_once,
        after@.state.connect_requested is None,
        after@.state.status is None,
        !after@.state.changed,
        !after.spec_changed(),
        after@.state_changed == before@.state_changed,
        after@.concurrent_connection == before@.concurrent_connection,
        after@.network_connect_requested == before@.network_connect_requested,
{
}

/// Which network comes next otherwise: the one that follows the last one, else the first; without
/// networks there is none.
pub proof fn lemma_next_network<C: NetworkCredentials>(
    networks: Seq<C::V>,
    requested: Option<Seq<u8>>,
    last: Option<Seq<u8>>,
    i: int,
)
    requires
        requested matches Some(id) ==> is_unknown::<C>(networks, id),
    ensures
        networks.len() == 0 ==> next_network::<C>(networks, requested, last) is None,
        last matches Some(id) && is_at::<C>(networks, id, i) ==> next_network::<C>(
            networks,
            requested,
            last,
        ) == Some(networks[if i + 1 < networks.len() { i + 1 } else { 0 }]),
        networks.len() > 0 && (last matches Some(id) ==> is_unknown::<C>(networks, id))
            ==> next_network::<C>(networks, requested, last) == Some(networks[0]),
{
    if let Some(id) = requested {
        lemma_is_unknown::<C>(networks, id);
    }
    if let Some(id) = last {
        lemma_position::<C>(networks, id);
    }
}

} // verus!
