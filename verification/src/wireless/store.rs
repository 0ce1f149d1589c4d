//! The network state store for the wireless module.

use vstd::prelude::*;

use crate::bytes::bytes_eq;
use crate::error::ErrorCode;
use crate::wireless::traits::{NetworkCredentials, NetworkId, WirelessData};

verus! {

/// The outcome of an operation on a network.
#[derive(Debug, Clone, Copy, PartialEq, Eq, Structural)]
pub enum NetworkCommissioningStatus {
    Success,
    OutOfRange,
    BoundsExceeded,
    NetworkIdNotFound,
    DuplicateNetworkId,
    NetworkNotFound,
    RegulatoryError,
    AuthFailure,
    UnsupportedSecurity,
    OtherConnectionFailure,
    Ipv6Failed,
    IpBindFailed,
    UnknownError,
}

impl NetworkCommissioningStatus {
    /// The number that stands for the status in the Matter protocol.
    pub open spec fn spec_code(self) -> u8 {
        match self {
            NetworkCommissioningStatus::Success => 0,
            NetworkCommissioningStatus::OutOfRange => 1,
            NetworkCommissioningStatus::BoundsExceeded => 2,
            NetworkCommissioningStatus::NetworkIdNotFound => 3,
            NetworkCommissioningStatus::DuplicateNetworkId => 4,
            NetworkCommissioningStatus::NetworkNotFound => 5,
            NetworkCommissioningStatus::RegulatoryError => 6,
            NetworkCommissioningStatus::AuthFailure => 7,
            NetworkCommissioningStatus::UnsupportedSecurity => 8,
            NetworkCommissioningStatus::OtherConnectionFailure => 9,
            NetworkCommissioningStatus::Ipv6Failed => 10,
            NetworkCommissioningStatus::IpBindFailed => 11,
            NetworkCommissioningStatus::UnknownError => 12,
        }
    }

    /// The number that stands for the status in the Matter protocol.
    pub fn code(self) -> (res: u8)
        ensures
            res == self.spec_code(),
    {
        match self {
            NetworkCommissioningStatus::Success => 0,
            NetworkCommissioningStatus::OutOfRange => 1,
            NetworkCommissioningStatus::BoundsExceeded => 2,
            NetworkCommissioningStatus::NetworkIdNotFound => 3,
            NetworkCommissioningStatus::DuplicateNetworkId => 4,
            NetworkCommissioningStatus::NetworkNotFound => 5,
            NetworkCommissioningStatus::RegulatoryError => 6,
            NetworkCommissioningStatus::AuthFailure => 7,
            NetworkCommissioningStatus::UnsupportedSecurity => 8,
            NetworkCommissioningStatus::OtherConnectionFailure => 9,
            NetworkCommissioningStatus::Ipv6Failed => 10,
            NetworkCommissioningStatus::IpBindFailed => 11,
            NetworkCommissioningStatus::UnknownError => 12,
        }
    }
}

/// The contents of `NetworkStatus`.
pub struct NetworkStatusView {
    pub network_id: Seq<u8>,
    pub status: NetworkCommissioningStatus,
    pub value: i32,
}

/// The outcome of the last attempt to connect.
#[derive(Debug)]
pub struct NetworkStatus<I> {
    pub network_id: I,
    pub status: NetworkCommissioningStatus,
    pub value: i32,
}

impl<I: NetworkId> View for NetworkStatus<I> {
    type V = NetworkStatusView;

    open spec fn view(&self) -> NetworkStatusView {
        NetworkStatusView {
            network_id: self.network_id@,
            status: self.status,
            value: self.value,
        }
    }
}

/// The contents of `NetworkState`.
pub struct NetworkStateView<C> {
    pub networks: Seq<C>,
    pub connected_once: bool,
    pub connect_requested: Option<Seq<u8>>,
    pub status: Option<NetworkStatusView>,
    pub changed: bool,
}

impl<C> NetworkStateView<C> {
    /// The state that knows no network.
    pub open spec fn empty() -> Self {
        NetworkStateView {
            networks: Seq::empty(),
            connected_once: false,
            connect_requested: None,
            status: None,
            changed: false,
        }
    }
}

/// The networks that are known, in order of preference, and what has been done with them.
///
/// At most `N` networks are kept.
pub struct NetworkState<const N: usize, T> where T: NetworkCredentials {
    pub networks: Vec<T>,
    pub connected_once: bool,
    pub connect_requested: Option<T::NetworkId>,
    pub status: Option<NetworkStatus<T::NetworkId>>,
    pub changed: bool,
}

/// The contents of a list of credentials.
pub open spec fn networks_view<T: NetworkCredentials>(networks: Seq<T>) -> Seq<T::V> {
    networks.map_values(|creds: T| creds@)
}

/// The contents of an identifier that may be missing.
pub open spec fn id_view<I: NetworkId>(id: Option<I>) -> Option<Seq<u8>> {
    match id {
        Some(id) => Some(id@),
        None => None,
    }
}

/// The contents of a status that may be missing.
pub open spec fn status_view<I: NetworkId>(status: Option<NetworkStatus<I>>) -> Option<
    NetworkStatusView,
> {
    match status {
        Some(status) => Some(status@),
        None => None,
    }
}

impl<const N: usize, T: NetworkCredentials> View for NetworkState<N, T> {
    type V = NetworkStateView<T::V>;

    open spec fn view(&self) -> NetworkStateView<T::V> {
        NetworkStateView {
            networks: networks_view(self.networks@),
            connected_once: self.connected_once,
            connect_requested: id_view(self.connect_requested),
            status: status_view(self.status),
            changed: self.changed,
        }
    }
}

/// The position of the first network with the given ID.
pub open spec fn position<T: NetworkCredentials>(networks: Seq<T::V>, id: Seq<u8>) -> Option<int>
    decreases networks.len(),
{
    if networks.len() == 0 {
        None
    } else if T::id_of(networks[0]) == id {
        Some(0)
    } else {
        match position::<T>(networks.skip(1), id) {
            Some(i) => Some(i + 1),
            None => None,
        }
    }
}

/// The position of an ID is the one where no earlier network has that ID, if there is any.
pub proof fn lemma_position<T: NetworkCredentials>(networks: Seq<T::V>, id: Seq<u8>)
    ensures
        match position::<T>(networks, id) {
            Some(i) => {
                &&& 0 <= i < networks.len()
                &&& T::id_of(networks[i]) == id
                &&& forall|j: int| 0 <= j < i ==> T::id_of(#[trigger] networks[j]) != id
            },
            None => forall|j: int|
                0 <= j < networks.len() ==> T::id_of(#[trigger] networks[j]) != id,
        },
    decreases networks.len(),
{
    if networks.len() > 0 && T::id_of(networks[0]) != id {
        let rest = networks.skip(1);
        lemma_position::<T>(rest, id);
        assert forall|j: int|
            0 < j < networks.len() && (match position::<T>(rest, id) {
                Some(i) => j < i + 1,
                None => true,
            }) implies T::id_of(#[trigger] networks[j]) != id by {
            assert(rest[j - 1] == networks[j]);
        }
    }
}

/// Looks for the first network with the given ID.
pub fn find<T: NetworkCredentials>(networks: &Vec<T>, id: &[u8]) -> (res: Option<usize>)
    ensures
        match position::<T>(networks_view(networks@), id@) {
            Some(i) => res is Some && res->Some_0 == i,
            None => res is None,
        },
        res matches Some(i) ==> i < networks.len() && T::id_of(networks[i as int]@) == id@,
{
    let ghost view = networks_view(networks@);
    let mut i: usize = 0;
    proof {
        lemma_position::<T>(view, id@);
    }
    while i < networks.len()
        invariant
            i <= networks.len(),
            view == networks_view(networks@),
            match position::<T>(view, id@) {
                Some(p) => {
                    &&& 0 <= p < view.len()
                    &&& T::id_of(view[p]) == id@
                    &&& forall|j: int| 0 <= j < p ==> T::id_of(#[trigger] view[j]) != id@
                },
                None => forall|j: int| 0 <= j < view.len() ==> T::id_of(#[trigger] view[j]) != id@,
            },
            forall|j: int| 0 <= j < i ==> T::id_of(#[trigger] view[j]) != id@,
        decreases networks.len() - i,
    {
        let network_id = networks[i].network_id();
        assert(T::id_of(view[i as int]) == network_id@);
        if bytes_eq(network_id.as_ref(), id) {
            return Some(i);
        }
        i = i + 1;
    }
    None
}

/// The network to try after the one with the ID `last`: the requested one if it is known, else
/// the one that follows `last`, else the first.
pub open spec fn next_network<T: NetworkCredentials>(
    networks: Seq<T::V>,
    requested: Option<Seq<u8>>,
    last: Option<Seq<u8>>,
) -> Option<T::V> {
    let asked_for = match requested {
        Some(id) => position::<T>(networks, id),
        None => None,
    };
    let following = match last {
        Some(id) => match position::<T>(networks, id) {
            Some(i) => i + 1,
            None => networks.len() as int,
        },
        None => networks.len() as int,
    };
    if asked_for is Some {
        Some(networks[asked_for->Some_0])
    } else if following < networks.len() {
        Some(networks[following])
    } else if networks.len() > 0 {
        Some(networks[0])
    } else {
        None
    }
}

impl<const N: usize, T> NetworkState<N, T> where T: NetworkCredentials {
    /// No more networks are kept than there is room for.
    pub open spec fn wf(&self) -> bool {
        self.networks.len() <= N
    }

    /// Create a state that knows no network.
    pub fn new() -> (res: Self)
        ensures
            res.wf(),
            res@ == NetworkStateView::<T::V>::empty(),
    {
        let res = Self {
            networks: Vec::new(),
            connected_once: false,
            connect_requested: None,
            status: None,
            changed: false,
        };
        assert(res@.networks =~= Seq::<T::V>::empty());
        res
    }

    /// Return the next network to connect to, and forget the requested one.
    pub fn get_next_network(&mut self, last_network_id: Option<&T::NetworkId>) -> (res: Option<T>)
        requires
            old(self).wf(),
        ensures
            final(self).wf(),
            final(self)@ == (NetworkStateView { connect_requested: None, ..old(self)@ }),
            match next_network::<T>(
                old(self)@.networks,
                old(self)@.connect_requested,
                match last_network_id {
                    Some(id) => Some(id@),
                    None => None,
                },
            ) {
                Some(creds) => res is Some && res->Some_0@ == creds,
                None => res is None,
            },
    {
        // Return the requested network with priority
        if let Some(network_id) = self.connect_requested.take() {
            if let Some(index) = find(&self.networks, network_id.as_ref()) {
                return Some(self.networks[index].duplicate());
            }
        }
        // Return the network positioned after the last one used

        if let Some(last_network_id) = last_network_id {
            if let Some(index) = find(&self.networks, last_network_id.as_ref()) {
                if index + 1 < self.networks.len() {
                    return Some(self.networks[index + 1].duplicate());
                }
            }
        }
        // Wrap over

        if self.networks.len() > 0 {
            Some(self.networks[0].duplicate())
        } else {
            None
        }
    }

    /// Forget everything.
    pub fn reset(&mut self)
        ensures
            final(self).wf(),
            final(self)@ == NetworkStateView::<T::V>::empty(),
    {
        self.networks.clear();
        self.connected_once = false;
        self.connect_requested = None;
        self.status = None;
        self.changed = false;
        assert(self@.networks =~= Seq::<T::V>::empty());
    }

    /// Replace the networks by the stored ones.
    ///
    /// A blob that is no list leaves everything as it is. Otherwise the networks up to the first
    /// one that cannot be taken over are kept.
    pub fn load(&mut self, stored: &Result<Vec<StoredNetwork<T>>, ErrorCode>) -> (res: Result<
        (),
        ErrorCode,
    >)
        ensures
            match *stored {
                Err(code) => res == Err::<(), ErrorCode>(code) && *final(self) == *old(self),
                Ok(items) => {
                    let (networks, failure) = load_networks(
                        Seq::empty(),
                        stored_view(items@),
                        N as nat,
                    );
                    &&& final(self).wf()
                    &&& match failure {
                        Some(code) => {
                            &&& res == Err::<(), ErrorCode>(code)
                            &&& final(self)@ == (NetworkStateView { networks, ..old(self)@ })
                        },
                        None => {
                            &&& res == Ok::<(), ErrorCode>(())
                            &&& final(self)@ == (NetworkStateView {
                                networks,
                                changed: false,
                                ..old(self)@
                            })
                        },
                    }
                },
            },
    {
        let items: &Vec<StoredNetwork<T>> = match stored {
            Ok(items) => items,
            Err(code) => return Err(*code),
        };

        self.networks.clear();
        let ghost view = stored_view(items@);
        assert(networks_view(self.networks@) =~= Seq::<T::V>::empty());
        assert(view.skip(0) =~= view);

        let mut i: usize = 0;
        while i < items.len()
            invariant
                i <= items.len(),
                *stored == Ok::<Vec<StoredNetwork<T>>, ErrorCode>(*items),
                view == stored_view(items@),
                self.networks.len() <= N,
                self.networks.len() == i,
                self@ == (NetworkStateView { networks: self@.networks, ..old(self)@ }),
                load_networks(Seq::empty(), view, N as nat) == load_networks(
                    self@.networks,
                    view.skip(i as int),
                    N as nat,
                ),
            decreases items.len() - i,
        {
            assert(view.skip(i as int)[0] == view[i as int]);
            assert(view[i as int] == items[i as int]@);
            assert(view.skip(i as int).skip(1) =~= view.skip(i + 1));
            match &items[i] {
                StoredNetwork::Malformed(code) => return Err(*code),
                StoredNetwork::Undecodable(code) => {
                    if self.networks.len() >= N {
                        return Err(ErrorCode::NoSpace);
                    }
                    return Err(*code);
                },
                StoredNetwork::Credentials(creds) => {
                    if self.networks.len() >= N {
                        return Err(ErrorCode::NoSpace);
                    }
                    let ghost before = self@.networks;
                    self.networks.push(creds.duplicate());
                    assert(self@.networks =~= before.push(creds@));
                },
            }
            i = i + 1;
        }
        assert(view.skip(i as int).len() == 0);
        self.changed = false;
        Ok(())
    }

    /// The networks to be stored.
    pub fn to_store(&self) -> (networks: &Vec<T>)
        ensures
            networks_view(networks@) == self@.networks,
            networks@ == self.networks@,
    {
        &self.networks
    }

    /// Take note of whether the networks could be written: `written` is the number of bytes
    /// that they took. Written networks no longer count as changed.
    pub fn store(&mut self, written: Result<usize, ErrorCode>) -> (res: Result<usize, ErrorCode>)
        ensures
            res == written,
            final(self)@ == (NetworkStateView {
                changed: old(self)@.changed && written is Err,
                ..old(self)@
            }),
            final(self).networks@ == old(self).networks@,
    {
        if written.is_ok() {
            self.changed = false;
        }
        written
    }
}

/// One entry of a stored list of networks.
#[derive(Debug)]
pub enum StoredNetwork<T> {
    /// The bytes at this place are no entry of a list.
    Malformed(ErrorCode),
    /// The entry does not hold credentials.
    Undecodable(ErrorCode),
    /// The entry holds credentials.
    Credentials(T),
}

impl<T: NetworkCredentials> View for StoredNetwork<T> {
    type V = StoredNetwork<T::V>;

    open spec fn view(&self) -> StoredNetwork<T::V> {
        match *self {
            StoredNetwork::Malformed(code) => StoredNetwork::Malformed(code),
            StoredNetwork::Undecodable(code) => StoredNetwork::Undecodable(code),
            StoredNetwork::Credentials(creds) => StoredNetwork::Credentials(creds@),
        }
    }
}

/// The contents of a stored list of networks.
pub open spec fn stored_view<T: NetworkCredentials>(items: Seq<StoredNetwork<T>>) -> Seq<
    StoredNetwork<T::V>,
> {
    items.map_values(|item: StoredNetwork<T>| item@)
}

/// The networks that are kept when `items` are added to the `kept` ones with room for `room`
/// networks in all, and what stops the loading before the end of `items`.
pub open spec fn load_networks<C>(
    kept: Seq<C>,
    items: Seq<StoredNetwork<C>>,
    room: nat,
) -> (Seq<C>, Option<ErrorCode>)
    decreases items.len(),
{
    if items.len() == 0 {
        (kept, None)
    } else {
        match items[0] {
            StoredNetwork::Malformed(code) => (kept, Some(code)),
            StoredNetwork::Undecodable(code) => if kept.len() >= room {
                (kept, Some(ErrorCode::NoSpace))
            } else {
                (kept, Some(code))
            },
            StoredNetwork::Credentials(creds) => if kept.len() >= room {
                (kept, Some(ErrorCode::NoSpace))
            } else {
                load_networks(kept.push(creds), items.skip(1), room)
            },
        }
    }
}

/// The entries that hold the given networks.
pub open spec fn store_networks<C>(networks: Seq<C>) -> Seq<StoredNetwork<C>> {
    networks.map_values(|creds: C| StoredNetwork::Credentials(creds))
}

/// What is loaded is what was stored: the entries of the stored networks give back these
/// networks in the same order, and nothing stops the loading as long as there is room.
pub proof fn lemma_load_stored<C>(kept: Seq<C>, networks: Seq<C>, room: nat)
    requires
        kept.len() + networks.len() <= room,
    ensures
        load_networks(kept, store_networks(networks), room) == (
            kept + networks,
            None::<ErrorCode>,
        ),
    decreases networks.len(),
{
    let items = store_networks(networks);
    if networks.len() == 0 {
        assert(kept + networks =~= kept);
    } else {
        lemma_load_stored(kept.push(networks[0]), networks.skip(1), room);
        assert(items.skip(1) =~= store_networks(networks.skip(1)));
        assert(kept.push(networks[0]) + networks.skip(1) =~= kept + networks);
    }
}

/// Loading more networks than there is room for keeps the first ones and reports the lack of
/// room.
pub proof fn lemma_load_too_many<C>(kept: Seq<C>, networks: Seq<C>, room: nat)
    requires
        kept.len() <= room,
        kept.len() + networks.len() > room,
    ensures
        load_networks(kept, store_networks(networks), room) == (
            (kept + networks).take(room as int),
            Some(ErrorCode::NoSpace),
        ),
    decreases networks.len(),
{
    let items = store_networks(networks);
    if kept.len() == room {
        assert((kept + networks).take(room as int) =~= kept);
    } else {
        lemma_load_too_many(kept.push(networks[0]), networks.skip(1), room);
        assert(items.skip(1) =~= store_networks(networks.skip(1)));
        assert(kept.push(networks[0]) + networks.skip(1) =~= kept + networks);
    }
}

/// No two networks have the same ID.
pub open spec fn distinct_ids<T: NetworkCredentials>(networks: Seq<T::V>) -> bool {
    forall|i: int, j: int|
        0 <= i < j < networks.len() ==> T::id_of(#[trigger] networks[i]) != T::id_of(
            #[trigger] networks[j],
        )
}

/// The network that is tried in the given round, when nobody requests a network in between.
pub open spec fn tried_network<T: NetworkCredentials>(networks: Seq<T::V>, round: nat) -> Option<
    T::V,
>
    decreases round,
{
    if round == 0 {
        next_network::<T>(networks, None, None)
    } else {
        match tried_network::<T>(networks, (round - 1) as nat) {
            Some(creds) => next_network::<T>(networks, None, Some(T::id_of(creds))),
            None => None,
        }
    }
}

/// The networks are tried in a round-robin fashion, in the order of preference.
pub proof fn lemma_round_robin<T: NetworkCredentials>(networks: Seq<T::V>, round: nat)
    requires
        networks.len() > 0,
        distinct_ids::<T>(networks),
    ensures
        tried_network::<T>(networks, round) == Some(networks[round as int % networks.len() as int]),
    decreases round,
{
    let n = networks.len() as int;
    if round > 0 {
        lemma_round_robin::<T>(networks, (round - 1) as nat);
        let i = (round - 1) % n;
        lemma_position::<T>(networks, T::id_of(networks[i]));
        assert(position::<T>(networks, T::id_of(networks[i])) == Some(i));
        assert(round as int % n == if i + 1 < n { i + 1 } else { 0 }) by (nonlinear_arith)
            requires
                n > 0,
                round > 0,
                i == (round - 1) % n,
        ;
    } else {
        assert(0int % n == 0) by (nonlinear_arith)
            requires
                n > 0,
        ;
    }
}

/// A requested network that is known is tried first, whichever one was tried last.
pub proof fn lemma_requested_first<T: NetworkCredentials>(
    networks: Seq<T::V>,
    index: int,
    last: Option<Seq<u8>>,
)
    requires
        0 <= index < networks.len(),
        distinct_ids::<T>(networks),
    ensures
        next_network::<T>(networks, Some(T::id_of(networks[index])), last) == Some(networks[index]),
{
    lemma_position::<T>(networks, T::id_of(networks[index]));
}

/// The contents of `NetworkContext`.
pub struct NetworkContextView<C> {
    pub state: NetworkStateView<C>,
    pub state_changed: bool,
    pub concurrent_connection: bool,
    pub network_connect_requested: bool,
}

/// The context after the stored networks were loaded, and the outcome: a blob that is no list
/// leaves everything as it is; otherwise the networks up to the first one that cannot be taken
/// over are kept, and they count as unchanged only if all could be taken over.
pub open spec fn load_context<T: NetworkCredentials>(
    context: NetworkContextView<T::V>,
    stored: Result<Vec<StoredNetwork<T>>, ErrorCode>,
    room: nat,
) -> (NetworkContextView<T::V>, Result<(), ErrorCode>) {
    match stored {
        Err(code) => (context, Err(code)),
        Ok(items) => {
            let (networks, failure) = load_networks(Seq::empty(), stored_view(items@), room);
            match failure {
                Some(code) => (
                    NetworkContextView {
                        state: NetworkStateView { networks, ..context.state },
                        ..context
                    },
                    Err(code),
                ),
                None => (
                    NetworkContextView {
                        state: NetworkStateView { networks, changed: false, ..context.state },
                        ..context
                    },
                    Ok(()),
                ),
            }
        },
    }
}

/// The context after the networks were written to the storage, or could not be.
pub open spec fn stored_context<C>(context: NetworkContextView<C>, written: bool) ->
    NetworkContextView<C> {
    NetworkContextView {
        state: NetworkStateView {
            changed: context.state.changed && !written,
            ..context.state
        },
        ..context
    }
}

/// The context after a round of waiting until a network was asked for, and whether the wait is
/// over.
pub open spec fn awaited_request<C>(context: NetworkContextView<C>) -> (
    NetworkContextView<C>,
    bool,
) {
    let ready = context.state.connect_requested is Some;
    (
        NetworkContextView {
            network_connect_requested: context.network_connect_requested && ready,
            ..context
        },
        ready,
    )
}

/// The context after a round of waiting until the state has changed, and whether the wait is over.
pub open spec fn awaited_change<C>(context: NetworkContextView<C>) -> (
    NetworkContextView<C>,
    bool,
) {
    let ready = context.state.changed;
    (NetworkContextView { state_changed: context.state_changed && ready, ..context }, ready)
}

/// The context that nothing is known of, and after which nobody was notified of anything.
pub open spec fn new_context<C>() -> NetworkContextView<C> {
    NetworkContextView {
        state: NetworkStateView::empty(),
        state_changed: false,
        concurrent_connection: false,
        network_connect_requested: false,
    }
}

/// The state of the wireless networks, together with the notifications about it that nobody has
/// waited for yet.
pub struct NetworkContext<const N: usize, T> where T: WirelessData {
    pub state: NetworkState<N, T::NetworkCredentials>,
    pub state_changed: bool,
    pub concurrent_connection: bool,
    pub network_connect_requested: bool,
}

impl<const N: usize, T: WirelessData> View for NetworkContext<N, T> {
    type V = NetworkContextView<<T::NetworkCredentials as View>::V>;

    open spec fn view(&self) -> Self::V {
        NetworkContextView {
            state: self.state@,
            state_changed: self.state_changed,
            concurrent_connection: self.concurrent_connection,
            network_connect_requested: self.network_connect_requested,
        }
    }
}

impl<const N: usize, T> NetworkContext<N, T> where T: WirelessData {
    /// The state is well-formed.
    pub open spec fn wf(&self) -> bool {
        self.state.wf()
    }

    /// Create a new instance.
    pub fn new() -> (res: Self)
        ensures
            res.wf(),
            res@ == (NetworkContextView {
                state: NetworkStateView::<<T::NetworkCredentials as View>::V>::empty(),
                state_changed: false,
                concurrent_connection: false,
                network_connect_requested: false,
            }),
            res@ == new_context::<<T::NetworkCredentials as View>::V>(),
    {
        Self {
            state: NetworkState::new(),
            state_changed: false,
            concurrent_connection: false,
            network_connect_requested: false,
        }
    }

    /// Reset the state.
    pub fn reset(&mut self)
        ensures
            final(self).wf(),
            final(self)@ == (NetworkContextView {
                state: NetworkStateView::<<T::NetworkCredentials as View>::V>::empty(),
                ..old(self)@
            }),
    {
        self.state.reset();
    }

    /// Load the state from the stored networks.
    pub fn load(&mut self, stored: &Result<
        Vec<StoredNetwork<T::NetworkCredentials>>,
        ErrorCode,
    >) -> (res: Result<(), ErrorCode>)
        ensures
            load_context(old(self)@, *stored, N as nat) == (final(self)@, res),
            stored is Ok ==> final(self).wf(),
    {
        self.state.load(stored)
    }

    /// Take note of whether the networks could be written: `written` is the number of bytes
    /// that they took. Written networks no longer count as changed.
    pub fn store(&mut self, written: Result<usize, ErrorCode>) -> (res: Result<usize, ErrorCode>)
        ensures
            res == written,
            final(self)@ == (NetworkContextView {
                state: NetworkStateView {
                    changed: old(self)@.state.changed && written is Err,
                    ..old(self)@.state
                },
                ..old(self)@
            }),
            final(self)@ == stored_context(old(self)@, written is Ok),
            old(self).wf() ==> final(self).wf(),
    {
        self.state.store(written)
    }

    /// Return `true` if the state has changed.
    pub fn changed(&self) -> (res: bool)
        ensures
            res == self@.state.changed,
    {
        self.state.changed
    }

    /// Return `true` if a network has been asked for and not been tried yet.
    pub fn is_network_activated(&self) -> (res: bool)
        ensures
            res == (self@.state.connect_requested is Some),
    {
        self.state.connect_requested.is_some()
    }

    /// One round of waiting until signalled that a network connect request was issued during
    /// commissioning: `true` when the wait is over, `false` when the next notification has to be
    /// awaited. In the latter case the notifications so far are used up.
    pub fn wait_network_activated(&mut self) -> (ready: bool)
        ensures
            ready == (old(self)@.state.connect_requested is Some),
            final(self)@ == (NetworkContextView {
                network_connect_requested: old(self)@.network_connect_requested && ready,
                ..old(self)@
            }),
            (final(self)@, ready) == awaited_request(old(self)@),
            old(self).wf() ==> final(self).wf(),
    {
        let ready = self.is_network_activated();
        if !ready {
            self.network_connect_requested = false;
        }
        ready
    }

    /// One round of waiting until the state has changed: `true` when the wait is over, `false`
    /// when the next notification has to be awaited. In the latter case the notifications so far
    /// are used up.
    pub fn wait_state_changed(&mut self) -> (ready: bool)
        ensures
            ready == old(self)@.state.changed,
            final(self)@ == (NetworkContextView {
                state_changed: old(self)@.state_changed && ready,
                ..old(self)@
            }),
            (final(self)@, ready) == awaited_change(old(self)@),
            old(self).wf() ==> final(self).wf(),
    {
        let ready = self.changed();
        if !ready {
            self.state_changed = false;
        }
        ready
    }

    /// Whether BLE and the wireless network can be used at the same time.
    pub fn concurrent_connection_supported(&self) -> (res: bool)
        ensures
            res == self@.concurrent_connection,
    {
        self.concurrent_connection
    }
}

impl<const N: usize, T> Default for NetworkContext<N, T> where T: WirelessData {
    fn default() -> (res: Self)
        ensures
            res.wf(),
            res@ == (NetworkContextView {
                state: NetworkStateView::<<T::NetworkCredentials as View>::V>::empty(),
                state_changed: false,
                concurrent_connection: false,
                network_connect_requested: false,
            }),
            res@ == new_context::<<T::NetworkCredentials as View>::V>(),
    {
        Self::new()
    }
}

} // verus!
