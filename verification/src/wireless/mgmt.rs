//! Wireless manager module.

use vstd::prelude::*;

use crate::wireless::comm::nw_infos;
use crate::wireless::store::{
    distinct_ids, lemma_position, next_network, NetworkCommissioningStatus, NetworkState,
    NetworkStateView, NetworkStatus, NetworkStatusView,
};
use crate::wireless::traits::{NetworkCredentials, NetworkId};

verus! {

/// How often a connection is attempted before the next network has its turn.
pub const MAX_ATTEMPTS: usize = 6;

/// How often the connection is checked, in seconds.
pub const CHECK_INTERVAL_SECS: u64 = 5;

/// How long to wait after the attempt with the given number has failed, in seconds.
pub open spec fn retry_delay(attempt: nat) -> u64 {
    if attempt == 0 {
        2
    } else if attempt == 1 {
        5
    } else if attempt == 2 {
        10
    } else if attempt == 3 {
        20
    } else if attempt == 4 {
        30
    } else {
        60
    }
}

/// How long to wait after the attempt with the given number has failed, in seconds.
fn retry_delay_secs(attempt: usize) -> (secs: u64)
    ensures
        secs == retry_delay(attempt as nat),
{
    match attempt {
        0 => 2,
        1 => 5,
        2 => 10,
        3 => 20,
        4 => 30,
        _ => 60,
    }
}

/// What the manager is waiting for.
#[derive(Debug, Clone, Copy, PartialEq, Eq, Structural)]
pub enum ManagerPhase {
    /// Until a network is activated.
    Idle,
    /// Until the attempt to connect is over.
    Connecting { attempt: usize },
    /// Until the time after a failed attempt is over.
    Retrying { attempt: usize },
    /// Until it is known whether the connection is still there.
    Checking,
    /// Until the time between two checks is over.
    Connected,
}

/// What the controller has told of the connection.
#[derive(Debug, Clone, Copy, PartialEq, Eq, Structural)]
pub enum ConnectionCheck {
    /// There is no connection any more.
    Disconnected,
    /// There is still a connection.
    Connected,
    /// The controller could not tell.
    Failed,
}

/// What has happened.
#[derive(Debug, Clone, Copy, PartialEq, Eq, Structural)]
pub enum ManagerEvent {
    /// A network was activated.
    Activated,
    /// The attempt to connect is over, and there is a connection or not.
    ConnectDone { connected: bool },
    /// The time to wait is over.
    Waited,
    /// The connection was checked.
    Checked(ConnectionCheck),
}

impl ManagerEvent {
    /// Whether the event can happen in the given phase.
    pub open spec fn fits(self, phase: ManagerPhase) -> bool {
        match phase {
            ManagerPhase::Idle => self is Activated,
            ManagerPhase::Connecting { .. } => self is ConnectDone,
            ManagerPhase::Retrying { .. } => self is Waited,
            ManagerPhase::Checking => self is Checked,
            ManagerPhase::Connected => self is Waited,
        }
    }
}

/// What to do.
#[derive(Debug)]
pub enum ManagerAction<C> {
    /// Wait until a network is activated.
    WaitActivated,
    /// Connect with the given credentials.
    Connect(C),
    /// Wait for the given number of seconds.
    Wait { secs: u64 },
    /// Check whether the connection is still there.
    Check,
}

impl<C: NetworkCredentials> View for ManagerAction<C> {
    type V = ManagerAction<C::V>;

    open spec fn view(&self) -> ManagerAction<C::V> {
        match *self {
            ManagerAction::WaitActivated => ManagerAction::WaitActivated,
            ManagerAction::Connect(creds) => ManagerAction::Connect(creds@),
            ManagerAction::Wait { secs } => ManagerAction::Wait { secs },
            ManagerAction::Check => ManagerAction::Check,
        }
    }
}

/// The contents of `ManagerRun`.
pub struct ManagerView<C> {
    pub creds: Option<C>,
    pub phase: ManagerPhase,
}

/// The state of the manager and of the networks, with what to do next.
pub struct ManagerStep<C> {
    pub manager: ManagerView<C>,
    pub state: NetworkStateView<C>,
    pub action: ManagerAction<C>,
}

/// The next network has its turn.
pub open spec fn pick_step<C: NetworkCredentials>(
    creds: Option<C::V>,
    state: NetworkStateView<C::V>,
) -> ManagerStep<C::V> {
    let last = match creds {
        Some(creds) => Some(C::id_of(creds)),
        None => None,
    };
    let after = NetworkStateView { connect_requested: None, ..state };
    match next_network::<C>(state.networks, state.connect_requested, last) {
        Some(next) => ManagerStep {
            manager: ManagerView {
                creds: Some(next),
                phase: ManagerPhase::Connecting { attempt: 0 },
            },
            state: after,
            action: ManagerAction::Connect(next),
        },
        None => ManagerStep {
            manager: ManagerView { creds, phase: ManagerPhase::Idle },
            state: after,
            action: ManagerAction::WaitActivated,
        },
    }
}

/// The state after the attempts to connect to the network with the given ID, of which the last
/// one made a connection or not.
pub open spec fn recorded<V>(
    state: NetworkStateView<V>,
    network_id: Seq<u8>,
    connected: bool,
) -> NetworkStateView<V> {
    NetworkStateView {
        connected_once: state.connected_once || connected,
        status: Some(
            NetworkStatusView {
                network_id,
                status: if connected {
                    NetworkCommissioningStatus::Success
                } else {
                    NetworkCommissioningStatus::OtherConnectionFailure
                },
                value: 0,
            },
        ),
        ..state
    }
}

/// What follows an event.
pub open spec fn manager_step<C: NetworkCredentials>(
    manager: ManagerView<C::V>,
    state: NetworkStateView<C::V>,
    event: ManagerEvent,
) -> ManagerStep<C::V> {
    let creds = manager.creds->Some_0;
    let id = C::id_of(creds);
    match (manager.phase, event) {
        (ManagerPhase::Connecting { attempt }, ManagerEvent::ConnectDone { connected }) => {
            if connected {
                ManagerStep {
                    manager: ManagerView { phase: ManagerPhase::Checking, ..manager },
                    state: recorded(state, id, true),
                    action: ManagerAction::Check,
                }
            } else {
                ManagerStep {
                    manager: ManagerView { phase: ManagerPhase::Retrying { attempt }, ..manager },
                    state,
                    action: ManagerAction::Wait { secs: retry_delay(attempt as nat) },
                }
            }
        },
        (ManagerPhase::Retrying { attempt }, ManagerEvent::Waited) => {
            if attempt + 1 < MAX_ATTEMPTS {
                ManagerStep {
                    manager: ManagerView {
                        phase: ManagerPhase::Connecting { attempt: (attempt + 1) as usize },
                        ..manager
                    },
                    state,
                    action: ManagerAction::Connect(creds),
                }
            } else {
                pick_step::<C>(manager.creds, recorded(state, id, false))
            }
        },
        (ManagerPhase::Checking, ManagerEvent::Checked(ConnectionCheck::Connected)) => {
            ManagerStep {
                manager: ManagerView { phase: ManagerPhase::Connected, ..manager },
                state,
                action: ManagerAction::Wait { secs: CHECK_INTERVAL_SECS },
            }
        },
        (ManagerPhase::Checking, ManagerEvent::Checked(ConnectionCheck::Disconnected)) => {
            ManagerStep {
                manager: ManagerView {
                    phase: ManagerPhase::Connecting { attempt: 0 },
                    ..manager
                },
                state,
                action: ManagerAction::Connect(creds),
            }
        },
        (ManagerPhase::Connected, ManagerEvent::Waited) => {
            ManagerStep {
                manager: ManagerView { phase: ManagerPhase::Checking, ..manager },
                state,
                action: ManagerAction::Check,
            }
        },
        _ => pick_step::<C>(manager.creds, state),
    }
}

/// The course of the wireless manager.
pub struct ManagerRun<C: NetworkCredentials> {
    creds: Option<C>,
    phase: ManagerPhase,
}

impl<C: NetworkCredentials> View for ManagerRun<C> {
    type V = ManagerView<C::V>;

    closed spec fn view(&self) -> ManagerView<C::V> {
        ManagerView {
            creds: match self.creds {
                Some(creds) => Some(creds@),
                None => None,
            },
            phase: self.phase,
        }
    }
}

impl<C: NetworkCredentials> ManagerRun<C> {
    /// While the manager is busy with a network, it has the credentials for it.
    pub open spec fn wf(&self) -> bool {
        self@.phase is Idle || self@.creds is Some
    }

    /// Start with the first network.
    pub fn start<const N: usize>(state: &mut NetworkState<N, C>) -> (res: (
        Self,
        ManagerAction<C>,
    ))
        requires
            old(state).wf(),
        ensures
            final(state).wf(),
            res.0.wf(),
            (ManagerStep { manager: res.0@, state: final(state)@, action: res.1@ }) == pick_step::<
                C,
            >(None, old(state)@),
    {
        let mut run = ManagerRun { creds: None, phase: ManagerPhase::Idle };
        let action = run.pick(state);
        (run, action)
    }

    /// Let the next network have its turn.
    fn pick<const N: usize>(&mut self, state: &mut NetworkState<N, C>) -> (action: ManagerAction<C>)
        requires
            old(state).wf(),
        ensures
            final(state).wf(),
            final(self).wf(),
            (ManagerStep {
                manager: final(self)@,
                state: final(state)@,
                action: action@,
            }) == pick_step::<C>(old(self)@.creds, old(state)@),
    {
        let next = match &self.creds {
            Some(creds) => {
                let last = creds.network_id();
                state.get_next_network(Some(&last))
            },
            None => state.get_next_network(None),
        };
        match next {
            Some(creds) => {
                let action = ManagerAction::Connect(creds.duplicate());
                self.creds = Some(creds);
                self.phase = ManagerPhase::Connecting { attempt: 0 };
                action
            },
            None => {
                self.phase = ManagerPhase::Idle;
                ManagerAction::WaitActivated
            },
        }
    }

    /// Take note of how the attempts to connect went.
    fn record<const N: usize>(&self, state: &mut NetworkState<N, C>, connected: bool)
        requires
            old(state).wf(),
            self@.creds is Some,
        ensures
            final(state).wf(),
            final(state)@ == recorded(old(state)@, C::id_of(self@.creds->Some_0), connected),
    {
        if connected {
            state.connected_once = true;
        }
        if let Some(creds) = &self.creds {
            state.status = Some(
                NetworkStatus {
                    network_id: creds.network_id(),
                    status: if connected {
                        NetworkCommissioningStatus::Success
                    } else {
                        NetworkCommissioningStatus::OtherConnectionFailure
                    },
                    value: 0,
                },
            );
        }
    }

    /// Connect with the credentials that are in use.
    fn connect(&self) -> (action: ManagerAction<C>)
        requires
            self@.creds is Some,
        ensures
            action@ == ManagerAction::Connect(self@.creds->Some_0),
    {
        match &self.creds {
            Some(creds) => ManagerAction::Connect(creds.duplicate()),
            None => ManagerAction::WaitActivated,
        }
    }

    /// What follows an event.
    ///
    /// A network to which no connection can be made gives way to the next one after a number of
    /// attempts, with longer and longer times between them. Once there is a connection, it is
    /// checked from time to time, and made again when it is lost.
    pub fn next<const N: usize>(
        &mut self,
        state: &mut NetworkState<N, C>,
        event: ManagerEvent,
    ) -> (action: ManagerAction<C>)
        requires
            old(self).wf(),
            old(state).wf(),
            event.fits(old(self)@.phase),
        ensures
            final(self).wf(),
            final(state).wf(),
            (ManagerStep {
                manager: final(self)@,
                state: final(state)@,
                action: action@,
            }) == manager_step::<C>(old(self)@, old(state)@, event),
    {
        match (self.phase, event) {
            (ManagerPhase::Connecting { attempt }, ManagerEvent::ConnectDone { connected }) => {
                if connected {
                    self.record(state, true);
                    self.phase = ManagerPhase::Checking;
                    ManagerAction::Check
                } else {
                    self.phase = ManagerPhase::Retrying { attempt };
                    ManagerAction::Wait { secs: retry_delay_secs(attempt) }
                }
            },
            (ManagerPhase::Retrying { attempt }, ManagerEvent::Waited) => {
                if attempt < MAX_ATTEMPTS - 1 {
                    self.phase = ManagerPhase::Connecting { attempt: attempt + 1 };
                    self.connect()
                } else {
                    self.record(state, false);
                    self.pick(state)
                }
            },
            (ManagerPhase::Checking, ManagerEvent::Checked(ConnectionCheck::Connected)) => {
                self.phase = ManagerPhase::Connected;
                ManagerAction::Wait { secs: CHECK_INTERVAL_SECS }
            },
            (ManagerPhase::Checking, ManagerEvent::Checked(ConnectionCheck::Disconnected)) => {
                self.phase = ManagerPhase::Connecting { attempt: 0 };
                self.connect()
            },
            (ManagerPhase::Connected, ManagerEvent::Waited) => {
                self.phase = ManagerPhase::Checking;
                ManagerAction::Check
            },
            _ => self.pick(state),
        }
    }
}

/// The manager only reads the networks: neither the list nor whether it has changed is touched,
/// and a device that was connected once stays so.
pub proof fn lemma_manager_keeps_networks<C: NetworkCredentials>(
    manager: ManagerView<C::V>,
    state: NetworkStateView<C::V>,
    event: ManagerEvent,
)
    ensures
        ({
            let after = manager_step::<C>(manager, state, event).state;
            &&& after.networks == state.networks
            &&& after.changed == state.changed
            &&& state.connected_once ==> after.connected_once
        }),
{
}

/// A device whose last attempt to connect was a success was connected at least once.
pub proof fn lemma_success_means_connected_once<C: NetworkCredentials>(
    manager: ManagerView<C::V>,
    state: NetworkStateView<C::V>,
    event: ManagerEvent,
)
    requires
        state.status matches Some(status) ==> status.status == NetworkCommissioningStatus::Success
            ==> state.connected_once,
    ensures
        ({
            let after = manager_step::<C>(manager, state, event).state;
            after.status matches Some(status) ==> status.status
                == NetworkCommissioningStatus::Success ==> after.connected_once
        }),
{
}

/// The state after the attempt with the given number and all later ones have failed.
pub open spec fn give_up<C: NetworkCredentials>(
    creds: C::V,
    state: NetworkStateView<C::V>,
    attempt: nat,
) -> ManagerStep<C::V>
    decreases MAX_ATTEMPTS - attempt,
    when attempt < MAX_ATTEMPTS
{
    let connecting = ManagerView {
        creds: Some(creds),
        phase: ManagerPhase::Connecting { attempt: attempt as usize },
    };
    let failed = manager_step::<C>(
        connecting,
        state,
        ManagerEvent::ConnectDone { connected: false },
    );
    let waited = manager_step::<C>(failed.manager, failed.state, ManagerEvent::Waited);
    if attempt + 1 < MAX_ATTEMPTS {
        give_up::<C>(creds, waited.state, attempt + 1)
    } else {
        waited
    }
}

/// A network to which no connection can be made gives way to the next one: its failure is
/// recorded, and the network that follows it is the one to connect to.
pub proof fn lemma_failing_network_gives_way<C: NetworkCredentials>(
    creds: C::V,
    state: NetworkStateView<C::V>,
    attempt: nat,
)
    requires
        attempt < MAX_ATTEMPTS,
    ensures
        give_up::<C>(creds, state, attempt) == pick_step::<C>(
            Some(creds),
            recorded(state, C::id_of(creds), false),
        ),
    decreases MAX_ATTEMPTS - attempt,
{
    if attempt + 1 < MAX_ATTEMPTS {
        lemma_failing_network_gives_way::<C>(creds, state, attempt + 1);
    }
}

/// A network to which no connection can be made gives way to the one that follows it in the order
/// of preference, and the last one to the first.
pub proof fn lemma_manager_round_robin<C: NetworkCredentials>(
    state: NetworkStateView<C::V>,
    index: int,
)
    requires
        0 <= index < state.networks.len(),
        distinct_ids::<C>(state.networks),
        state.connect_requested is None,
    ensures
        give_up::<C>(state.networks[index], state, 0).action == ManagerAction::Connect(
            state.networks[if index + 1 < state.networks.len() { index + 1 } else { 0 }],
        ),
{
    let creds = state.networks[index];
    lemma_failing_network_gives_way::<C>(creds, state, 0);
    lemma_position::<C>(state.networks, C::id_of(creds));
}

/// A network that was asked for is the next one to connect to, whichever one was in use before.
pub proof fn lemma_requested_network_is_next<C: NetworkCredentials>(
    creds: Option<C::V>,
    state: NetworkStateView<C::V>,
    index: int,
)
    requires
        0 <= index < state.networks.len(),
        distinct_ids::<C>(state.networks),
        state.connect_requested == Some(C::id_of(state.networks[index])),
    ensures
        pick_step::<C>(creds, state).action == ManagerAction::Connect(state.networks[index]),
        pick_step::<C>(creds, state).state.connect_requested is None,
{
    lemma_position::<C>(state.networks, C::id_of(state.networks[index]));
}

/// Once there is a connection, the network that it was made to is the only one that is shown as
/// connected; after a failure none is.
pub proof fn lemma_connection_is_shown<C: NetworkCredentials>(
    state: NetworkStateView<C::V>,
    index: int,
    connected: bool,
    other: int,
)
    requires
        0 <= index < state.networks.len(),
        0 <= other < state.networks.len(),
        distinct_ids::<C>(state.networks),
    ensures
        nw_infos::<C>(
            recorded(state, C::id_of(state.networks[index]), connected),
        )[other].connected == (connected && other == index),
{
}

/// A generic Wireless manager.
///
/// Connects to one of the networks that the Matter stack knows, in preference order matching the
/// order of the networks there, and the connect request that might be provided by the Matter
/// stack.
///
/// Also monitors the Wireless connection status and retries the connection
/// with a backoff strategy and in a round-robin fashion with the other
/// networks in case of a failure.
pub struct WirelessManager<T>(pub T);

impl<T> WirelessManager<T> {
    /// Create a new wireless manager.
    pub fn new(controller: T) -> (res: Self)
        ensures
            res.0 == controller,
    {
        Self(controller)
    }
}

} // verus!
