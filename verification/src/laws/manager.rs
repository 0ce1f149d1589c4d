//! The manager keeps the device connected.

use vstd::prelude::*;

use crate::error::ErrorCode;
use crate::wifi::mgmt::run_outcome;
use crate::wireless::mgmt::{
    manager_step, pick_step, ConnectionCheck, ManagerAction, ManagerEvent, ManagerPhase,
    ManagerStep, ManagerView,
};
use crate::wireless::store::{
    distinct_ids, lemma_position, NetworkCommissioningStatus, NetworkStateView, NetworkStatusView,
};
use crate::wireless::traits::NetworkCredentials;

verus! {

/// What several events lead to, one after the other.
pub open spec fn course<C: NetworkCredentials>(
    step: ManagerStep<C::V>,
    events: Seq<ManagerEvent>,
) -> ManagerStep<C::V>
    decreases events.len(),
{
    if events.len() == 0 {
        step
    } else {
        let before = course::<C>(step, events.drop_last());
        manager_step::<C>(before.manager, before.state, events.last())
    }
}

/// A number of attempts to connect that fail, with the waits after each of them.
pub open spec fn failures(count: nat) -> Seq<ManagerEvent> {
    Seq::new(
        2 * count,
        |i: int|
            if i % 2 == 0 {
                ManagerEvent::ConnectDone { connected: false }
            } else {
                ManagerEvent::Waited
            },
    )
}

/// A number of checks that find the connection in place, with the waits after each of them.
pub open spec fn checks(count: nat) -> Seq<ManagerEvent> {
    Seq::new(
        2 * count,
        |i: int|
            if i % 2 == 0 {
                ManagerEvent::Checked(ConnectionCheck::Connected)
            } else {
                ManagerEvent::Waited
            },
    )
}

/// The times to wait after the first, second, ... attempt of a network has failed, in seconds.
pub open spec fn delays() -> Seq<u64> {
    seq![2, 5, 10, 20, 30, 60]
}

/// A network has all its attempts from this step on: as long as fewer than six have failed, it is
/// the one to connect to, with nothing recorded, and the waits get longer and longer; a connection
/// that any of the attempts makes is recorded and checked. After the sixth failure, and not
/// before, the failure is recorded.
pub open spec fn has_full_turn<C: NetworkCredentials>(
    step: ManagerStep<C::V>,
    creds: C::V,
    state: NetworkStateView<C::V>,
) -> bool {
    &&& forall|count: nat|
        count < 6 ==> {
            let at = #[trigger] course::<C>(step, failures(count));
            let failed = manager_step::<C>(
                at.manager,
                at.state,
                ManagerEvent::ConnectDone { connected: false },
            );
            let made = manager_step::<C>(
                at.manager,
                at.state,
                ManagerEvent::ConnectDone { connected: true },
            );
            &&& at.action == ManagerAction::Connect(creds)
            &&& at.manager.phase is Connecting
            &&& at.manager.creds == Some(creds)
            &&& at.state == state
            &&& failed.action == (ManagerAction::<C::V>::Wait { secs: delays()[count as int] })
            &&& failed.manager.phase is Retrying
            &&& failed.state == state
            &&& made.action == ManagerAction::<C::V>::Check
            &&& made.manager.phase is Checking
            &&& made.manager.creds == Some(creds)
            &&& made.state.status == Some(
                NetworkStatusView {
                    network_id: C::id_of(creds),
                    status: NetworkCommissioningStatus::Success,
                    value: 0,
                },
            )
            &&& made.state.connected_once
            &&& made.state.networks == state.networks
            &&& made.state.connect_requested == state.connect_requested
            &&& made.state.changed == state.changed
        }
    &&& ({
        let after = course::<C>(step, failures(6));
        &&& after.state.status == Some(
            NetworkStatusView {
                network_id: C::id_of(creds),
                status: NetworkCommissioningStatus::OtherConnectionFailure,
                value: 0,
            },
        )
        &&& after.state.connected_once == state.connected_once
        &&& after.state.networks == state.networks
        &&& after.state.connect_requested is None
        &&& after.state.changed == state.changed
    })
}

/// After six failures the network that follows has its turn, and the first one after the last;
/// but a known network that was asked for goes first.
pub open spec fn gives_way<C: NetworkCredentials>(
    step: ManagerStep<C::V>,
    creds: C::V,
    state: NetworkStateView<C::V>,
) -> bool {
    let after = course::<C>(step, failures(6));
    &&& forall|index: int|
        {
            &&& state.connect_requested is None
            &&& 0 <= index < state.networks.len()
            &&& #[trigger] state.networks[index] == creds
        } ==> after.action == ManagerAction::Connect(
            state.networks[if index + 1 < state.networks.len() { index + 1 } else { 0 }],
        )
    &&& forall|asked: int|
        {
            &&& 0 <= asked < state.networks.len()
            &&& state.connect_requested == Some(C::id_of(#[trigger] state.networks[asked]))
        } ==> after.action == ManagerAction::Connect(state.networks[asked])
    &&& state.networks.len() == 0 ==> after.action == ManagerAction::<C::V>::WaitActivated
}

proof fn lemma_failures<C: NetworkCredentials>(
    step: ManagerStep<C::V>,
    creds: C::V,
    state: NetworkStateView<C::V>,
    count: nat,
)
    requires
        step.manager.phase == (ManagerPhase::Connecting { attempt: 0 }),
        step.manager.creds == Some(creds),
        step.state == state,
        step.action == ManagerAction::Connect(creds),
        count < 6,
    ensures
        ({
            let at = course::<C>(step, failures(count));
            &&& at.manager.phase == (ManagerPhase::Connecting { attempt: count as usize })
            &&& at.manager.creds == Some(creds)
            &&& at.state == state
            &&& at.action == ManagerAction::Connect(creds)
        }),
    decreases count,
{
    if count == 0 {
        assert(failures(0) =~= Seq::<ManagerEvent>::empty());
    } else {
        let before = (count - 1) as nat;
        lemma_failures::<C>(step, creds, state, before);
        lemma_failures_split::<C>(step, before);
    }
}

proof fn lemma_failures_split<C: NetworkCredentials>(step: ManagerStep<C::V>, count: nat)
    ensures
        ({
            let at = course::<C>(step, failures(count));
            let failed = manager_step::<C>(
                at.manager,
                at.state,
                ManagerEvent::ConnectDone { connected: false },
            );
            course::<C>(step, failures(count + 1)) == manager_step::<C>(
                failed.manager,
                failed.state,
                ManagerEvent::Waited,
            )
        }),
{
    let all = failures(count + 1);
    assert(all.drop_last().drop_last() =~= failures(count));
    assert(all.drop_last().last() == (ManagerEvent::ConnectDone { connected: false }));
    assert(all.last() == ManagerEvent::Waited);
    reveal_with_fuel(course, 3);
}

proof fn lemma_turn<C: NetworkCredentials>(
    step: ManagerStep<C::V>,
    creds: C::V,
    state: NetworkStateView<C::V>,
)
    requires
        step.manager.phase == (ManagerPhase::Connecting { attempt: 0 }),
        step.manager.creds == Some(creds),
        step.state == state,
        step.action == ManagerAction::Connect(creds),
    ensures
        has_full_turn::<C>(step, creds, state),
        distinct_ids::<C>(state.networks) ==> gives_way::<C>(step, creds, state),
{
    assert forall|count: nat| count < 6 implies {
        let at = #[trigger] course::<C>(step, failures(count));
        &&& at.manager.phase == (ManagerPhase::Connecting { attempt: count as usize })
        &&& at.manager.creds == Some(creds)
        &&& at.state == state
        &&& at.action == ManagerAction::Connect(creds)
    } by {
        lemma_failures::<C>(step, creds, state, count);
    }
    lemma_failures::<C>(step, creds, state, 5);
    lemma_failures_split::<C>(step, 5);
    if distinct_ids::<C>(state.networks) {
        assert forall|index: int|
            {
                &&& state.connect_requested is None
                &&& 0 <= index < state.networks.len()
                &&& #[trigger] state.networks[index] == creds
            } implies course::<C>(step, failures(6)).action == ManagerAction::Connect(
            state.networks[if index + 1 < state.networks.len() { index + 1 } else { 0 }],
        ) by {
            lemma_position::<C>(state.networks, C::id_of(creds));
        }
        assert forall|asked: int|
            {
                &&& 0 <= asked < state.networks.len()
                &&& state.connect_requested == Some(C::id_of(#[trigger] state.networks[asked]))
            } implies course::<C>(step, failures(6)).action == ManagerAction::Connect(
            state.networks[asked],
        ) by {
            lemma_position::<C>(state.networks, C::id_of(state.networks[asked]));
        }
    }
}

/// After a connection is lost, the same network has all its attempts again, and only when all of
/// them have failed the next network has its turn.
pub proof fn lemma_lost_connection_is_made_again<C: NetworkCredentials>(
    creds: C::V,
    state: NetworkStateView<C::V>,
)
    ensures
        ({
            let lost = manager_step::<C>(
                ManagerView { creds: Some(creds), phase: ManagerPhase::Checking },
                state,
                ManagerEvent::Checked(ConnectionCheck::Disconnected),
            );
            &&& has_full_turn::<C>(lost, creds, state)
            &&& distinct_ids::<C>(state.networks) ==> gives_way::<C>(lost, creds, state)
        }),
{
    let lost = manager_step::<C>(
        ManagerView { creds: Some(creds), phase: ManagerPhase::Checking },
        state,
        ManagerEvent::Checked(ConnectionCheck::Disconnected),
    );
    lemma_turn::<C>(lost, creds, state);
}

/// The manager turns to a network: the one after the network that was in use last, or to the
/// first one where that was the last one in order, is not known any more or there was none; but
/// first of all to a known network that was asked for. Nothing but the request is touched. The
/// network has all its attempts. Without a network there is nothing to do until one is activated.
pub open spec fn turns_to_next<C: NetworkCredentials>(
    step: ManagerStep<C::V>,
    last: Option<C::V>,
    state: NetworkStateView<C::V>,
) -> bool {
    let after = NetworkStateView { connect_requested: None, ..state };
    let networks = state.networks;
    &&& step.state.networks == networks
    &&& step.state.connected_once == state.connected_once
    &&& step.state.connect_requested is None
    &&& step.state.status == state.status
    &&& step.state.changed == state.changed
    &&& networks.len() == 0 ==> {
        &&& step.action == ManagerAction::<C::V>::WaitActivated
        &&& step.manager.phase is Idle
        &&& step.manager.creds == last
    }
    &&& networks.len() > 0 ==> exists|index: int|
        {
            &&& 0 <= index < networks.len()
            &&& step.action == ManagerAction::Connect(#[trigger] networks[index])
            &&& has_full_turn::<C>(step, networks[index], after)
            &&& distinct_ids::<C>(networks) ==> gives_way::<C>(step, networks[index], after)
        }
    &&& distinct_ids::<C>(networks) ==> {
        &&& forall|asked: int|
            {
                &&& 0 <= asked < networks.len()
                &&& state.connect_requested == Some(C::id_of(#[trigger] networks[asked]))
            } ==> step.action == ManagerAction::Connect(networks[asked])
        &&& (state.connect_requested matches Some(id) ==> forall|i: int|
            0 <= i < networks.len() ==> C::id_of(#[trigger] networks[i]) != id) ==> {
            &&& forall|used: int|
                {
                    &&& 0 <= used < networks.len()
                    &&& last matches Some(creds) && C::id_of(creds) == C::id_of(
                        #[trigger] networks[used],
                    )
                } ==> step.action == ManagerAction::Connect(
                    networks[if used + 1 < networks.len() { used + 1 } else { 0 }],
                )
            &&& networks.len() > 0 && (last matches Some(creds) ==> forall|i: int|
                0 <= i < networks.len() ==> C::id_of(#[trigger] networks[i]) != C::id_of(creds))
                ==> step.action == ManagerAction::Connect(networks[0])
        }
    }
}

/// Whenever the manager turns to another network, it is the right one.
pub proof fn lemma_next_network_has_its_turn<C: NetworkCredentials>(
    last: Option<C::V>,
    state: NetworkStateView<C::V>,
)
    ensures
        turns_to_next::<C>(pick_step::<C>(last, state), last, state),
{
    let step = pick_step::<C>(last, state);
    let networks = state.networks;
    let after = NetworkStateView { connect_requested: None, ..state };
    if let Some(creds) = last {
        lemma_position::<C>(networks, C::id_of(creds));
    }
    if let Some(id) = state.connect_requested {
        lemma_position::<C>(networks, id);
    }
    if networks.len() > 0 {
        let creds = step.manager.creds->Some_0;
        lemma_turn::<C>(step, creds, after);
        let index = choose|index: int|
            0 <= index < networks.len() && #[trigger] networks[index] == creds;
        assert(networks[0] == networks[0]);
        assert(step.action == ManagerAction::Connect(networks[index]));
        assert(has_full_turn::<C>(step, networks[index], after));
    }
    if distinct_ids::<C>(networks) {
        assert forall|asked: int|
            {
                &&& 0 <= asked < networks.len()
                &&& state.connect_requested == Some(C::id_of(#[trigger] networks[asked]))
            } implies step.action == ManagerAction::Connect(networks[asked]) by {
            lemma_position::<C>(networks, C::id_of(networks[asked]));
        }
    }
}

/// The manager turns to another network when it is told to start with one, or when it is not known
/// whether the connection is still there; no failure is recorded then.
pub proof fn lemma_other_network_on_activation_or_doubt<C: NetworkCredentials>(
    manager: ManagerView<C::V>,
    state: NetworkStateView<C::V>,
)
    ensures
        manager.phase is Idle ==> turns_to_next::<C>(
            manager_step::<C>(manager, state, ManagerEvent::Activated),
            manager.creds,
            state,
        ),
        manager.phase is Checking ==> turns_to_next::<C>(
            manager_step::<C>(
                manager,
                state,
                ManagerEvent::Checked(ConnectionCheck::Failed),
            ),
            manager.creds,
            state,
        ),
{
    lemma_next_network_has_its_turn::<C>(manager.creds, state);
}

/// Where it cannot run without a network, the manager fails exactly when there is nothing to do
/// until one is activated, and does what is to be done otherwise.
pub proof fn lemma_runs_only_with_network<V>(action: ManagerAction<V>)
    ensures
        action is WaitActivated ==> run_outcome(action) == Err::<ManagerAction<V>, ErrorCode>(
            ErrorCode::Invalid,
        ),
        !(action is WaitActivated) ==> run_outcome(action) == Ok::<ManagerAction<V>, ErrorCode>(
            action,
        ),
{
}

/// A connection is watched for as long as it is there: however often it is found in place, nothing
/// is done but to check it again five seconds later.
pub proof fn lemma_connection_is_watched<C: NetworkCredentials>(
    manager: ManagerView<C::V>,
    state: NetworkStateView<C::V>,
    count: nat,
)
    requires
        manager.phase is Checking,
    ensures
        ({
            let start = ManagerStep { manager, state, action: ManagerAction::Check };
            let at = course::<C>(start, checks(count));
            let found = manager_step::<C>(
                at.manager,
                at.state,
                ManagerEvent::Checked(ConnectionCheck::Connected),
            );
            &&& at == start
            &&& found.action == (ManagerAction::<C::V>::Wait { secs: 5 })
            &&& found.state == state
            &&& found.manager.creds == manager.creds
        }),
    decreases count,
{
    let start = ManagerStep { manager, state, action: ManagerAction::Check };
    if count == 0 {
        assert(checks(0) =~= Seq::<ManagerEvent>::empty());
    } else {
        lemma_connection_is_watched::<C>(manager, state, (count - 1) as nat);
        let all = checks(count);
        assert(all.drop_last().drop_last() =~= checks((count - 1) as nat));
        assert(all.drop_last().last() == ManagerEvent::Checked(ConnectionCheck::Connected));
        assert(all.last() == ManagerEvent::Waited);
        reveal_with_fuel(course, 3);
    }
}

} // verus!
