//! The parts of the stack run in a certain order.

use vstd::prelude::*;

use crate::error::ErrorCode;
use crate::flow::{
    coex_next, ethernet_next, startup_next, wifi_ble_next, wireless_next, Discovery, FlowStep,
    BLE_SHUTDOWN_DELAY_SECS,
};
use crate::netif::{NetifConfView, POLL_INTERVAL_SECS};
use crate::stack::{
    after_event, bound_action, conf_action, NetifActionView, NetifRunEvent, NetifRunView,
};
use crate::wifi::SWITCH_DELAY_SECS;

verus! {

/// A wireless stack takes each step for just one reason, and starts again with the first one when
/// it has run.
pub proof fn lemma_wireless_order(step: FlowStep, yes: bool)
    ensures
        ({
            let next = wireless_next(step, Ok(yes));
            &&& next is Ok
            &&& next->Ok_0 == FlowStep::DisableCommissioning <==> step
                == FlowStep::CheckCommissioned && yes
            &&& next->Ok_0 == FlowStep::EnableCommissioning(Discovery::Ble) <==> step
                == FlowStep::CheckCommissioned && !yes
            &&& next->Ok_0 == FlowStep::RunBle <==> step is EnableCommissioning
            &&& next->Ok_0 == FlowStep::RunWireless <==> step == FlowStep::RunBle || step
                == FlowStep::DisableCommissioning
            &&& next->Ok_0 == FlowStep::CheckCommissioned <==> step
                != FlowStep::CheckCommissioned && !(step is EnableCommissioning) && step
                != FlowStep::RunBle && step != FlowStep::DisableCommissioning
        }),
{
}

/// So does one in which BLE and the wireless network coexist.
pub proof fn lemma_coex_order(step: FlowStep, yes: bool)
    ensures
        ({
            let next = coex_next(step, Ok(yes));
            &&& next is Ok
            &&& next->Ok_0 == FlowStep::DisableCommissioning <==> step
                == FlowStep::CheckCommissioned && yes
            &&& next->Ok_0 == FlowStep::EnableCommissioning(Discovery::Ble) <==> step
                == FlowStep::CheckCommissioned && !yes
            &&& next->Ok_0 == FlowStep::RunBleAndWireless <==> step is EnableCommissioning
            &&& next->Ok_0 == FlowStep::RunWireless <==> step == FlowStep::DisableCommissioning
            &&& next->Ok_0 == FlowStep::CheckCommissioned <==> step
                != FlowStep::CheckCommissioned && !(step is EnableCommissioning) && step
                != FlowStep::DisableCommissioning
        }),
{
}

/// An Ethernet stack resets its transport, lets the device be commissioned over the network unless
/// it is, and runs; then it is over.
pub proof fn lemma_ethernet_order(step: FlowStep, yes: bool)
    ensures
        ({
            let next = ethernet_next(step, Ok(yes));
            &&& next is Ok
            &&& next->Ok_0 == Some(FlowStep::CheckCommissioned) <==> step
                == FlowStep::ResetTransport
            &&& next->Ok_0 == Some(FlowStep::EnableCommissioning(Discovery::Ip)) <==> step
                == FlowStep::CheckCommissioned && !yes
            &&& next->Ok_0 == Some(FlowStep::RunEthernet) <==> step is EnableCommissioning
                || step == FlowStep::CheckCommissioned && yes
            &&& next->Ok_0 is None <==> step != FlowStep::ResetTransport && step
                != FlowStep::CheckCommissioned && !(step is EnableCommissioning)
        }),
{
}

/// Before a wireless stack runs its state is loaded and then its transport is reset.
pub proof fn lemma_startup_order(step: FlowStep, yes: bool)
    ensures
        ({
            let next = startup_next(step, Ok(yes));
            &&& next is Ok
            &&& next->Ok_0 == Some(FlowStep::ResetTransport) <==> step == FlowStep::LoadPersisted
            &&& next->Ok_0 is None <==> step != FlowStep::LoadPersisted
        }),
{
}

/// A device that is commissioned over BLE and operated over Wifi gives up what it knows unless it
/// is commissioned, and runs over BLE before it runs over Wifi; where the stack keeps track of the
/// fail-safe, it expects it to be armed again right before it runs over Wifi.
pub proof fn lemma_wifi_ble_order(rearm: bool, step: FlowStep, yes: bool)
    ensures
        ({
            let next = wifi_ble_next(rearm, step, Ok(yes));
            let operates = step == FlowStep::RunBle || step == FlowStep::CheckCommissioned && yes;
            &&& next is Ok
            &&& next->Ok_0 == FlowStep::FactoryReset <==> step == FlowStep::CheckCommissioned
                && !yes
            &&& next->Ok_0 == FlowStep::RunBle <==> step == FlowStep::FactoryReset
            &&& next->Ok_0 == FlowStep::ExpectRearm <==> rearm && operates
            &&& next->Ok_0 == FlowStep::RunWireless <==> step == FlowStep::ExpectRearm || !rearm
                && operates
            &&& next->Ok_0 == FlowStep::CheckCommissioned <==> !operates && step
                != FlowStep::CheckCommissioned && step != FlowStep::FactoryReset && step
                != FlowStep::ExpectRearm
        }),
{
}

/// BLE stays in use for two seconds once the operational network can take over; where both cannot
/// be used at the same time, it has four seconds for outstanding messages. The configuration of an
/// interface is looked at every two seconds.
pub proof fn lemma_delays()
    ensures
        BLE_SHUTDOWN_DELAY_SECS == 2,
        SWITCH_DELAY_SECS == 4,
        POLL_INTERVAL_SECS == 2,
{
}

/// A stack that follows an interface binds the Matter port on it once it has a configuration, which
/// others see from then on, and runs with it if the port could be bound; until then it waits.
pub proof fn lemma_configuration_is_followed(run: NetifRunView, conf: NetifConfView)
    ensures
        conf_action(Some(conf)) matches NetifActionView::Bind { port, interface } && port == 5540
            && interface == conf.interface,
        conf_action(None) is WaitConfChange,
        bound_action(conf, true) == Ok::<NetifActionView, ErrorCode>(NetifActionView::Run(conf)),
        bound_action(conf, false) == Err::<NetifActionView, ErrorCode>(ErrorCode::StdIoError),
        after_event(run, NetifRunEvent::Conf(Some(conf))).conf == Some(conf),
        after_event(run, NetifRunEvent::Conf(Some(conf))).withdrawn == run.withdrawn,
        after_event(run, NetifRunEvent::Conf(None)).conf is None,
        after_event(run, NetifRunEvent::Conf(None)).withdrawn == run.withdrawn,
        after_event(run, NetifRunEvent::Bound(true)) == run,
{
}

/// Whenever such a stack starts anew, fails to bind its port, or ends, nobody sees a configuration
/// any longer, and that there was one is remembered until it was notified of.
pub proof fn lemma_configuration_is_withdrawn(run: NetifRunView, event: NetifRunEvent)
    requires
        event is Restart || event is Ended || event == NetifRunEvent::Bound(false),
    ensures
        after_event(run, event).conf is None,
        after_event(run, event).withdrawn <==> run.withdrawn || run.conf is Some,
{
}

} // verus!
