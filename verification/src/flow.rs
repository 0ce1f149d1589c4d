//! In which order the parts of the stack run.
//!
//! Each kind of stack goes through a number of steps. A step ends with an answer or an error, and
//! an error in any step ends the stack as a whole.

use vstd::prelude::*;

use crate::error::ErrorCode;

verus! {

/// How a device that waits to be commissioned can be found.
#[derive(Debug, Clone, Copy, PartialEq, Eq, Structural)]
pub enum Discovery {
    /// Over the IP network.
    Ip,
    /// Over BLE.
    Ble,
}

/// How long BLE stays in use once the operational network can take over, in seconds.
pub const BLE_SHUTDOWN_DELAY_SECS: u64 = 2;

/// A step in the life of the stack.
#[derive(Debug, Clone, Copy, PartialEq, Eq, Structural)]
pub enum FlowStep {
    /// Load the persisted state.
    LoadPersisted,
    /// Reset the transport of the Matter instance.
    ResetTransport,
    /// Tell whether the device is commissioned.
    CheckCommissioned,
    /// Let the device be commissioned.
    EnableCommissioning(Discovery),
    /// Do not let the device be commissioned.
    DisableCommissioning,
    /// Run the stack over BLE only, until the operational network is to be used.
    RunBle,
    /// Run the stack over the operational wireless network only.
    RunWireless,
    /// Run the stack over BLE and the operational wireless network at the same time.
    RunBleAndWireless,
    /// Run the stack over Ethernet.
    RunEthernet,
    /// Reset the stack to the factory defaults.
    FactoryReset,
    /// Expect that the fail-safe is armed again once the operational network is in use.
    ExpectRearm,
}

/// A wireless stack in which BLE and the wireless network cannot be used at the same time: a
/// device that is not commissioned runs over BLE first, and over the wireless network then.
pub open spec fn wireless_next(step: FlowStep, answer: Result<bool, ErrorCode>) -> Result<
    FlowStep,
    ErrorCode,
> {
    match answer {
        Err(code) => Err(code),
        Ok(yes) => Ok(
            match step {
                FlowStep::CheckCommissioned => if yes {
                    FlowStep::DisableCommissioning
                } else {
                    FlowStep::EnableCommissioning(Discovery::Ble)
                },
                FlowStep::EnableCommissioning(_) => FlowStep::RunBle,
                FlowStep::RunBle => FlowStep::RunWireless,
                FlowStep::DisableCommissioning => FlowStep::RunWireless,
                _ => FlowStep::CheckCommissioned,
            },
        ),
    }
}

/// A wireless stack in which BLE and the wireless network can be used at the same time: a device
/// that is not commissioned runs over both.
pub open spec fn coex_next(step: FlowStep, answer: Result<bool, ErrorCode>) -> Result<
    FlowStep,
    ErrorCode,
> {
    match answer {
        Err(code) => Err(code),
        Ok(yes) => Ok(
            match step {
                FlowStep::CheckCommissioned => if yes {
                    FlowStep::DisableCommissioning
                } else {
                    FlowStep::EnableCommissioning(Discovery::Ble)
                },
                FlowStep::EnableCommissioning(_) => FlowStep::RunBleAndWireless,
                FlowStep::DisableCommissioning => FlowStep::RunWireless,
                _ => FlowStep::CheckCommissioned,
            },
        ),
    }
}

/// The steps of a stack that uses Ethernet; `None` is its end.
pub open spec fn ethernet_next(step: FlowStep, answer: Result<bool, ErrorCode>) -> Result<
    Option<FlowStep>,
    ErrorCode,
> {
    match answer {
        Err(code) => Err(code),
        Ok(yes) => Ok(
            match step {
                FlowStep::ResetTransport => Some(FlowStep::CheckCommissioned),
                FlowStep::CheckCommissioned => if yes {
                    Some(FlowStep::RunEthernet)
                } else {
                    Some(FlowStep::EnableCommissioning(Discovery::Ip))
                },
                FlowStep::EnableCommissioning(_) => Some(FlowStep::RunEthernet),
                _ => None,
            },
        ),
    }
}

/// The steps before a wireless stack runs: its state is loaded and its transport is reset. `None`
/// means that it can run.
pub open spec fn startup_next(step: FlowStep, answer: Result<bool, ErrorCode>) -> Result<
    Option<FlowStep>,
    ErrorCode,
> {
    match answer {
        Err(code) => Err(code),
        Ok(_) => Ok(
            match step {
                FlowStep::LoadPersisted => Some(FlowStep::ResetTransport),
                _ => None,
            },
        ),
    }
}

/// A stack that is commissioned over BLE and operated over Wifi: a device that is not commissioned
/// starts from the factory defaults. `rearm` tells whether the stack keeps track of the fail-safe.
pub open spec fn wifi_ble_next(
    rearm: bool,
    step: FlowStep,
    answer: Result<bool, ErrorCode>,
) -> Result<FlowStep, ErrorCode> {
    let operate = if rearm {
        FlowStep::ExpectRearm
    } else {
        FlowStep::RunWireless
    };
    match answer {
        Err(code) => Err(code),
        Ok(yes) => Ok(
            match step {
                FlowStep::CheckCommissioned => if yes {
                    operate
                } else {
                    FlowStep::FactoryReset
                },
                FlowStep::FactoryReset => FlowStep::RunBle,
                FlowStep::RunBle => operate,
                FlowStep::ExpectRearm => FlowStep::RunWireless,
                _ => FlowStep::CheckCommissioned,
            },
        ),
    }
}

impl FlowStep {
    /// The step that follows in a wireless stack without coexistence.
    pub fn next_wireless(self, answer: Result<bool, ErrorCode>) -> (res: Result<Self, ErrorCode>)
        ensures
            res == wireless_next(self, answer),
    {
        let yes: bool = match answer {
            Ok(yes) => yes,
            Err(code) => return Err(code),
        };
        Ok(
            match self {
                FlowStep::CheckCommissioned => if yes {
                    FlowStep::DisableCommissioning
                } else {
                    FlowStep::EnableCommissioning(Discovery::Ble)
                },
                FlowStep::EnableCommissioning(_) => FlowStep::RunBle,
                FlowStep::RunBle => FlowStep::RunWireless,
                FlowStep::DisableCommissioning => FlowStep::RunWireless,
                _ => FlowStep::CheckCommissioned,
            },
        )
    }

    /// The step that follows in a wireless stack with coexistence.
    pub fn next_coex(self, answer: Result<bool, ErrorCode>) -> (res: Result<Self, ErrorCode>)
        ensures
            res == coex_next(self, answer),
    {
        let yes: bool = match answer {
            Ok(yes) => yes,
            Err(code) => return Err(code),
        };
        Ok(
            match self {
                FlowStep::CheckCommissioned => if yes {
                    FlowStep::DisableCommissioning
                } else {
                    FlowStep::EnableCommissioning(Discovery::Ble)
                },
                FlowStep::EnableCommissioning(_) => FlowStep::RunBleAndWireless,
                FlowStep::DisableCommissioning => FlowStep::RunWireless,
                _ => FlowStep::CheckCommissioned,
            },
        )
    }

    /// The step that follows in an Ethernet stack.
    pub fn next_ethernet(self, answer: Result<bool, ErrorCode>) -> (res: Result<
        Option<Self>,
        ErrorCode,
    >)
        ensures
            res == ethernet_next(self, answer),
    {
        let yes: bool = match answer {
            Ok(yes) => yes,
            Err(code) => return Err(code),
        };
        Ok(
            match self {
                FlowStep::ResetTransport => Some(FlowStep::CheckCommissioned),
                FlowStep::CheckCommissioned => if yes {
                    Some(FlowStep::RunEthernet)
                } else {
                    Some(FlowStep::EnableCommissioning(Discovery::Ip))
                },
                FlowStep::EnableCommissioning(_) => Some(FlowStep::RunEthernet),
                _ => None,
            },
        )
    }

    /// The step that follows before a wireless stack runs.
    pub fn next_startup(self, answer: Result<bool, ErrorCode>) -> (res: Result<
        Option<Self>,
        ErrorCode,
    >)
        ensures
            res == startup_next(self, answer),
    {
        match answer {
            Ok(_) => Ok(
                match self {
                    FlowStep::LoadPersisted => Some(FlowStep::ResetTransport),
                    _ => None,
                },
            ),
            Err(code) => Err(code),
        }
    }

    /// The step that follows in a stack that is commissioned over BLE and operated over Wifi.
    pub fn next_wifi_ble(self, rearm: bool, answer: Result<bool, ErrorCode>) -> (res: Result<
        Self,
        ErrorCode,
    >)
        ensures
            res == wifi_ble_next(rearm, self, answer),
    {
        let yes: bool = match answer {
            Ok(yes) => yes,
            Err(code) => return Err(code),
        };
        let operate = if rearm {
            FlowStep::ExpectRearm
        } else {
            FlowStep::RunWireless
        };
        Ok(
            match self {
                FlowStep::CheckCommissioned => if yes {
                    operate
                } else {
                    FlowStep::FactoryReset
                },
                FlowStep::FactoryReset => FlowStep::RunBle,
                FlowStep::RunBle => operate,
                FlowStep::ExpectRearm => FlowStep::RunWireless,
                _ => FlowStep::CheckCommissioned,
            },
        )
    }
}

/// An error in any step ends the stack with this error.
pub proof fn lemma_error_ends(step: FlowStep, rearm: bool, code: ErrorCode)
    ensures
        wireless_next(step, Err(code)) == Err::<FlowStep, ErrorCode>(code),
        coex_next(step, Err(code)) == Err::<FlowStep, ErrorCode>(code),
        wifi_ble_next(rearm, step, Err(code)) == Err::<FlowStep, ErrorCode>(code),
        ethernet_next(step, Err(code)) == Err::<Option<FlowStep>, ErrorCode>(code),
        startup_next(step, Err(code)) == Err::<Option<FlowStep>, ErrorCode>(code),
{
}

/// Without coexistence, BLE is never in use together with the wireless network.
pub proof fn lemma_no_coexistence(
    step: FlowStep,
    rearm: bool,
    answer: Result<bool, ErrorCode>,
)
    ensures
        wireless_next(step, answer) != Ok::<FlowStep, ErrorCode>(FlowStep::RunBleAndWireless),
        wifi_ble_next(rearm, step, answer) != Ok::<FlowStep, ErrorCode>(
            FlowStep::RunBleAndWireless,
        ),
{
}

/// The device can be commissioned only as long as it is not: commissioning is let in only right
/// after the device was found not to be commissioned, and is kept out before a commissioned
/// device runs.
pub proof fn lemma_commissioning_only_when_needed(
    step: FlowStep,
    answer: Result<bool, ErrorCode>,
    discovery: Discovery,
)
    ensures
        wireless_next(step, answer) == Ok::<FlowStep, ErrorCode>(
            FlowStep::EnableCommissioning(discovery),
        ) ==> step == FlowStep::CheckCommissioned && answer == Ok::<bool, ErrorCode>(false)
            && discovery == Discovery::Ble,
        coex_next(step, answer) == Ok::<FlowStep, ErrorCode>(
            FlowStep::EnableCommissioning(discovery),
        ) ==> step == FlowStep::CheckCommissioned && answer == Ok::<bool, ErrorCode>(false)
            && discovery == Discovery::Ble,
        ethernet_next(step, answer) == Ok::<Option<FlowStep>, ErrorCode>(
            Some(FlowStep::EnableCommissioning(discovery)),
        ) ==> step == FlowStep::CheckCommissioned && answer == Ok::<bool, ErrorCode>(false)
            && discovery == Discovery::Ip,
        wireless_next(FlowStep::CheckCommissioned, Ok(true)) == Ok::<FlowStep, ErrorCode>(
            FlowStep::DisableCommissioning,
        ),
        coex_next(FlowStep::CheckCommissioned, Ok(true)) == Ok::<FlowStep, ErrorCode>(
            FlowStep::DisableCommissioning,
        ),
{
}

} // verus!
