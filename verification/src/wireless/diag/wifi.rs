//! Diagnostics of the Wifi interface.

use vstd::prelude::*;

use crate::error::ErrorCode;
use crate::wireless::comm::Dataver;
use crate::wireless::traits::WifiNwDiagData;

verus! {

/// What the reading of an attribute starts with.
#[derive(Debug, Clone, Copy, PartialEq, Eq, Structural)]
pub enum DiagRead {
    /// The reader has the value already.
    UpToDate,
    /// The attribute is one that every cluster has: read it from the metadata of the cluster.
    System,
    /// Ask the controller for the statistics.
    Stats,
}

impl DiagRead {
    /// What the reading of an attribute starts with: `up_to_date` tells that the reader already
    /// has this version of the data, `system` that every cluster has the attribute.
    pub open spec fn of(up_to_date: bool, system: bool) -> Self {
        if up_to_date {
            DiagRead::UpToDate
        } else if system {
            DiagRead::System
        } else {
            DiagRead::Stats
        }
    }

    /// What the reading of an attribute starts with.
    pub fn new(up_to_date: bool, system: bool) -> (res: Self)
        ensures
            res == Self::of(up_to_date, system),
    {
        if up_to_date {
            DiagRead::UpToDate
        } else if system {
            DiagRead::System
        } else {
            DiagRead::Stats
        }
    }
}

/// The value of an attribute.
#[derive(Debug, Clone, Copy)]
pub enum WifiDiagValue {
    Bssid([u8; 6]),
    SecurityType(u8),
    WifiVersion(u8),
    ChannelNumber(u16),
    Rssi(i8),
    /// The value is not known.
    Null,
}

/// The value of the attribute with the given ID, where there is such an attribute.
pub open spec fn diag_value(data: Option<WifiNwDiagData>, attr_id: u32) -> Option<WifiDiagValue> {
    if attr_id > 4 {
        None
    } else {
        Some(
            match data {
                None => WifiDiagValue::Null,
                Some(data) => if attr_id == 0 {
                    WifiDiagValue::Bssid(data.bssid)
                } else if attr_id == 1 {
                    WifiDiagValue::SecurityType(data.security_type)
                } else if attr_id == 2 {
                    WifiDiagValue::WifiVersion(data.wifi_version)
                } else if attr_id == 3 {
                    WifiDiagValue::ChannelNumber(data.channel_number)
                } else {
                    WifiDiagValue::Rssi(data.rssi)
                },
            },
        )
    }
}

/// The command to reset the counts.
pub const RESET_COUNTS: u32 = 0;

/// Whether there is a command with the given ID.
pub open spec fn diag_command(cmd_id: u32) -> Result<(), ErrorCode> {
    if cmd_id == RESET_COUNTS {
        Ok(())
    } else {
        Err(ErrorCode::CommandNotFound)
    }
}

/// A cluster implementing the Matter Wifi Network Diagnostics Cluster.
pub struct WifiNwDiagCluster {
    data_ver: Dataver,
}

impl View for WifiNwDiagCluster {
    type V = Dataver;

    closed spec fn view(&self) -> Dataver {
        self.data_ver
    }
}

impl WifiNwDiagCluster {
    /// Create a new instance.
    pub fn new(data_ver: Dataver) -> (res: Self)
        ensures
            res@ == data_ver,
    {
        Self { data_ver }
    }

    /// The version of the data.
    pub fn data_ver(&self) -> (res: Dataver)
        ensures
            res == self@,
    {
        self.data_ver
    }

    /// Read the value of an attribute, given the statistics of the interface.
    pub fn read(&self, attr_id: u32, stats: Result<Option<WifiNwDiagData>, ErrorCode>) -> (res:
        Result<WifiDiagValue, ErrorCode>)
        ensures
            match stats {
                Err(code) => res is Err && res->Err_0 == code,
                Ok(data) => match diag_value(data, attr_id) {
                    Some(value) => res is Ok && res->Ok_0 == value,
                    None => res is Err && res->Err_0 == ErrorCode::AttributeNotFound,
                },
            },
    {
        match stats {
            Err(code) => Err(code),
            Ok(Some(data)) => match attr_id {
                0 => Ok(WifiDiagValue::Bssid(data.bssid)),
                1 => Ok(WifiDiagValue::SecurityType(data.security_type)),
                2 => Ok(WifiDiagValue::WifiVersion(data.wifi_version)),
                3 => Ok(WifiDiagValue::ChannelNumber(data.channel_number)),
                4 => Ok(WifiDiagValue::Rssi(data.rssi)),
                _ => Err(ErrorCode::AttributeNotFound),
            },
            Ok(None) => {
                if attr_id <= 4 {
                    Ok(WifiDiagValue::Null)
                } else {
                    Err(ErrorCode::AttributeNotFound)
                }
            },
        }
    }

    /// Write the value of an attribute, which has no effect but a new version of the data.
    /// `accepted` tells whether the writer knew the present version.
    pub fn write(&mut self, accepted: Result<(), ErrorCode>) -> (res: Result<(), ErrorCode>)
        ensures
            res == accepted,
            final(self)@ == (if accepted is Ok { old(self)@.next() } else { old(self)@ }),
            final(self)@ == old(self)@.after(accepted is Ok),
    {
        if accepted.is_ok() {
            self.data_ver.changed();
        }
        accepted
    }

    /// Invoke a command. The only one there is has no effect but a new version of the data.
    pub fn invoke(&mut self, cmd_id: u32) -> (res: Result<(), ErrorCode>)
        ensures
            if cmd_id == RESET_COUNTS {
                &&& res is Ok
                &&& final(self)@ == old(self)@.next()
            } else {
                &&& res == Err::<(), ErrorCode>(ErrorCode::CommandNotFound)
                &&& final(self)@ == old(self)@
            },
            res == diag_command(cmd_id),
            final(self)@ == old(self)@.after(diag_command(cmd_id) is Ok),
    {
        if cmd_id != RESET_COUNTS {
            return Err(ErrorCode::CommandNotFound);
        }
        self.data_ver.changed();
        Ok(())
    }
}

} // verus!
