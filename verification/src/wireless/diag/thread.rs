//! Diagnostics of the Thread interface.

use vstd::prelude::*;

use crate::error::ErrorCode;
use crate::wireless::comm::Dataver;
use crate::wireless::diag::wifi::{diag_command, RESET_COUNTS};

verus! {

/// What is read of an attribute, given whether it is `known`.
pub open spec fn thread_diag_value(known: bool, stats: Result<(), ErrorCode>) -> Result<
    (),
    ErrorCode,
> {
    match stats {
        Err(code) => Err(code),
        Ok(_) => if known {
            Ok(())
        } else {
            Err(ErrorCode::AttributeNotFound)
        },
    }
}

/// A cluster implementing the Matter Thread Network Diagnostics Cluster.
///
/// The values of its attributes are not known.
pub struct ThreadNwDiagCluster {
    data_ver: Dataver,
}

impl View for ThreadNwDiagCluster {
    type V = Dataver;

    closed spec fn view(&self) -> Dataver {
        self.data_ver
    }
}

impl ThreadNwDiagCluster {
    /// Create a new instance.
    pub fn new(data_ver: Dataver) -> (res: Self)
        ensures
            res@ == data_ver,
    {
        Self { data_ver }
    }

    /// The version of the data.
    pub fn data_ver(&self) -> (res: Dataver)
        ensures
            res == self@,
    {
        self.data_ver
    }

    /// Read the value of an attribute: there is none, if only the attribute is `known` and the
    /// controller has not failed to provide its statistics.
    pub fn read(&self, known: bool, stats: Result<(), ErrorCode>) -> (res: Result<(), ErrorCode>)
        ensures
            res == (match stats {
                Err(code) => Err::<(), ErrorCode>(code),
                Ok(_) => if known {
                    Ok(())
                } else {
                    Err(ErrorCode::AttributeNotFound)
                },
            }),
            res == thread_diag_value(known, stats),
    {
        match stats {
            Err(code) => Err(code),
            Ok(_) => {
                if known {
                    Ok(())
                } else {
                    Err(ErrorCode::AttributeNotFound)
                }
            },
        }
    }

    /// Write the value of an attribute, which has no effect but a new version of the data.
    /// `accepted` tells whether the writer knew the present version.
    pub fn write(&mut self, accepted: Result<(), ErrorCode>) -> (res: Result<(), ErrorCode>)
        ensures
            res == accepted,
            final(self)@ == (if accepted is Ok { old(self)@.next() } else { old(self)@ }),
            final(self)@ == old(self)@.after(accepted is Ok),
    {
        if accepted.is_ok() {
            self.data_ver.changed();
        }
        accepted
    }

    /// Invoke a command. The only one there is has no effect but a new version of the data.
    pub fn invoke(&mut self, cmd_id: u32) -> (res: Result<(), ErrorCode>)
        ensures
            if cmd_id == RESET_COUNTS {
                &&& res is Ok
                &&& final(self)@ == old(self)@.next()
            } else {
                &&& res == Err::<(), ErrorCode>(ErrorCode::CommandNotFound)
                &&& final(self)@ == old(self)@
            },
            res == diag_command(cmd_id),
            final(self)@ == old(self)@.after(diag_command(cmd_id) is Ok),
    {
        if cmd_id != RESET_COUNTS {
            return Err(ErrorCode::CommandNotFound);
        }
        self.data_ver.changed();
        Ok(())
    }
}

} // verus!
