//! The status value reported to callers.

use vstd::prelude::*;

verus! {

/// The TCP port the backend is taken to listen on. It is a convention: nothing
/// probes the port.
pub const BACKEND_PORT: u16 = 8080;

/// Whether the backend is running, and where it can be reached if it is.
#[derive(Clone, Copy, Debug, PartialEq, Eq, Structural)]
pub struct BackendStatus {
    pub running: bool,
    pub port: Option<u16>,
}

impl BackendStatus {
    /// The status that belongs to a supervisor which holds a handle
    /// (`running`) or holds none.
    pub open spec fn of(running: bool) -> BackendStatus {
        BackendStatus {
            running,
            port: if running { Some(BACKEND_PORT) } else { None },
        }
    }

    /// A port is reported exactly when the backend runs, and then it is the
    /// fixed one.
    pub open spec fn well_formed(&self) -> bool {
        self.port == if self.running { Some(BACKEND_PORT) } else { None::<u16> }
    }

    /// Status of a backend that runs.
    pub fn started() -> (status: BackendStatus)
        ensures
            status == BackendStatus::of(true),
            status.running,
            status.port == Some(8080u16),
    {
        BackendStatus { running: true, port: Some(BACKEND_PORT) }
    }

    /// Status of a backend that does not run.
    pub fn stopped() -> (status: BackendStatus)
        ensures
            status == BackendStatus::of(false),
            !status.running,
            status.port == None::<u16>,
    {
        BackendStatus { running: false, port: None }
    }

    /// Tells whether this value keeps the rule that ties `port` to `running`.
    pub fn is_well_formed(&self) -> (ok: bool)
        ensures
            ok == self.well_formed(),
    {
        match self.port {
            Some(p) => self.running && p == BACKEND_PORT,
            None => !self.running,
        }
    }
}

/// Every status built from a running flag ties `port` to `running`, and two
/// of them agree exactly when their flags do.
pub proof fn status_of_is_well_formed(running: bool)
    ensures
        BackendStatus::of(running).well_formed(),
        BackendStatus::of(running).running == running,
        BackendStatus::of(running).port == Some(BACKEND_PORT) <==> running,
        BackendStatus::of(running).port == None::<u16> <==> !running,
{
}

/// A well-formed status is determined by its `running` flag.
pub proof fn well_formed_status_is_of_running(status: BackendStatus)
    requires
        status.well_formed(),
    ensures
        status == BackendStatus::of(status.running),
{
}

} // verus!
