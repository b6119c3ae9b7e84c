//! Shared state of the shell: trading counters and the supervised backend.

use vstd::prelude::*;

verus! {

/// Trading activity shared across the application.
pub struct TradingState {
    pub is_trading: bool,
    pub connected_accounts: u32,
    pub active_bots: u32,
}

impl Default for TradingState {
    fn default() -> (r: Self)
        ensures
            !r.is_trading,
            r.connected_accounts == 0,
            r.active_bots == 0,
    {
        TradingState { is_trading: false, connected_accounts: 0, active_bots: 0 }
    }
}

/// Identity of a managed side process: one whose output stream and
/// termination this shell observes.
#[derive(Clone, Copy, Debug, PartialEq, Eq, Structural)]
pub struct ProcessHandle {
    pub pid: u32,
}

/// What the supervisor knows about the backend.
///
/// `child` is the slot for the managed side process and holds at most one
/// handle. `backend_pid` is the process id of a detached backend, zero when
/// none was recorded. `is_shutting_down` only ever goes from false to true.
#[derive(Clone, Copy, Debug, PartialEq, Eq, Structural)]
pub struct BackendState {
    pub child: Option<ProcessHandle>,
    pub backend_pid: u32,
    pub is_shutting_down: bool,
}

impl Default for BackendState {
    fn default() -> (r: Self)
        ensures
            r.child is None,
            r.backend_pid == 0,
            !r.is_shutting_down,
    {
        BackendState { child: None, backend_pid: 0, is_shutting_down: false }
    }
}

impl BackendState {
    /// `next` may follow `self` in the life of one supervisor: the shutdown
    /// flag never falls back.
    pub open spec fn may_become(&self, next: &BackendState) -> bool {
        self.is_shutting_down ==> next.is_shutting_down
    }

    /// Raises the shutdown flag and touches nothing else.
    pub fn begin_shutdown(&mut self)
        ensures
            final(self).is_shutting_down,
            final(self).child == old(self).child,
            final(self).backend_pid == old(self).backend_pid,
    {
        self.is_shutting_down = true;
    }

    /// Empties the slot and hands out what it held.
    pub fn take_child(&mut self) -> (taken: Option<ProcessHandle>)
        ensures
            taken == old(self).child,
            final(self).child is None,
            final(self).backend_pid == old(self).backend_pid,
            final(self).is_shutting_down == old(self).is_shutting_down,
    {
        let taken = self.child;
        self.child = None;
        taken
    }

    /// Puts a freshly spawned managed process into the slot.
    pub fn track(&mut self, handle: ProcessHandle)
        ensures
            final(self).child == Some(handle),
            final(self).backend_pid == old(self).backend_pid,
            final(self).is_shutting_down == old(self).is_shutting_down,
    {
        self.child = Some(handle);
    }

    /// Records the process id of a detached backend.
    pub fn record_pid(&mut self, pid: u32)
        ensures
            final(self).backend_pid == pid,
            final(self).child == old(self).child,
            final(self).is_shutting_down == old(self).is_shutting_down,
    {
        self.backend_pid = pid;
    }
}

} // verus!
