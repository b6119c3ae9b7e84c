//! Tearing the backend down: the tracked side process first, then the
//! recorded process id with escalating severity, then a broad sweep.
//!
//! Nothing here signals a process. Each function returns the ordered list of
//! things to do; whoever runs the list ignores individual failures, since the
//! goal, no backend left running, is the same either way.

use vstd::prelude::*;
use crate::state::{BackendState, ProcessHandle};

verus! {

/// Family of operating systems, which differ in how a process is ended.
#[derive(Clone, Copy, Debug, PartialEq, Eq, Structural)]
pub enum Platform {
    Unix,
    Windows,
}

/// The two severities of a termination request.
#[derive(Clone, Copy, Debug, PartialEq, Eq, Structural)]
pub enum Signal {
    /// Polite: the process may clean up.
    Terminate,
    /// Forceful: the process cannot refuse.
    Kill,
}

/// Milliseconds granted between the polite and the forceful request.
pub const GRACE_PERIOD_MS: u64 = 500;

impl Signal {
    /// Number of the signal.
    pub open spec fn spec_number(self) -> u8 {
        match self {
            Signal::Terminate => 15,
            Signal::Kill => 9,
        }
    }

    /// Number of the signal.
    pub fn number(self) -> (n: u8)
        ensures
            n == self.spec_number(),
    {
        match self {
            Signal::Terminate => 15,
            Signal::Kill => 9,
        }
    }
}

/// One step of a teardown.
#[derive(Clone, Copy, Debug, PartialEq, Eq, Structural)]
pub enum ReapAction {
    /// Ask the managed side process to end.
    KillTracked { handle: ProcessHandle },
    /// Send a signal to a process id.
    Signal { signal: Signal, pid: u32 },
    /// Sleep, without polling for the process's exit.
    Wait { millis: u64 },
    /// End a process id by force where there are no signals.
    TaskKill { pid: u32 },
    /// Run the sweep for stragglers.
    Sweep,
}

/// Steps for the managed side process: none when the slot is empty.
pub open spec fn tracked_steps(child: Option<ProcessHandle>) -> Seq<ReapAction> {
    match child {
        Some(handle) => seq![ReapAction::KillTracked { handle }],
        None => Seq::empty(),
    }
}

/// Steps for a recorded process id: none when it is zero. With signals:
/// polite request, grace period, forceful request, whether or not the process
/// went away in between. Without: one forceful request.
pub open spec fn pid_steps(pid: u32, platform: Platform) -> Seq<ReapAction> {
    if pid == 0 {
        Seq::empty()
    } else {
        match platform {
            Platform::Unix => seq![
                ReapAction::Signal { signal: Signal::Terminate, pid },
                ReapAction::Wait { millis: 500 },
                ReapAction::Signal { signal: Signal::Kill, pid },
            ],
            Platform::Windows => seq![ReapAction::TaskKill { pid }],
        }
    }
}

/// The whole graceful teardown of a state: tracked process, recorded process
/// id, and always the sweep.
pub open spec fn teardown_plan(state: BackendState, platform: Platform) -> Seq<ReapAction> {
    tracked_steps(state.child) + pid_steps(state.backend_pid, platform) + seq![ReapAction::Sweep]
}

/// The emergency teardown: the graceful one, and the sweep once more.
pub open spec fn emergency_plan(state: BackendState, platform: Platform) -> Seq<ReapAction> {
    teardown_plan(state, platform) + seq![ReapAction::Sweep]
}

/// The state that any teardown leaves: flag up, slot empty, recorded process
/// id untouched.
pub open spec fn after_teardown(state: BackendState) -> BackendState {
    BackendState { child: None, backend_pid: state.backend_pid, is_shutting_down: true }
}

/// Starts a graceful shutdown and says what is to be done.
///
/// The shutdown flag is up and the slot is empty when this returns, that is
/// before any returned step can run, so no start can slip in between. The
/// recorded process id is left as it was.
pub fn graceful_kill_backend(state: &mut BackendState, platform: Platform) -> (actions: Vec<
    ReapAction,
>)
    ensures
        *final(state) == after_teardown(*old(state)),
        actions@ == teardown_plan(*old(state), platform),
{
    state.begin_shutdown();
    let mut actions: Vec<ReapAction> = Vec::new();
    match state.take_child() {
        Some(handle) => {
            actions.push(ReapAction::KillTracked { handle });
        },
        None => {},
    }
    let pid: u32 = state.backend_pid;
    if pid > 0 {
        match platform {
            Platform::Unix => {
                actions.push(ReapAction::Signal { signal: Signal::Terminate, pid });
                actions.push(ReapAction::Wait { millis: GRACE_PERIOD_MS });
                actions.push(ReapAction::Signal { signal: Signal::Kill, pid });
            },
            Platform::Windows => {
                actions.push(ReapAction::TaskKill { pid });
            },
        }
    }
    actions.push(ReapAction::Sweep);
    actions
}

/// A finished plan together with the line reported to the caller.
pub struct Cleanup {
    pub actions: Vec<ReapAction>,
    pub reply: String,
}

/// Stops the backend on request: the graceful teardown, which always
/// succeeds from the caller's point of view.
pub fn stop_backend(state: &mut BackendState, platform: Platform) -> (done: Cleanup)
    ensures
        *final(state) == after_teardown(*old(state)),
        done.actions@ == teardown_plan(*old(state), platform),
        done.reply@ == "Backend stopped and cleaned up"@,
{
    let actions = graceful_kill_backend(state, platform);
    Cleanup { actions, reply: "Backend stopped and cleaned up".to_string() }
}

/// The kill switch: the graceful teardown followed by one more sweep,
/// whatever the state held.
pub fn force_cleanup(state: &mut BackendState, platform: Platform) -> (done: Cleanup)
    ensures
        *final(state) == after_teardown(*old(state)),
        done.actions@ == emergency_plan(*old(state), platform),
        done.reply@ == "Force cleanup completed"@,
{
    state.begin_shutdown();
    let mut actions = graceful_kill_backend(state, platform);
    actions.push(ReapAction::Sweep);
    Cleanup { actions, reply: "Force cleanup completed".to_string() }
}

/// Every teardown ends with the sweep, and the emergency one ends with two,
/// whatever the state held: also with nothing tracked and nothing recorded.
pub proof fn lemma_sweep_always_runs(state: BackendState, platform: Platform)
    ensures
        teardown_plan(state, platform).last() == ReapAction::Sweep,
        emergency_plan(state, platform).last() == ReapAction::Sweep,
        emergency_plan(state, platform).drop_last().last() == ReapAction::Sweep,
        state.child is None && state.backend_pid == 0 ==> teardown_plan(state, platform) == seq![
            ReapAction::Sweep,
        ],
        state.child is None && state.backend_pid == 0 ==> emergency_plan(state, platform) == seq![
            ReapAction::Sweep,
            ReapAction::Sweep,
        ],
{
}

/// A teardown is the same the second time, but for the handle that the first
/// one took: stopping with nothing tracked is no error.
pub proof fn lemma_teardown_is_idempotent(state: BackendState, platform: Platform)
    ensures
        after_teardown(after_teardown(state)) == after_teardown(state),
        teardown_plan(after_teardown(state), platform) == pid_steps(state.backend_pid, platform)
            + seq![ReapAction::Sweep],
{
}

} // verus!
