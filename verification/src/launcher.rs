//! Starting the backend: the guard against a second instance, the choice
//! between a detached launch of the located binary and the managed side
//! process, and what to record once a spawn has been tried.
//!
//! A backend that is already running, tracked or merely answering on its
//! port, is reused and never killed to make room for a new one. The side
//! process is the fallback: it is spawned only when no binary was found.

use vstd::prelude::*;
use crate::locator::BinaryCandidate;
use crate::reaper::{after_teardown, Platform};
use crate::state::{BackendState, ProcessHandle};

verus! {

/// Milliseconds the automatic start waits before it looks for a backend.
pub const STARTUP_DELAY_MS: u64 = 500;

/// How a start attempt ended.
#[derive(Clone, Copy, Debug, PartialEq, Eq, Structural)]
pub enum StartOutcome {
    /// A shutdown is under way: nothing is started any more.
    ShuttingDown,
    /// The slot for the managed side process is occupied.
    AlreadyTracked,
    /// Something answers on the backend's port.
    AlreadyExternal,
    /// A backend was started: the located binary, detached, with its
    /// process id recorded; or, where none was found, the managed side
    /// process, which is now tracked.
    Started,
    /// The located binary could not be started.
    LaunchFailed,
    /// The fallback failed: the side process command could not be created.
    SidecarUnavailable,
    /// The fallback failed: the side process command exists but did not
    /// start.
    SpawnFailed,
}

/// What a start attempt needs next.
#[derive(Clone, Copy, Debug, PartialEq, Eq, Structural)]
pub enum StartStep {
    /// The attempt is over.
    Done { outcome: StartOutcome },
    /// Probe the backend's port, search for the binary, and report back.
    ProbeHealth,
    /// Launch the located binary, detached from this process, and report
    /// back.
    LaunchDetached { binary: BinaryCandidate },
    /// Spawn the managed side process and report back.
    SpawnSidecar,
}

/// What came of spawning the managed side process.
#[derive(Clone, Copy, Debug, PartialEq, Eq, Structural)]
pub enum SidecarResult {
    Spawned { handle: ProcessHandle },
    CommandUnavailable,
    SpawnFailed,
}

/// What the world would answer a start attempt, if asked.
#[derive(Clone, Copy, Debug, PartialEq, Eq, Structural)]
pub struct Answers {
    /// Whether something answers on the backend's port.
    pub alive: bool,
    /// The binary that the search finds.
    pub found: Option<BinaryCandidate>,
    /// What comes of spawning the binary by the platform's first method.
    pub first_spawn: SpawnResult,
    /// What comes of spawning it once more, by the method of the retry.
    pub retry_spawn: SpawnResult,
    /// What comes of spawning the managed side process.
    pub sidecar: SidecarResult,
}

/// The guard at the top of every start: the shutdown flag first, then the
/// slot; only when both are clear is the port probed.
pub open spec fn start_guard(state: BackendState) -> StartStep {
    if state.is_shutting_down {
        StartStep::Done { outcome: StartOutcome::ShuttingDown }
    } else if state.child is Some {
        StartStep::Done { outcome: StartOutcome::AlreadyTracked }
    } else {
        StartStep::ProbeHealth
    }
}

/// After the probe and the search: an answering backend is reused; else a
/// binary that was found is launched detached; the side process is for when
/// none was found.
pub open spec fn probe_step(alive: bool, found: Option<BinaryCandidate>) -> StartStep {
    if alive {
        StartStep::Done { outcome: StartOutcome::AlreadyExternal }
    } else {
        match found {
            Some(binary) => StartStep::LaunchDetached { binary },
            None => StartStep::SpawnSidecar,
        }
    }
}

/// How a start attempt ends after one spawn of the binary, if it ends there.
pub open spec fn spawn_outcome(step: SpawnStep) -> Option<StartOutcome> {
    match step {
        SpawnStep::Started { pid } => Some(StartOutcome::Started),
        SpawnStep::GiveUp => Some(StartOutcome::LaunchFailed),
        SpawnStep::Retry { method } => None,
    }
}

/// State and outcome after the binary was launched detached: by the
/// platform's first method and, where that calls for one, a retry.
pub open spec fn detached_step(
    state: BackendState,
    platform: Platform,
    first_spawn: SpawnResult,
    retry_spawn: SpawnResult,
) -> (BackendState, StartOutcome) {
    let first = spawn_step(state, first_method(platform), first_spawn);
    match first.1 {
        SpawnStep::Retry { method } => {
            let second = spawn_step(first.0, method, retry_spawn);
            match second.1 {
                SpawnStep::Started { pid } => (second.0, StartOutcome::Started),
                _ => (second.0, StartOutcome::LaunchFailed),
            }
        },
        SpawnStep::Started { pid } => (first.0, StartOutcome::Started),
        SpawnStep::GiveUp => (first.0, StartOutcome::LaunchFailed),
    }
}

/// State and outcome after the side process was tried.
pub open spec fn sidecar_step(state: BackendState, result: SidecarResult) -> (
    BackendState,
    StartOutcome,
) {
    match result {
        SidecarResult::Spawned { handle } => (
            BackendState { child: Some(handle), ..state },
            StartOutcome::Started,
        ),
        SidecarResult::CommandUnavailable => (state, StartOutcome::SidecarUnavailable),
        SidecarResult::SpawnFailed => (state, StartOutcome::SpawnFailed),
    }
}

/// A whole start attempt, on request or automatic: the state it leaves and
/// how it ends. An answer is used only where the attempt comes to ask for
/// it: the probe's and the search's when the guard lets the attempt through,
/// a spawn's when the probe found nothing.
pub open spec fn start_attempt(state: BackendState, platform: Platform, world: Answers) -> (
    BackendState,
    StartOutcome,
) {
    match start_guard(state) {
        StartStep::Done { outcome } => (state, outcome),
        _ => match probe_step(world.alive, world.found) {
            StartStep::Done { outcome } => (state, outcome),
            StartStep::LaunchDetached { binary } => detached_step(
                state,
                platform,
                world.first_spawn,
                world.retry_spawn,
            ),
            _ => sidecar_step(state, world.sidecar),
        },
    }
}

/// Opens a start attempt. The state is only read.
pub fn start_backend(state: &BackendState) -> (step: StartStep)
    ensures
        step == start_guard(*state),
{
    if state.is_shutting_down {
        StartStep::Done { outcome: StartOutcome::ShuttingDown }
    } else if state.child.is_some() {
        StartStep::Done { outcome: StartOutcome::AlreadyTracked }
    } else {
        StartStep::ProbeHealth
    }
}

/// Continues a start attempt with the probe's answer and the binary that
/// the search found.
pub fn after_probe(alive: bool, found: Option<BinaryCandidate>) -> (step: StartStep)
    ensures
        step == probe_step(alive, found),
{
    if alive {
        StartStep::Done { outcome: StartOutcome::AlreadyExternal }
    } else {
        match found {
            Some(binary) => StartStep::LaunchDetached { binary },
            None => StartStep::SpawnSidecar,
        }
    }
}

/// Ends a start attempt with the result of spawning the side process: a
/// spawned process goes into the slot, a failure leaves the state as it was.
pub fn after_sidecar_spawn(state: &mut BackendState, result: SidecarResult) -> (outcome:
    StartOutcome)
    ensures
        (*final(state), outcome) == sidecar_step(*old(state), result),
{
    match result {
        SidecarResult::Spawned { handle } => {
            state.child = Some(handle);
            StartOutcome::Started
        },
        SidecarResult::CommandUnavailable => StartOutcome::SidecarUnavailable,
        SidecarResult::SpawnFailed => StartOutcome::SpawnFailed,
    }
}

/// Says how a start attempt ends after one spawn of the binary; nothing
/// while a retry is due.
pub fn after_detached_spawn(step: SpawnStep) -> (outcome: Option<StartOutcome>)
    ensures
        outcome == spawn_outcome(step),
{
    match step {
        SpawnStep::Started { pid: _ } => Some(StartOutcome::Started),
        SpawnStep::GiveUp => Some(StartOutcome::LaunchFailed),
        SpawnStep::Retry { method: _ } => None,
    }
}

/// The first step of a start once the port was probed and the binary
/// searched: the guard, then the choice.
pub open spec fn startup_plan(state: BackendState, alive: bool, found: Option<BinaryCandidate>)
    -> StartStep {
    match start_guard(state) {
        StartStep::Done { outcome } => StartStep::Done { outcome },
        _ => probe_step(alive, found),
    }
}

/// Decides what a start does, for a caller that has probed and searched
/// beforehand, as the automatic start has.
pub fn plan_startup(state: &BackendState, alive: bool, found: Option<BinaryCandidate>) -> (plan:
    StartStep)
    ensures
        plan == startup_plan(*state, alive, found),
        plan != StartStep::ProbeHealth,
{
    match start_backend(state) {
        StartStep::Done { outcome } => StartStep::Done { outcome },
        _ => after_probe(alive, found),
    }
}

/// Once the shutdown flag is up, a start attempt ends at the guard: it
/// reports the shutdown and leaves the state, and with it the slot, as it
/// was, whatever the probe, the search or a spawn would have answered.
pub proof fn lemma_shutdown_blocks_start(state: BackendState, platform: Platform, world: Answers)
    requires
        state.is_shutting_down,
    ensures
        start_guard(state) == (StartStep::Done { outcome: StartOutcome::ShuttingDown }),
        start_attempt(state, platform, world) == (state, StartOutcome::ShuttingDown),
{
}

/// While a side process is tracked, starting twice in a row reports it as
/// running both times and spawns nothing: the state stays as it was.
pub proof fn lemma_tracked_start_is_idempotent(
    state: BackendState,
    platform: Platform,
    first: Answers,
    second: Answers,
)
    requires
        !state.is_shutting_down,
        state.child is Some,
    ensures
        start_attempt(state, platform, first) == (state, StartOutcome::AlreadyTracked),
        start_attempt(start_attempt(state, platform, first).0, platform, second) == (
            state,
            StartOutcome::AlreadyTracked,
        ),
{
}

/// A backend that answers on its port is reused: nothing is spawned and the
/// state stays as it was, whether or not a binary was found.
pub proof fn lemma_external_backend_is_reused(
    state: BackendState,
    platform: Platform,
    world: Answers,
)
    requires
        !state.is_shutting_down,
        state.child is None,
        world.alive,
    ensures
        start_attempt(state, platform, world) == (state, StartOutcome::AlreadyExternal),
{
}

/// With no backend running and a binary found, the binary is what is
/// started: its process id is recorded when a spawn succeeds, the slot of
/// the side process stays as it was, and what the side process would have
/// answered plays no part.
pub proof fn lemma_found_binary_is_launched(
    state: BackendState,
    platform: Platform,
    world: Answers,
    other: SidecarResult,
)
    requires
        !state.is_shutting_down,
        state.child is None,
        !world.alive,
        world.found is Some,
    ensures
        startup_plan(state, world.alive, world.found) == (StartStep::LaunchDetached {
            binary: world.found->0,
        }),
        start_attempt(state, platform, world) == start_attempt(
            state,
            platform,
            Answers { sidecar: other, ..world },
        ),
        start_attempt(state, platform, world).0.child is None,
        start_attempt(state, platform, world).1 == StartOutcome::Started
            || start_attempt(state, platform, world).1 == StartOutcome::LaunchFailed,
        world.first_spawn matches SpawnResult::Spawned { pid } ==> start_attempt(
            state,
            platform,
            world,
        ) == (BackendState { backend_pid: pid, ..state }, StartOutcome::Started),
        start_attempt(state, platform, world).1 == StartOutcome::LaunchFailed
            ==> start_attempt(state, platform, world).0 == state,
{
}

/// With no backend running and no binary found, the side process is the
/// fallback; when it fails too, the state stays as it was and the failure is
/// reported as a warning.
pub proof fn lemma_fallback_failure_is_a_warning(
    state: BackendState,
    platform: Platform,
    world: Answers,
)
    requires
        !state.is_shutting_down,
        state.child is None,
        !world.alive,
        world.found is None,
    ensures
        startup_plan(state, world.alive, world.found) == StartStep::SpawnSidecar,
        start_attempt(state, platform, world) == sidecar_step(state, world.sidecar),
        !(world.sidecar is Spawned) ==> start_attempt(state, platform, world).0 == state
            && level_of(start_attempt(state, platform, world).1) == LogLevel::Warn,
{
}

/// After a teardown the slot is empty, and a start attempt that follows at
/// once finds the shutdown under way: it tracks nothing, so no handle from
/// before the teardown can come back.
pub proof fn lemma_no_stale_handle_after_shutdown(
    state: BackendState,
    platform: Platform,
    world: Answers,
)
    ensures
        after_teardown(state).child is None,
        start_attempt(after_teardown(state), platform, world) == (
            after_teardown(state),
            StartOutcome::ShuttingDown,
        ),
        start_attempt(after_teardown(state), platform, world).0.child is None,
{
}

/// The shutdown flag never falls back, whichever step is taken.
pub proof fn lemma_flag_never_falls(
    state: BackendState,
    platform: Platform,
    world: Answers,
    method: SpawnMethod,
)
    ensures
        state.may_become(&start_attempt(state, platform, world).0),
        state.may_become(&sidecar_step(state, world.sidecar).0),
        state.may_become(&spawn_step(state, method, world.first_spawn).0),
        state.may_become(&after_teardown(state)),
{
}

/// A way to spawn the detached backend.
#[derive(Clone, Copy, Debug, PartialEq, Eq, Structural)]
pub enum SpawnMethod {
    /// Through the session-creating helper, in a session of its own.
    NewSession,
    /// Directly, without leaving the launcher's process group.
    Direct,
    /// Directly, in a new process group and without a console.
    DetachedGroup,
}

/// What came of one spawn.
#[derive(Clone, Copy, Debug, PartialEq, Eq, Structural)]
pub enum SpawnResult {
    Spawned { pid: u32 },
    Failed,
}

/// What follows one spawn.
#[derive(Clone, Copy, Debug, PartialEq, Eq, Structural)]
pub enum SpawnStep {
    /// The backend runs; its process id is recorded.
    Started { pid: u32 },
    /// Try again by another method.
    Retry { method: SpawnMethod },
    /// The backend could not be started. The shell stays usable.
    GiveUp,
}

/// The method tried first on a platform.
pub open spec fn first_method(platform: Platform) -> SpawnMethod {
    match platform {
        Platform::Unix => SpawnMethod::NewSession,
        Platform::Windows => SpawnMethod::DetachedGroup,
    }
}

/// State and next step after one spawn: success records the process id; a
/// failed session helper is retried directly; any other failure ends it.
pub open spec fn spawn_step(state: BackendState, method: SpawnMethod, result: SpawnResult) -> (
    BackendState,
    SpawnStep,
) {
    match result {
        SpawnResult::Spawned { pid } => (
            BackendState { backend_pid: pid, ..state },
            SpawnStep::Started { pid },
        ),
        SpawnResult::Failed => match method {
            SpawnMethod::NewSession => (state, SpawnStep::Retry { method: SpawnMethod::Direct }),
            _ => (state, SpawnStep::GiveUp),
        },
    }
}

/// The method to try first.
pub fn first_spawn_method(platform: Platform) -> (method: SpawnMethod)
    ensures
        method == first_method(platform),
{
    match platform {
        Platform::Unix => SpawnMethod::NewSession,
        Platform::Windows => SpawnMethod::DetachedGroup,
    }
}

/// Process creation flags of a method: a new process group and no console
/// for `DetachedGroup`, none for the others.
pub fn creation_flags(method: SpawnMethod) -> (flags: u32)
    ensures
        method == SpawnMethod::DetachedGroup ==> flags == 0x0000_0208,
        method != SpawnMethod::DetachedGroup ==> flags == 0,
{
    match method {
        SpawnMethod::DetachedGroup => 0x0000_0208,
        _ => 0,
    }
}

/// Takes in the result of one spawn.
pub fn on_spawn_result(state: &mut BackendState, method: SpawnMethod, result: SpawnResult) -> (step:
    SpawnStep)
    ensures
        (*final(state), step) == spawn_step(*old(state), method, result),
{
    match result {
        SpawnResult::Spawned { pid } => {
            state.backend_pid = pid;
            SpawnStep::Started { pid }
        },
        SpawnResult::Failed => match method {
            SpawnMethod::NewSession => SpawnStep::Retry { method: SpawnMethod::Direct },
            _ => SpawnStep::GiveUp,
        },
    }
}

/// Severity of a log record.
#[derive(Clone, Copy, Debug, PartialEq, Eq, Structural)]
pub enum LogLevel {
    Info,
    Warn,
    Error,
}

/// What the managed side process's stream delivered.
#[derive(Clone, Copy, Debug, PartialEq, Eq, Structural)]
pub enum StreamEvent {
    Stdout,
    Stderr,
    Terminated,
    Other,
}

/// What to do with one stream event.
#[derive(Clone, Copy, Debug, PartialEq, Eq, Structural)]
pub struct StreamStep {
    /// Level at which to forward the event, if at all.
    pub log: Option<LogLevel>,
    /// Whether to go on reading the stream.
    pub keep_reading: bool,
}

/// Output lines are forwarded, standard output as information and standard
/// error as warnings; termination is noted and ends the reading; anything
/// else is passed over.
pub open spec fn stream_step(event: StreamEvent) -> StreamStep {
    match event {
        StreamEvent::Stdout => StreamStep { log: Some(LogLevel::Info), keep_reading: true },
        StreamEvent::Stderr => StreamStep { log: Some(LogLevel::Warn), keep_reading: true },
        StreamEvent::Terminated => StreamStep { log: Some(LogLevel::Info), keep_reading: false },
        StreamEvent::Other => StreamStep { log: None, keep_reading: true },
    }
}

/// Handles one event of the managed side process's stream.
pub fn on_stream_event(event: StreamEvent) -> (step: StreamStep)
    ensures
        step == stream_step(event),
{
    match event {
        StreamEvent::Stdout => StreamStep { log: Some(LogLevel::Info), keep_reading: true },
        StreamEvent::Stderr => StreamStep { log: Some(LogLevel::Warn), keep_reading: true },
        StreamEvent::Terminated => StreamStep { log: Some(LogLevel::Info), keep_reading: false },
        StreamEvent::Other => StreamStep { log: None, keep_reading: true },
    }
}

/// Level at which an outcome is reported: a failed fallback is a warning,
/// whether the side process command is missing or did not start, since that
/// is what a development setup without a backend looks like; a binary that
/// was found and could not be started is an error; the rest is information.
pub open spec fn level_of(outcome: StartOutcome) -> LogLevel {
    match outcome {
        StartOutcome::SidecarUnavailable => LogLevel::Warn,
        StartOutcome::SpawnFailed => LogLevel::Warn,
        StartOutcome::LaunchFailed => LogLevel::Error,
        _ => LogLevel::Info,
    }
}

/// Level at which a start, on request or automatic, reports its outcome.
pub fn outcome_level(outcome: StartOutcome) -> (level: LogLevel)
    ensures
        level == level_of(outcome),
{
    match outcome {
        StartOutcome::SidecarUnavailable => LogLevel::Warn,
        StartOutcome::SpawnFailed => LogLevel::Warn,
        StartOutcome::LaunchFailed => LogLevel::Error,
        _ => LogLevel::Info,
    }
}

} // verus!
