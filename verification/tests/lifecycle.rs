use backend_supervisor::health::{is_backend_running, probe_target, ConnectOutcome};
use backend_supervisor::launcher::{
    after_probe, after_sidecar_spawn, creation_flags, first_spawn_method, on_spawn_result,
    after_detached_spawn, on_stream_event, outcome_level, plan_startup, start_backend, LogLevel,
    SidecarResult, SpawnMethod, SpawnResult, SpawnStep, StartOutcome, StartStep, StreamEvent,
    STARTUP_DELAY_MS,
};
use backend_supervisor::locator::BinaryCandidate;
use backend_supervisor::reaper::{
    force_cleanup, graceful_kill_backend, stop_backend, Platform, ReapAction, Signal,
    GRACE_PERIOD_MS,
};
use backend_supervisor::surface::{
    check_backend_health, get_system_info, on_shell_event, start_reply, Reaction, ShellEvent,
};
use backend_supervisor::{BackendState, ProcessHandle, TradingState};

fn idle() -> BackendState {
    BackendState::default()
}

fn with_child(pid: u32) -> BackendState {
    BackendState { child: Some(ProcessHandle { pid }), backend_pid: 0, is_shutting_down: false }
}

#[test]
fn states_start_empty() {
    let trading = TradingState::default();
    assert!(!trading.is_trading);
    assert_eq!(trading.connected_accounts, 0);
    assert_eq!(trading.active_bots, 0);
    let backend = BackendState::default();
    assert_eq!(backend.child, None);
    assert_eq!(backend.backend_pid, 0);
    assert!(!backend.is_shutting_down);
}

#[test]
fn state_updates_touch_one_field() {
    let mut state = idle();
    state.record_pid(4321);
    assert_eq!(state, BackendState { child: None, backend_pid: 4321, is_shutting_down: false });
    state.track(ProcessHandle { pid: 9 });
    assert_eq!(state.child, Some(ProcessHandle { pid: 9 }));
    assert_eq!(state.backend_pid, 4321);
    state.begin_shutdown();
    assert!(state.is_shutting_down);
    assert_eq!(state.take_child(), Some(ProcessHandle { pid: 9 }));
    assert_eq!(state.take_child(), None);
    assert_eq!(state, BackendState { child: None, backend_pid: 4321, is_shutting_down: true });
}

#[test]
fn probe_is_loopback_port_and_half_a_second() {
    let target = probe_target();
    assert_eq!(
        (target.address.first, target.address.second, target.address.third, target.address.fourth),
        (127, 0, 0, 1)
    );
    assert_eq!(target.port, 9876);
    assert_eq!(target.timeout_ms, 500);
}

#[test]
fn only_a_connection_counts_as_alive() {
    assert!(is_backend_running(ConnectOutcome::Connected));
    assert!(!is_backend_running(ConnectOutcome::Refused));
    assert!(!is_backend_running(ConnectOutcome::TimedOut));
    assert!(!is_backend_running(ConnectOutcome::Unreachable));
    assert!(check_backend_health(ConnectOutcome::Connected));
    assert!(!check_backend_health(ConnectOutcome::Refused));
    assert!(!check_backend_health(ConnectOutcome::TimedOut));
    assert!(!check_backend_health(ConnectOutcome::Unreachable));
}

#[test]
fn start_is_refused_once_shutting_down() {
    let mut state = with_child(5);
    state.begin_shutdown();
    let before = state;
    assert_eq!(start_backend(&state), StartStep::Done { outcome: StartOutcome::ShuttingDown });
    assert_eq!(state, before);
    let mut bare = idle();
    bare.begin_shutdown();
    assert_eq!(start_backend(&bare), StartStep::Done { outcome: StartOutcome::ShuttingDown });
    assert_eq!(bare.child, None);
    assert_eq!(
        start_reply(StartOutcome::ShuttingDown, ""),
        Err("Application is shutting down".to_string())
    );
}

#[test]
fn start_twice_while_tracked_reports_running_both_times() {
    let state = with_child(77);
    let first = start_backend(&state);
    let second = start_backend(&state);
    assert_eq!(first, StartStep::Done { outcome: StartOutcome::AlreadyTracked });
    assert_eq!(second, first);
    assert_eq!(state, with_child(77));
    assert_eq!(
        start_reply(StartOutcome::AlreadyTracked, ""),
        Ok("Backend already running (tracked)".to_string())
    );
}

#[test]
fn shutdown_empties_the_slot_and_blocks_the_next_start() {
    let mut state = with_child(31);
    let actions = graceful_kill_backend(&mut state, Platform::Unix);
    assert_eq!(
        actions,
        vec![ReapAction::KillTracked { handle: ProcessHandle { pid: 31 } }, ReapAction::Sweep]
    );
    assert_eq!(state.child, None);
    assert!(state.is_shutting_down);
    assert_eq!(start_backend(&state), StartStep::Done { outcome: StartOutcome::ShuttingDown });
    assert_eq!(state.child, None);
}

#[test]
fn answering_backend_is_reused() {
    let state = idle();
    assert_eq!(start_backend(&state), StartStep::ProbeHealth);
    assert_eq!(after_probe(true, None), StartStep::Done { outcome: StartOutcome::AlreadyExternal });
    assert_eq!(
        after_probe(true, Some(BinaryCandidate { root: 1, name: 2 })),
        StartStep::Done { outcome: StartOutcome::AlreadyExternal }
    );
    assert_eq!(state, idle());
    assert_eq!(
        start_reply(StartOutcome::AlreadyExternal, ""),
        Ok("Backend already running (external)".to_string())
    );
    assert_eq!(
        plan_startup(&state, true, Some(BinaryCandidate { root: 0, name: 0 })),
        StartStep::Done { outcome: StartOutcome::AlreadyExternal }
    );
}

#[test]
fn silent_port_leads_to_a_spawn_that_is_tracked() {
    let mut state = idle();
    assert_eq!(after_probe(false, None), StartStep::SpawnSidecar);
    let handle = ProcessHandle { pid: 600 };
    let outcome = after_sidecar_spawn(&mut state, SidecarResult::Spawned { handle });
    assert_eq!(outcome, StartOutcome::Started);
    assert_eq!(state, BackendState { child: Some(handle), backend_pid: 0, is_shutting_down: false });
    assert_eq!(start_reply(outcome, ""), Ok("Backend started".to_string()));
}

#[test]
fn failed_spawns_are_worded_with_their_cause() {
    let mut state = idle();
    let outcome = after_sidecar_spawn(&mut state, SidecarResult::CommandUnavailable);
    assert_eq!(outcome, StartOutcome::SidecarUnavailable);
    assert_eq!(state, idle());
    assert_eq!(
        start_reply(outcome, "no such file"),
        Err("Failed to create sidecar command: no such file".to_string())
    );
    let outcome = after_sidecar_spawn(&mut state, SidecarResult::SpawnFailed);
    assert_eq!(outcome, StartOutcome::SpawnFailed);
    assert_eq!(state, idle());
    assert_eq!(
        start_reply(outcome, "permission denied"),
        Err("Failed to spawn backend: permission denied".to_string())
    );
}

#[test]
fn no_backend_and_no_binary_falls_back_to_the_side_process() {
    let mut state = idle();
    assert_eq!(start_backend(&state), StartStep::ProbeHealth);
    assert_eq!(after_probe(false, None), StartStep::SpawnSidecar);
    assert_eq!(plan_startup(&state, false, None), StartStep::SpawnSidecar);
    let outcome = after_sidecar_spawn(&mut state, SidecarResult::CommandUnavailable);
    assert_eq!(outcome, StartOutcome::SidecarUnavailable);
    assert_eq!(outcome_level(outcome), LogLevel::Warn);
    assert_eq!(state, idle());
    assert_eq!(
        start_reply(outcome, "sidecar not configured"),
        Err("Failed to create sidecar command: sidecar not configured".to_string())
    );
    let outcome = after_sidecar_spawn(&mut state, SidecarResult::SpawnFailed);
    assert_eq!(outcome, StartOutcome::SpawnFailed);
    assert_eq!(outcome_level(outcome), LogLevel::Warn);
    assert_eq!(state, idle());
    assert_eq!(
        start_reply(outcome, "exec format error"),
        Err("Failed to spawn backend: exec format error".to_string())
    );
}

#[test]
fn outcomes_are_reported_at_their_level() {
    assert_eq!(outcome_level(StartOutcome::SidecarUnavailable), LogLevel::Warn);
    assert_eq!(outcome_level(StartOutcome::SpawnFailed), LogLevel::Warn);
    assert_eq!(outcome_level(StartOutcome::LaunchFailed), LogLevel::Error);
    assert_eq!(outcome_level(StartOutcome::Started), LogLevel::Info);
    assert_eq!(outcome_level(StartOutcome::AlreadyExternal), LogLevel::Info);
    assert_eq!(outcome_level(StartOutcome::AlreadyTracked), LogLevel::Info);
    assert_eq!(outcome_level(StartOutcome::ShuttingDown), LogLevel::Info);
}

#[test]
fn a_found_binary_is_launched_detached_and_no_side_process_is_spawned() {
    let mut state = idle();
    let binary = BinaryCandidate { root: 1, name: 3 };
    assert_eq!(start_backend(&state), StartStep::ProbeHealth);
    assert_eq!(after_probe(false, Some(binary)), StartStep::LaunchDetached { binary });
    let method = first_spawn_method(Platform::Unix);
    let step = on_spawn_result(&mut state, method, SpawnResult::Spawned { pid: 7001 });
    assert_eq!(step, SpawnStep::Started { pid: 7001 });
    let outcome = after_detached_spawn(step);
    assert_eq!(outcome, Some(StartOutcome::Started));
    assert_eq!(state, BackendState { child: None, backend_pid: 7001, is_shutting_down: false });
    assert_eq!(start_reply(StartOutcome::Started, ""), Ok("Backend started".to_string()));
}

#[test]
fn a_found_binary_that_starts_only_directly_is_still_started() {
    let mut state = idle();
    let step = on_spawn_result(&mut state, SpawnMethod::NewSession, SpawnResult::Failed);
    assert_eq!(step, SpawnStep::Retry { method: SpawnMethod::Direct });
    assert_eq!(after_detached_spawn(step), None);
    let step = on_spawn_result(&mut state, SpawnMethod::Direct, SpawnResult::Spawned { pid: 42 });
    assert_eq!(after_detached_spawn(step), Some(StartOutcome::Started));
    assert_eq!(state, BackendState { child: None, backend_pid: 42, is_shutting_down: false });
}

#[test]
fn a_found_binary_that_does_not_start_is_an_error_and_not_a_fallback() {
    let mut state = idle();
    let step = on_spawn_result(&mut state, SpawnMethod::DetachedGroup, SpawnResult::Failed);
    assert_eq!(step, SpawnStep::GiveUp);
    let outcome = after_detached_spawn(step);
    assert_eq!(outcome, Some(StartOutcome::LaunchFailed));
    assert_eq!(state, idle());
    assert_eq!(outcome_level(StartOutcome::LaunchFailed), LogLevel::Error);
    assert_eq!(
        start_reply(StartOutcome::LaunchFailed, "permission denied"),
        Err("Failed to spawn backend: permission denied".to_string())
    );
}

#[test]
fn automatic_start_follows_guard_probe_and_search() {
    let found = Some(BinaryCandidate { root: 2, name: 3 });
    assert_eq!(
        plan_startup(&idle(), false, found),
        StartStep::LaunchDetached { binary: BinaryCandidate { root: 2, name: 3 } }
    );
    assert_eq!(
        plan_startup(&with_child(1), false, found),
        StartStep::Done { outcome: StartOutcome::AlreadyTracked }
    );
    let mut closing = idle();
    closing.begin_shutdown();
    assert_eq!(
        plan_startup(&closing, true, found),
        StartStep::Done { outcome: StartOutcome::ShuttingDown }
    );
    assert_eq!(STARTUP_DELAY_MS, 500);
}

#[test]
fn detached_spawn_retries_only_the_session_helper() {
    assert_eq!(first_spawn_method(Platform::Unix), SpawnMethod::NewSession);
    assert_eq!(first_spawn_method(Platform::Windows), SpawnMethod::DetachedGroup);
    let mut state = idle();
    assert_eq!(
        on_spawn_result(&mut state, SpawnMethod::NewSession, SpawnResult::Failed),
        SpawnStep::Retry { method: SpawnMethod::Direct }
    );
    assert_eq!(state, idle());
    assert_eq!(
        on_spawn_result(&mut state, SpawnMethod::Direct, SpawnResult::Failed),
        SpawnStep::GiveUp
    );
    assert_eq!(
        on_spawn_result(&mut state, SpawnMethod::DetachedGroup, SpawnResult::Failed),
        SpawnStep::GiveUp
    );
    assert_eq!(state, idle());
    assert_eq!(
        on_spawn_result(&mut state, SpawnMethod::Direct, SpawnResult::Spawned { pid: 2468 }),
        SpawnStep::Started { pid: 2468 }
    );
    assert_eq!(state, BackendState { child: None, backend_pid: 2468, is_shutting_down: false });
}

#[test]
fn creation_flags_are_new_group_and_no_console() {
    assert_eq!(creation_flags(SpawnMethod::DetachedGroup), 0x0000_0200 | 0x0000_0008);
    assert_eq!(creation_flags(SpawnMethod::Direct), 0);
    assert_eq!(creation_flags(SpawnMethod::NewSession), 0);
}

#[test]
fn stream_events_are_forwarded_until_termination() {
    let out = on_stream_event(StreamEvent::Stdout);
    assert_eq!((out.log, out.keep_reading), (Some(LogLevel::Info), true));
    let err = on_stream_event(StreamEvent::Stderr);
    assert_eq!((err.log, err.keep_reading), (Some(LogLevel::Warn), true));
    let end = on_stream_event(StreamEvent::Terminated);
    assert_eq!((end.log, end.keep_reading), (Some(LogLevel::Info), false));
    let other = on_stream_event(StreamEvent::Other);
    assert_eq!((other.log, other.keep_reading), (None, true));
}

#[test]
fn graceful_teardown_with_signals() {
    let mut state =
        BackendState { child: Some(ProcessHandle { pid: 11 }), backend_pid: 22, is_shutting_down: false };
    let actions = graceful_kill_backend(&mut state, Platform::Unix);
    assert_eq!(
        actions,
        vec![
            ReapAction::KillTracked { handle: ProcessHandle { pid: 11 } },
            ReapAction::Signal { signal: Signal::Terminate, pid: 22 },
            ReapAction::Wait { millis: 500 },
            ReapAction::Signal { signal: Signal::Kill, pid: 22 },
            ReapAction::Sweep,
        ]
    );
    assert_eq!(state, BackendState { child: None, backend_pid: 22, is_shutting_down: true });
    assert_eq!(GRACE_PERIOD_MS, 500);
    assert_eq!(Signal::Terminate.number(), 15);
    assert_eq!(Signal::Kill.number(), 9);
}

#[test]
fn graceful_teardown_without_signals() {
    let mut state = BackendState { child: None, backend_pid: 22, is_shutting_down: false };
    let actions = graceful_kill_backend(&mut state, Platform::Windows);
    assert_eq!(actions, vec![ReapAction::TaskKill { pid: 22 }, ReapAction::Sweep]);
    assert_eq!(state, BackendState { child: None, backend_pid: 22, is_shutting_down: true });
}

#[test]
fn stopping_with_nothing_tracked_is_a_success() {
    let mut state = idle();
    let done = stop_backend(&mut state, Platform::Unix);
    assert_eq!(done.actions, vec![ReapAction::Sweep]);
    assert_eq!(done.reply, "Backend stopped and cleaned up");
    let again = stop_backend(&mut state, Platform::Unix);
    assert_eq!(again.actions, vec![ReapAction::Sweep]);
    assert_eq!(again.reply, "Backend stopped and cleaned up");
    assert_eq!(state, BackendState { child: None, backend_pid: 0, is_shutting_down: true });
}

#[test]
fn force_cleanup_with_nothing_known_still_sweeps() {
    let mut state = idle();
    let done = force_cleanup(&mut state, Platform::Unix);
    assert_eq!(done.actions, vec![ReapAction::Sweep, ReapAction::Sweep]);
    assert_eq!(done.reply, "Force cleanup completed");
    assert!(state.is_shutting_down);
    let mut other = idle();
    let done = force_cleanup(&mut other, Platform::Windows);
    assert_eq!(done.actions, vec![ReapAction::Sweep, ReapAction::Sweep]);
    assert_eq!(done.reply, "Force cleanup completed");
}

#[test]
fn force_cleanup_runs_the_whole_teardown_and_one_more_sweep() {
    let mut state =
        BackendState { child: Some(ProcessHandle { pid: 3 }), backend_pid: 4, is_shutting_down: false };
    let done = force_cleanup(&mut state, Platform::Windows);
    assert_eq!(
        done.actions,
        vec![
            ReapAction::KillTracked { handle: ProcessHandle { pid: 3 } },
            ReapAction::TaskKill { pid: 4 },
            ReapAction::Sweep,
            ReapAction::Sweep,
        ]
    );
    assert_eq!(state, BackendState { child: None, backend_pid: 4, is_shutting_down: true });
}

#[test]
fn system_info_is_a_json_object_of_three_strings() {
    let info = get_system_info("linux", "x86_64", "1.4.2");
    let object = info.as_object().expect("an object");
    assert_eq!(object.len(), 3);
    assert_eq!(info["os"], "linux");
    assert_eq!(info["arch"], "x86_64");
    assert_eq!(info["version"], "1.4.2");
    assert_eq!(info.to_string(), "{\"arch\":\"x86_64\",\"os\":\"linux\",\"version\":\"1.4.2\"}");
}

#[test]
fn closing_and_quitting_shut_down_and_the_kill_switch_is_the_emergency() {
    assert_eq!(on_shell_event(ShellEvent::CloseRequested), Reaction::Shutdown);
    assert_eq!(on_shell_event(ShellEvent::WindowDestroyed), Reaction::Shutdown);
    assert_eq!(on_shell_event(ShellEvent::QuitRequested), Reaction::ShutdownAndExit);
    assert_eq!(on_shell_event(ShellEvent::KillSwitch), Reaction::Emergency);
    assert_eq!(on_shell_event(ShellEvent::Other), Reaction::Ignore);
}
