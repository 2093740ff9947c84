use sidecar_supervisor::supervisor::Action;
use sidecar_supervisor::supervisor::BuildConfig;
use sidecar_supervisor::supervisor::LoggingOutcome;
use sidecar_supervisor::supervisor::Phase;
use sidecar_supervisor::supervisor::SetupError;
use sidecar_supervisor::supervisor::SpawnError;
use sidecar_supervisor::supervisor::SpawnOutcome;
use sidecar_supervisor::supervisor::Supervisor;

#[test]
fn fresh_supervisor_starts_at_the_beginning() {
    let s = Supervisor::new(BuildConfig::Debug);
    assert_eq!(s.phase, Phase::Starting);
    assert_eq!(s.children_spawned, 0);
    assert!(!s.logging_active);
    assert_eq!(s.pending_action(), Some(Action::SpawnBackend));
    assert!(s.check_well_formed());
}

#[test]
fn debug_startup_orders_spawn_then_logging_then_run() {
    let mut s = Supervisor::new(BuildConfig::Debug);
    let mut performed: Vec<Action> = Vec::new();

    while let Some(action) = s.pending_action() {
        performed.push(action);
        match action {
            Action::SpawnBackend => s.on_spawn_outcome(SpawnOutcome::Spawned),
            Action::RegisterLogging => s.on_logging_outcome(LoggingOutcome::Registered),
        }
    }

    assert_eq!(performed, vec![Action::SpawnBackend, Action::RegisterLogging]);
    assert_eq!(s.phase, Phase::Running);
    assert!(s.logging_active);
    assert_eq!(s.children_spawned, 1);
    assert!(s.check_well_formed());
}

#[test]
fn release_startup_spawns_and_skips_logging_without_error() {
    let mut s = Supervisor::new(BuildConfig::Release);
    let mut performed: Vec<Action> = Vec::new();

    while let Some(action) = s.pending_action() {
        performed.push(action);
        match action {
            Action::SpawnBackend => s.on_spawn_outcome(SpawnOutcome::Spawned),
            Action::RegisterLogging => s.on_logging_outcome(LoggingOutcome::Registered),
        }
    }

    assert_eq!(performed, vec![Action::SpawnBackend]);
    assert_eq!(s.phase, Phase::Running);
    assert!(!s.logging_active);
    assert_eq!(s.children_spawned, 1);
}

#[test]
fn successful_startup_spawns_exactly_one_child() {
    for config in [BuildConfig::Debug, BuildConfig::Release] {
        let mut s = Supervisor::new(config);
        s.on_spawn_outcome(SpawnOutcome::Spawned);
        if s.pending_action() == Some(Action::RegisterLogging) {
            s.on_logging_outcome(LoggingOutcome::Registered);
        }
        assert_eq!(s.phase, Phase::Running);
        assert_eq!(s.children_spawned, 1);
        // terminal: the supervisor asks for nothing more, so a host that
        // drives it by pending_action can never spawn again
        assert_eq!(s.pending_action(), None);
    }
}

#[test]
fn missing_executable_aborts_before_the_event_loop() {
    let mut s = Supervisor::new(BuildConfig::Release);
    s.on_spawn_outcome(SpawnOutcome::Failed(SpawnError::ExecutableMissing));
    assert_eq!(
        s.phase,
        Phase::Aborted(SetupError::SpawnFailed(SpawnError::ExecutableMissing))
    );
    assert_eq!(s.children_spawned, 0);
    assert_eq!(s.pending_action(), None);
}

#[test]
fn permission_denied_aborts() {
    let mut s = Supervisor::new(BuildConfig::Debug);
    s.on_spawn_outcome(SpawnOutcome::Failed(SpawnError::PermissionDenied));
    assert_eq!(
        s.phase,
        Phase::Aborted(SetupError::SpawnFailed(SpawnError::PermissionDenied))
    );
    assert_eq!(s.pending_action(), None);
}

#[test]
fn launch_failure_aborts() {
    let mut s = Supervisor::new(BuildConfig::Debug);
    s.on_spawn_outcome(SpawnOutcome::Failed(SpawnError::LaunchFailed));
    assert_eq!(
        s.phase,
        Phase::Aborted(SetupError::SpawnFailed(SpawnError::LaunchFailed))
    );
}

#[test]
fn logging_failure_aborts_with_a_diagnostic() {
    let mut s = Supervisor::new(BuildConfig::Debug);
    s.on_spawn_outcome(SpawnOutcome::Spawned);
    s.on_logging_outcome(LoggingOutcome::Failed);

    assert_eq!(s.phase, Phase::Aborted(SetupError::LoggingFailed));
    assert!(!s.logging_active);
    assert_eq!(s.pending_action(), None);

    // the abort carries a user-visible diagnostic, not a bare crash
    match s.phase {
        Phase::Aborted(e) => {
            assert_eq!(e.describe(), "failed to register the debug logging sink");
        }
        _ => unreachable!(),
    }
}

#[test]
fn every_abort_reason_has_its_own_diagnostic() {
    assert_eq!(
        SpawnError::ExecutableMissing.describe(),
        "backend executable is missing from the application bundle"
    );
    assert_eq!(
        SpawnError::PermissionDenied.describe(),
        "backend executable may not be executed"
    );
    assert_eq!(
        SpawnError::LaunchFailed.describe(),
        "operating system failed to start the backend process"
    );
    assert_eq!(
        SetupError::SpawnFailed(SpawnError::ExecutableMissing).describe(),
        "backend executable is missing from the application bundle"
    );
    assert_eq!(
        SetupError::LoggingFailed.describe(),
        "failed to register the debug logging sink"
    );
}

#[test]
fn well_formedness_check_rejects_corrupt_states() {
    // a release build can never have an active logging sink
    let corrupt = Supervisor {
        config: BuildConfig::Release,
        phase: Phase::Running,
        children_spawned: 1,
        logging_active: true,
    };
    assert!(!corrupt.check_well_formed());

    // a running supervisor has spawned exactly one child
    let corrupt = Supervisor {
        config: BuildConfig::Release,
        phase: Phase::Running,
        children_spawned: 0,
        logging_active: false,
    };
    assert!(!corrupt.check_well_formed());

    // an abort on spawn failure means no child was created
    let corrupt = Supervisor {
        config: BuildConfig::Debug,
        phase: Phase::Aborted(SetupError::SpawnFailed(SpawnError::LaunchFailed)),
        children_spawned: 1,
        logging_active: false,
    };
    assert!(!corrupt.check_well_formed());
}

#[test]
fn completed_state_is_determined_by_the_configuration_alone() {
    // two independent debug startups end in identical states: nothing about
    // the spawned child (no handle, no channel) survives setup
    let mut a = Supervisor::new(BuildConfig::Debug);
    a.on_spawn_outcome(SpawnOutcome::Spawned);
    a.on_logging_outcome(LoggingOutcome::Registered);

    let mut b = Supervisor::new(BuildConfig::Debug);
    b.on_spawn_outcome(SpawnOutcome::Spawned);
    b.on_logging_outcome(LoggingOutcome::Registered);

    assert_eq!(a, b);
}
