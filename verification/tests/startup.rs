use sidecar_supervisor::endpoint::{BackendEndpoint, RegistryError};
use sidecar_supervisor::health::{GateOutcome, HealthGate};
use sidecar_supervisor::log::{LogRecord, LogSink};
use sidecar_supervisor::port::PortPolicy;
use sidecar_supervisor::startup::{
    readiness_log, SpawnError, StartupAction, StartupEvent, StartupOrchestrator, StartupPhase,
};

fn running() -> StartupOrchestrator {
    let mut orchestrator = StartupOrchestrator::standard();
    orchestrator.step(StartupEvent::Launch);
    orchestrator.step(StartupEvent::SpawnSucceeded);
    orchestrator
}

#[test]
fn nothing_is_published_before_launch() {
    let orchestrator = StartupOrchestrator::standard();
    assert_eq!(orchestrator.phase(), StartupPhase::Idle);
    assert_eq!(orchestrator.readiness(), None);
    assert!(!orchestrator.registry().is_published());
    assert_eq!(orchestrator.get_backend_url(), Err(RegistryError::NotPublished));
}

#[test]
fn launch_publishes_the_endpoint_and_asks_for_the_spawn() {
    let mut orchestrator = StartupOrchestrator::standard();
    let action = orchestrator.step(StartupEvent::Launch);
    assert_eq!(
        action,
        StartupAction::SpawnBackend {
            executable: String::from("daily-notes-backend"),
            endpoint: BackendEndpoint::new("127.0.0.1", 8000),
        }
    );
    assert_eq!(orchestrator.phase(), StartupPhase::Spawning);
    assert_eq!(orchestrator.get_backend_url(), Ok(String::from("http://127.0.0.1:8000")));
}

#[test]
fn successful_spawn_starts_relay_and_gate() {
    let mut orchestrator = StartupOrchestrator::standard();
    orchestrator.step(StartupEvent::Launch);
    let action = orchestrator.step(StartupEvent::SpawnSucceeded);
    assert_eq!(
        action,
        StartupAction::StartBackgroundTasks {
            gate: HealthGate::new(30, 1000),
            endpoint: BackendEndpoint::loopback(8000),
        }
    );
    assert_eq!(orchestrator.phase(), StartupPhase::Running);
    assert_eq!(orchestrator.readiness(), None);
}

#[test]
fn failed_spawn_aborts_with_a_diagnostic() {
    let mut orchestrator = StartupOrchestrator::standard();
    orchestrator.step(StartupEvent::Launch);
    let action = orchestrator.step(StartupEvent::SpawnFailed(SpawnError::StartRefused));
    assert_eq!(
        action,
        StartupAction::Abort { diagnostic: String::from("Failed to spawn sidecar") }
    );
    assert_eq!(orchestrator.phase(), StartupPhase::Aborted);

    let mut orchestrator = StartupOrchestrator::standard();
    orchestrator.step(StartupEvent::Launch);
    let action = orchestrator.step(StartupEvent::SpawnFailed(SpawnError::NotFound));
    assert_eq!(
        action,
        StartupAction::Abort { diagnostic: String::from("failed to create sidecar command") }
    );
    assert_eq!(orchestrator.phase(), StartupPhase::Aborted);
}

#[test]
fn spawn_error_diagnostics() {
    assert_eq!(SpawnError::NotFound.diagnostic(), "failed to create sidecar command");
    assert_eq!(SpawnError::StartRefused.diagnostic(), "Failed to spawn sidecar");
}

#[test]
fn aborted_startup_stays_aborted() {
    let mut orchestrator = StartupOrchestrator::standard();
    orchestrator.step(StartupEvent::Launch);
    orchestrator.step(StartupEvent::SpawnFailed(SpawnError::NotFound));
    for event in [
        StartupEvent::Launch,
        StartupEvent::SpawnSucceeded,
        StartupEvent::SpawnFailed(SpawnError::StartRefused),
        StartupEvent::HealthResolved(GateOutcome::Ready),
    ] {
        assert_eq!(orchestrator.step(event), StartupAction::Nothing);
        assert_eq!(orchestrator.phase(), StartupPhase::Aborted);
    }
}

#[test]
fn timeout_is_a_warning_and_startup_goes_on() {
    let mut orchestrator = running();
    let action = orchestrator.step(StartupEvent::HealthResolved(GateOutcome::TimedOut));
    assert_eq!(
        action,
        StartupAction::Log(LogRecord {
            sink: LogSink::Warning,
            text: String::from("Backend failed to start after 30 seconds"),
        })
    );
    assert_eq!(orchestrator.phase(), StartupPhase::Running);
    assert_eq!(orchestrator.readiness(), Some(GateOutcome::TimedOut));
    assert_eq!(orchestrator.get_backend_url(), Ok(String::from("http://127.0.0.1:8000")));
}

#[test]
fn readiness_is_logged_to_info() {
    let mut orchestrator = running();
    let action = orchestrator.step(StartupEvent::HealthResolved(GateOutcome::Ready));
    assert_eq!(
        action,
        StartupAction::Log(LogRecord {
            sink: LogSink::Info,
            text: String::from("Backend is ready!"),
        })
    );
    assert_eq!(orchestrator.phase(), StartupPhase::Running);
    assert_eq!(orchestrator.readiness(), Some(GateOutcome::Ready));
}

#[test]
fn gate_outcome_is_taken_once() {
    let mut orchestrator = running();
    orchestrator.step(StartupEvent::HealthResolved(GateOutcome::TimedOut));
    assert_eq!(
        orchestrator.step(StartupEvent::HealthResolved(GateOutcome::Ready)),
        StartupAction::Nothing
    );
    assert_eq!(orchestrator.readiness(), Some(GateOutcome::TimedOut));
}

#[test]
fn url_is_the_same_before_and_after_the_gate_ends() {
    let mut orchestrator = StartupOrchestrator::standard();
    orchestrator.step(StartupEvent::Launch);
    let at_launch = orchestrator.get_backend_url();
    orchestrator.step(StartupEvent::SpawnSucceeded);
    assert_eq!(orchestrator.get_backend_url(), at_launch);
    orchestrator.step(StartupEvent::HealthResolved(GateOutcome::TimedOut));
    assert_eq!(orchestrator.get_backend_url(), at_launch);
    assert_eq!(at_launch, Ok(String::from("http://127.0.0.1:8000")));
}

#[test]
fn events_out_of_sequence_are_passed_over() {
    let mut orchestrator = StartupOrchestrator::standard();
    for event in [
        StartupEvent::SpawnSucceeded,
        StartupEvent::SpawnFailed(SpawnError::NotFound),
        StartupEvent::HealthResolved(GateOutcome::Ready),
    ] {
        assert_eq!(orchestrator.step(event), StartupAction::Nothing);
        assert_eq!(orchestrator.phase(), StartupPhase::Idle);
    }
    orchestrator.step(StartupEvent::Launch);
    assert_eq!(orchestrator.step(StartupEvent::Launch), StartupAction::Nothing);
    assert_eq!(
        orchestrator.step(StartupEvent::HealthResolved(GateOutcome::Ready)),
        StartupAction::Nothing
    );
    assert_eq!(orchestrator.phase(), StartupPhase::Spawning);
    orchestrator.step(StartupEvent::SpawnSucceeded);
    assert_eq!(orchestrator.step(StartupEvent::Launch), StartupAction::Nothing);
    assert_eq!(orchestrator.step(StartupEvent::SpawnSucceeded), StartupAction::Nothing);
    assert_eq!(
        orchestrator.step(StartupEvent::SpawnFailed(SpawnError::NotFound)),
        StartupAction::Nothing
    );
    assert_eq!(orchestrator.phase(), StartupPhase::Running);
}

#[test]
fn configured_policies_are_handed_on() {
    let mut orchestrator = StartupOrchestrator::new(PortPolicy::Fixed(9123), 3, 500);
    assert_eq!(
        orchestrator.step(StartupEvent::Launch),
        StartupAction::SpawnBackend {
            executable: String::from("daily-notes-backend"),
            endpoint: BackendEndpoint::loopback(9123),
        }
    );
    assert_eq!(
        orchestrator.step(StartupEvent::SpawnSucceeded),
        StartupAction::StartBackgroundTasks {
            gate: HealthGate::new(3, 500),
            endpoint: BackendEndpoint::loopback(9123),
        }
    );
    assert_eq!(
        orchestrator.step(StartupEvent::HealthResolved(GateOutcome::TimedOut)),
        StartupAction::Log(LogRecord {
            sink: LogSink::Warning,
            text: String::from("Backend failed to start after 1 seconds"),
        })
    );
    assert_eq!(orchestrator.get_backend_url(), Ok(String::from("http://127.0.0.1:9123")));
}

#[test]
fn timeout_message_counts_whole_seconds() {
    assert_eq!(readiness_log(GateOutcome::TimedOut, 30, 1000).text, "Backend failed to start after 30 seconds");
    assert_eq!(readiness_log(GateOutcome::TimedOut, 3, 500).text, "Backend failed to start after 1 seconds");
    assert_eq!(readiness_log(GateOutcome::TimedOut, 0, 1000).text, "Backend failed to start after 0 seconds");
    assert_eq!(
        readiness_log(GateOutcome::TimedOut, u32::MAX, u32::MAX).text,
        "Backend failed to start after 18446744065119617 seconds"
    );
    assert_eq!(readiness_log(GateOutcome::Ready, 30, 1000).sink, LogSink::Info);
    assert_eq!(readiness_log(GateOutcome::TimedOut, 30, 1000).sink, LogSink::Warning);
}
