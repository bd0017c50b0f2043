//! The startup sequence: fix the port, publish the endpoint, have the backend
//! spawned, and on success have its output relayed and its readiness watched.
//!
//! The orchestrator decides; its caller acts. Each event the caller reports
//! yields the next action to perform.

use vstd::prelude::*;
use vstd::pervasive::unreached;
use vstd::string::*;
use crate::endpoint::{
    after_publish, answer_matches, base_url_text, loopback_host, url_answer, BackendEndpoint,
    EndpointModel, EndpointRegistry, RegistryError,
};
use crate::health::{GateModel, GateOutcome, HealthGate};
use crate::log::{LogRecord, LogSink, RecordModel};
use crate::port::PortPolicy;
use crate::text::{decimal, u64_to_decimal};

verus! {

/// Why the backend process could not be started.
#[derive(Clone, Copy, Debug, PartialEq, Eq, Structural)]
pub enum SpawnError {
    /// No bundled executable of the requested name was found.
    NotFound,
    /// The executable was found and the system refused to start it.
    StartRefused,
}

/// The diagnostic shown to the operator when startup is aborted.
pub open spec fn diagnostic_text(error: SpawnError) -> Seq<char> {
    match error {
        SpawnError::NotFound => "failed to create sidecar command"@,
        SpawnError::StartRefused => "Failed to spawn sidecar"@,
    }
}

impl SpawnError {
    /// The diagnostic shown to the operator.
    pub fn diagnostic(&self) -> (text: String)
        ensures
            text@ == diagnostic_text(*self),
    {
        match self {
            SpawnError::NotFound => String::from_str("failed to create sidecar command"),
            SpawnError::StartRefused => String::from_str("Failed to spawn sidecar"),
        }
    }
}

/// How far startup has come.
#[derive(Clone, Copy, Debug, PartialEq, Eq, Structural)]
pub enum StartupPhase {
    /// Nothing has happened yet.
    Idle,
    /// The endpoint is published and the backend is being spawned.
    Spawning,
    /// The backend process runs. Startup is complete.
    Running,
    /// The backend could not be spawned. Startup has failed for good.
    Aborted,
}

/// What the caller reports to the orchestrator.
#[derive(Clone, Copy, Debug, PartialEq, Eq, Structural)]
pub enum StartupEvent {
    /// The application is launching.
    Launch,
    /// The backend process was started.
    SpawnSucceeded,
    /// The backend process could not be started.
    SpawnFailed(SpawnError),
    /// The readiness gate has ended.
    HealthResolved(GateOutcome),
}

/// What a `StartupAction` stands for.
pub enum ActionModel {
    SpawnBackend { executable: Seq<char>, endpoint: EndpointModel },
    StartBackgroundTasks { gate: GateModel, endpoint: EndpointModel },
    Abort { diagnostic: Seq<char> },
    Log(RecordModel),
    Nothing,
}

/// What the orchestrator asks of its caller.
#[derive(Debug, PartialEq, Eq)]
pub enum StartupAction {
    /// Spawn the bundled executable of this name, without arguments, and
    /// report how that went. The backend is expected on `endpoint`.
    SpawnBackend { executable: String, endpoint: BackendEndpoint },
    /// Start relaying the backend's output, and start polling `endpoint` with
    /// `gate`. Neither is waited for: startup is complete.
    StartBackgroundTasks { gate: HealthGate, endpoint: BackendEndpoint },
    /// Give up on startup and show the diagnostic.
    Abort { diagnostic: String },
    /// Write the record to its log. Nothing else changes.
    Log(LogRecord),
    /// The event has no place in the sequence. It is passed over.
    Nothing,
}

impl View for StartupAction {
    type V = ActionModel;

    open spec fn view(&self) -> ActionModel {
        match self {
            StartupAction::SpawnBackend { executable, endpoint } => ActionModel::SpawnBackend {
                executable: executable@,
                endpoint: endpoint@,
            },
            StartupAction::StartBackgroundTasks { gate, endpoint } => {
                ActionModel::StartBackgroundTasks { gate: gate@, endpoint: endpoint@ }
            },
            StartupAction::Abort { diagnostic } => ActionModel::Abort { diagnostic: diagnostic@ },
            StartupAction::Log(record) => ActionModel::Log(record@),
            StartupAction::Nothing => ActionModel::Nothing,
        }
    }
}

/// The state of the startup sequence.
pub struct StartupModel {
    pub phase: StartupPhase,
    pub policy: PortPolicy,
    pub max_attempts: nat,
    pub interval_ms: u32,
    pub registry: Option<EndpointModel>,
    pub readiness: Option<GateOutcome>,
}

/// The logical name of the bundled backend executable.
pub open spec fn backend_executable() -> Seq<char> {
    "daily-notes-backend"@
}

/// The whole seconds a gate's budget spans.
pub open spec fn budget_seconds(max_attempts: nat, interval_ms: u32) -> nat {
    (max_attempts * interval_ms / 1000) as nat
}

/// The record written when the readiness gate has ended. Running out of
/// attempts is a warning, no error: the application goes on.
pub open spec fn readiness_record(
    outcome: GateOutcome,
    max_attempts: nat,
    interval_ms: u32,
) -> RecordModel {
    match outcome {
        GateOutcome::Ready => RecordModel { sink: LogSink::Info, text: "Backend is ready!"@ },
        GateOutcome::TimedOut => RecordModel {
            sink: LogSink::Warning,
            text: "Backend failed to start after "@ + decimal(
                budget_seconds(max_attempts, interval_ms),
            ) + " seconds"@,
        },
    }
}

impl StartupModel {
    /// The state before launch.
    pub open spec fn initial(policy: PortPolicy, max_attempts: nat, interval_ms: u32) -> StartupModel {
        StartupModel {
            phase: StartupPhase::Idle,
            policy,
            max_attempts,
            interval_ms,
            registry: None,
            readiness: None,
        }
    }

    /// States the sequence can be in: an endpoint is published from launch
    /// on and not before, and readiness is known only while the
    /// backend runs.
    pub open spec fn well_formed(self) -> bool {
        &&& self.phase != StartupPhase::Idle <==> self.registry is Some
        &&& self.readiness is Some ==> self.phase == StartupPhase::Running
    }

    /// The endpoint the policy yields: the loopback host and the policy's port.
    pub open spec fn planned_endpoint(self) -> EndpointModel {
        EndpointModel { host: loopback_host(), port: self.policy.port() }
    }

    /// The state after `event`, and the action it calls for.
    pub open spec fn step(self, event: StartupEvent) -> (StartupModel, ActionModel) {
        match (self.phase, event) {
            (StartupPhase::Idle, StartupEvent::Launch) => {
                let registry = after_publish(self.registry, self.planned_endpoint());
                (
                    StartupModel { phase: StartupPhase::Spawning, registry, ..self },
                    ActionModel::SpawnBackend {
                        executable: backend_executable(),
                        endpoint: registry->0,
                    },
                )
            },
            (StartupPhase::Spawning, StartupEvent::SpawnSucceeded) => (
                StartupModel { phase: StartupPhase::Running, ..self },
                ActionModel::StartBackgroundTasks {
                    gate: GateModel::fresh(self.max_attempts, self.interval_ms),
                    endpoint: self.registry->0,
                },
            ),
            (StartupPhase::Spawning, StartupEvent::SpawnFailed(error)) => (
                StartupModel { phase: StartupPhase::Aborted, ..self },
                ActionModel::Abort { diagnostic: diagnostic_text(error) },
            ),
            (StartupPhase::Running, StartupEvent::HealthResolved(outcome)) => {
                if self.readiness is None {
                    (
                        StartupModel { readiness: Some(outcome), ..self },
                        ActionModel::Log(
                            readiness_record(outcome, self.max_attempts, self.interval_ms),
                        ),
                    )
                } else {
                    (self, ActionModel::Nothing)
                }
            },
            _ => (self, ActionModel::Nothing),
        }
    }

    /// The state after the events in `events`, taken in order.
    pub open spec fn run(self, events: Seq<StartupEvent>) -> StartupModel
        decreases events.len(),
    {
        if events.len() == 0 {
            self
        } else {
            self.step(events[0]).0.run(events.drop_first())
        }
    }
}

/// Every event leaves the sequence in a well-formed state.
pub proof fn law_step_keeps_well_formed(state: StartupModel, event: StartupEvent)
    requires
        state.well_formed(),
    ensures
        state.step(event).0.well_formed(),
{
}

/// Once an endpoint is published, no course of events changes it: the port
/// is fixed before the backend is spawned and is never renumbered, whether
/// the spawn succeeds and however the readiness gate ends.
pub proof fn law_endpoint_is_written_once(state: StartupModel, events: Seq<StartupEvent>)
    requires
        state.registry is Some,
    ensures
        state.run(events).registry == state.registry,
    decreases events.len(),
{
    if events.len() > 0 {
        law_endpoint_is_written_once(state.step(events[0]).0, events.drop_first());
    }
}

/// From launch on, whatever is reported afterwards, a query is answered with
/// the URL of the loopback host and the policy's port.
pub proof fn law_url_known_from_launch(
    policy: PortPolicy,
    max_attempts: nat,
    interval_ms: u32,
    later: Seq<StartupEvent>,
)
    ensures
        ({
            let start = StartupModel::initial(policy, max_attempts, interval_ms);
            let launched = start.step(StartupEvent::Launch).0;
            url_answer(launched.run(later).registry) == Ok::<Seq<char>, RegistryError>(
                base_url_text(start.planned_endpoint()),
            )
        }),
{
    let start = StartupModel::initial(policy, max_attempts, interval_ms);
    law_endpoint_is_written_once(start.step(StartupEvent::Launch).0, later);
}

/// Startup is aborted by a failed spawn and by nothing else. In particular a
/// readiness gate that runs out of attempts leaves the application running.
pub proof fn law_only_spawn_failure_aborts(state: StartupModel, event: StartupEvent)
    ensures
        state.step(event).0.phase == StartupPhase::Aborted ==> state.phase == StartupPhase::Aborted
            || (state.phase == StartupPhase::Spawning && event is SpawnFailed),
        state.phase == StartupPhase::Running ==> state.step(event).0.phase == StartupPhase::Running,
{
}

/// The record written when the readiness gate has ended.
pub fn readiness_log(outcome: GateOutcome, max_attempts: u32, interval_ms: u32) -> (record:
    LogRecord)
    ensures
        record@ == readiness_record(outcome, max_attempts as nat, interval_ms),
{
    match outcome {
        GateOutcome::Ready => LogRecord {
            sink: LogSink::Info,
            text: String::from_str("Backend is ready!"),
        },
        GateOutcome::TimedOut => {
            assert(max_attempts * interval_ms <= u64::MAX) by (nonlinear_arith)
                requires
                    max_attempts <= u32::MAX,
                    interval_ms <= u32::MAX,
            ;
            let seconds: u64 = (max_attempts as u64) * (interval_ms as u64) / 1000;
            let text = String::from_str("Backend failed to start after ").concat(
                u64_to_decimal(seconds).as_str(),
            ).concat(" seconds");
            LogRecord { sink: LogSink::Warning, text }
        },
    }
}

/// The startup sequence of one application run.
#[derive(Debug)]
pub struct StartupOrchestrator {
    phase: StartupPhase,
    policy: PortPolicy,
    max_attempts: u32,
    interval_ms: u32,
    registry: EndpointRegistry,
    readiness: Option<GateOutcome>,
}

impl View for StartupOrchestrator {
    type V = StartupModel;

    closed spec fn view(&self) -> StartupModel {
        StartupModel {
            phase: self.phase,
            policy: self.policy,
            max_attempts: self.max_attempts as nat,
            interval_ms: self.interval_ms,
            registry: self.registry@,
            readiness: self.readiness,
        }
    }
}

impl StartupOrchestrator {
    #[verifier::type_invariant]
    closed spec fn in_sequence(self) -> bool {
        self@.well_formed()
    }

    /// An orchestrator before launch, with the given port policy and the
    /// given budget and pace for the readiness gate.
    pub fn new(policy: PortPolicy, max_attempts: u32, interval_ms: u32) -> (orchestrator:
        StartupOrchestrator)
        ensures
            orchestrator@ == StartupModel::initial(policy, max_attempts as nat, interval_ms),
    {
        StartupOrchestrator {
            phase: StartupPhase::Idle,
            policy,
            max_attempts,
            interval_ms,
            registry: EndpointRegistry::new(),
            readiness: None,
        }
    }

    /// An orchestrator before launch under the standard policies: port 8000,
    /// 30 readiness attempts, one second apart.
    pub fn standard() -> (orchestrator: StartupOrchestrator)
        ensures
            orchestrator@ == StartupModel::initial(PortPolicy::Fixed(8000), 30, 1000),
    {
        let gate = HealthGate::standard();
        StartupOrchestrator::new(PortPolicy::standard(), gate.max_attempts(), gate.interval_ms())
    }

    /// How far startup has come.
    pub fn phase(&self) -> (phase: StartupPhase)
        ensures
            phase == self@.phase,
            self@.well_formed(),
    {
        proof {
            use_type_invariant(self);
        }
        self.phase
    }

    /// How the readiness gate ended, once that has been reported.
    pub fn readiness(&self) -> (readiness: Option<GateOutcome>)
        ensures
            readiness == self@.readiness,
    {
        self.readiness
    }

    /// The registry that holds the published endpoint.
    pub fn registry(&self) -> (registry: &EndpointRegistry)
        ensures
            registry@ == self@.registry,
    {
        &self.registry
    }

    /// The backend's URL, `http://<host>:<port>`, from launch on; before
    /// launch, `NotPublished`. The answer does not wait for the backend to be
    /// ready.
    pub fn get_backend_url(&self) -> (answer: Result<String, RegistryError>)
        ensures
            answer_matches(answer, url_answer(self@.registry)),
    {
        self.registry.get_backend_url()
    }

    /// Takes the next event and returns the action it calls for.
    pub fn step(&mut self, event: StartupEvent) -> (action: StartupAction)
        ensures
            final(self)@ == old(self)@.step(event).0,
            action@ == old(self)@.step(event).1,
    {
        proof {
            use_type_invariant(&*self);
        }
        match (self.phase, event) {
            (StartupPhase::Idle, StartupEvent::Launch) => {
                let planned = BackendEndpoint::loopback(self.policy.allocate());
                let endpoint = planned.duplicate();
                let mut registry = EndpointRegistry::new();
                let _ = registry.publish(planned);
                *self = StartupOrchestrator {
                    phase: StartupPhase::Spawning,
                    policy: self.policy,
                    max_attempts: self.max_attempts,
                    interval_ms: self.interval_ms,
                    registry,
                    readiness: self.readiness,
                };
                StartupAction::SpawnBackend {
                    executable: String::from_str("daily-notes-backend"),
                    endpoint,
                }
            },
            (StartupPhase::Spawning, StartupEvent::SpawnSucceeded) => {
                self.phase = StartupPhase::Running;
                match self.registry.query() {
                    Some(endpoint) => StartupAction::StartBackgroundTasks {
                        gate: HealthGate::new(self.max_attempts, self.interval_ms),
                        endpoint: endpoint.duplicate(),
                    },
                    None => unreached(),
                }
            },
            (StartupPhase::Spawning, StartupEvent::SpawnFailed(error)) => {
                self.phase = StartupPhase::Aborted;
                StartupAction::Abort { diagnostic: error.diagnostic() }
            },
            (StartupPhase::Running, StartupEvent::HealthResolved(outcome)) => {
                if self.readiness.is_none() {
                    self.readiness = Some(outcome);
                    StartupAction::Log(readiness_log(outcome, self.max_attempts, self.interval_ms))
                } else {
                    StartupAction::Nothing
                }
            },
            _ => StartupAction::Nothing,
        }
    }
}

} // verus!
