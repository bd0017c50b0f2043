//! Readiness gating: classifying liveness probes and deciding, probe by
//! probe, whether the backend is ready or the attempt budget is spent.
//!
//! A gate performs no waiting and no network traffic itself. Its caller
//! asks it what to do next, does that, and reports what the probe found.

use vstd::prelude::*;

verus! {

/// What one liveness probe found.
#[derive(Clone, Copy, Debug, PartialEq, Eq, Structural)]
pub enum ProbeOutcome {
    /// The backend answered with this HTTP status code.
    Status(u16),
    /// No answer arrived: connection refused, timeout, name not resolved.
    TransportFailure,
}

/// How a readiness gate ends.
#[derive(Clone, Copy, Debug, PartialEq, Eq, Structural)]
pub enum GateOutcome {
    /// A probe was classified healthy.
    Ready,
    /// Every attempt of the budget was classified unhealthy.
    TimedOut,
}

/// What a gate asks of its caller.
#[derive(Clone, Copy, Debug, PartialEq, Eq, Structural)]
pub enum GateAction {
    /// Wait this many milliseconds, issue one probe, and report what it found.
    Probe { delay_ms: u32 },
    /// Stop: polling has ended with this outcome.
    Resolve(GateOutcome),
}

/// Attempts allowed unless configured otherwise.
pub const DEFAULT_MAX_ATTEMPTS: u32 = 30;

/// Milliseconds before each attempt unless configured otherwise.
pub const DEFAULT_INTERVAL_MS: u32 = 1000;

/// An HTTP status code in the success class, 200 to 299.
pub open spec fn status_is_success(code: u16) -> bool {
    200 <= code <= 299
}

/// A probe is healthy when the backend answered with a success status or with
/// 404, which shows that it accepts and routes requests. Everything else is
/// unhealthy, a missing answer included.
pub open spec fn probe_is_healthy(outcome: ProbeOutcome) -> bool {
    match outcome {
        ProbeOutcome::Status(code) => status_is_success(code) || code == 404,
        ProbeOutcome::TransportFailure => false,
    }
}

/// Classifies what a probe found.
pub fn classify_probe(outcome: ProbeOutcome) -> (healthy: bool)
    ensures
        healthy == probe_is_healthy(outcome),
{
    match outcome {
        ProbeOutcome::Status(code) => (200 <= code && code <= 299) || code == 404,
        ProbeOutcome::TransportFailure => false,
    }
}

/// The state of a gate: its budget, its pace, the probes reported so far, and
/// whether one of them was healthy.
pub struct GateModel {
    pub max_attempts: nat,
    pub interval_ms: u32,
    pub attempts: nat,
    pub ready: bool,
}

impl GateModel {
    /// A gate to which nothing has been reported.
    pub open spec fn fresh(max_attempts: nat, interval_ms: u32) -> GateModel {
        GateModel { max_attempts, interval_ms, attempts: 0, ready: false }
    }

    /// States a gate can be in: never more reports than the budget, and a
    /// ready gate has had at least one.
    pub open spec fn well_formed(self) -> bool {
        &&& self.attempts <= self.max_attempts
        &&& self.ready ==> self.attempts >= 1
    }

    /// How polling has ended, if it has.
    pub open spec fn outcome(self) -> Option<GateOutcome> {
        if self.ready {
            Some(GateOutcome::Ready)
        } else if self.attempts >= self.max_attempts {
            Some(GateOutcome::TimedOut)
        } else {
            None
        }
    }

    /// What the caller is to do in this state.
    pub open spec fn next_action(self) -> GateAction {
        match self.outcome() {
            Some(outcome) => GateAction::Resolve(outcome),
            None => GateAction::Probe { delay_ms: self.interval_ms },
        }
    }

    /// The state after a probe with the given classification is reported. A
    /// gate that has ended takes no further report.
    pub open spec fn record(self, healthy: bool) -> GateModel {
        if self.outcome() is Some {
            self
        } else {
            GateModel { attempts: self.attempts + 1, ready: healthy, ..self }
        }
    }

    /// The state after the classifications in `probes` are reported in order.
    pub open spec fn run(self, probes: Seq<bool>) -> GateModel
        decreases probes.len(),
    {
        if probes.len() == 0 {
            self
        } else {
            self.record(probes[0]).run(probes.drop_first())
        }
    }
}

/// No probe among the first `upto` was classified healthy.
pub open spec fn all_unhealthy(probes: Seq<bool>, upto: int) -> bool {
    forall|i: int| 0 <= i < upto && i < probes.len() ==> !probes[i]
}

/// Dropping the first classification shifts the rest down by one.
proof fn lemma_all_unhealthy_step(probes: Seq<bool>, upto: int)
    requires
        probes.len() >= 1,
        upto >= 1,
    ensures
        all_unhealthy(probes, upto) <==> !probes[0] && all_unhealthy(probes.drop_first(), upto - 1),
{
    let rest = probes.drop_first();
    if all_unhealthy(probes, upto) {
        assert forall|i: int| 0 <= i < upto - 1 && i < rest.len() implies !rest[i] by {
            assert(rest[i] == probes[i + 1]);
        }
    }
    if !probes[0] && all_unhealthy(rest, upto - 1) {
        assert forall|i: int| 0 <= i < upto && i < probes.len() implies !probes[i] by {
            if i > 0 {
                assert(probes[i] == rest[i - 1]);
            }
        }
    }
}

/// A gate that has ended stays as it is, whatever is reported to it.
pub proof fn lemma_ended_gate_stays(gate: GateModel, probes: Seq<bool>)
    requires
        gate.outcome() is Some,
    ensures
        gate.run(probes) == gate,
    decreases probes.len(),
{
    if probes.len() > 0 {
        lemma_ended_gate_stays(gate, probes.drop_first());
    }
}

/// Reports never take a gate out of its well-formed states, never change its
/// budget or pace, and never lower its count of probes.
pub proof fn lemma_run_keeps_well_formed(gate: GateModel, probes: Seq<bool>)
    requires
        gate.well_formed(),
    ensures
        gate.run(probes).well_formed(),
        gate.run(probes).max_attempts == gate.max_attempts,
        gate.run(probes).interval_ms == gate.interval_ms,
        gate.attempts <= gate.run(probes).attempts <= gate.attempts + probes.len(),
        !gate.ready && gate.run(probes).ready ==> gate.run(probes).attempts > gate.attempts,
    decreases probes.len(),
{
    if probes.len() > 0 {
        lemma_run_keeps_well_formed(gate.record(probes[0]), probes.drop_first());
        if gate.record(probes[0]).ready && !gate.ready {
            lemma_ended_gate_stays(gate.record(probes[0]), probes.drop_first());
        }
    }
}

proof fn lemma_ready_from(gate: GateModel, probes: Seq<bool>, n: int)
    requires
        gate.well_formed(),
        !gate.ready,
        1 <= n <= probes.len(),
    ensures
        (gate.run(probes).ready && gate.run(probes).attempts == gate.attempts + n) <==> (
        gate.attempts + n <= gate.max_attempts && all_unhealthy(probes, n - 1) && probes[n - 1]),
    decreases probes.len(),
{
    let rest = probes.drop_first();
    if gate.attempts >= gate.max_attempts {
        lemma_ended_gate_stays(gate, probes);
    } else {
        let next = gate.record(probes[0]);
        if probes[0] {
            lemma_ended_gate_stays(next, rest);
            if n > 1 {
                assert(!all_unhealthy(probes, n - 1));
            }
        } else if n == 1 {
            lemma_run_keeps_well_formed(next, rest);
        } else {
            lemma_ready_from(next, rest, n - 1);
            lemma_all_unhealthy_step(probes, n - 1);
            assert(rest[n - 2] == probes[n - 1]);
        }
    }
}

proof fn lemma_timed_out_from(gate: GateModel, probes: Seq<bool>)
    requires
        gate.well_formed(),
        !gate.ready,
        probes.len() >= gate.max_attempts - gate.attempts,
    ensures
        gate.run(probes).outcome() == Some(GateOutcome::TimedOut) <==> all_unhealthy(
            probes,
            gate.max_attempts - gate.attempts,
        ),
        gate.run(probes).outcome() is Some,
    decreases probes.len(),
{
    let rest = probes.drop_first();
    if gate.attempts >= gate.max_attempts {
        lemma_ended_gate_stays(gate, probes);
    } else {
        let next = gate.record(probes[0]);
        lemma_all_unhealthy_step(probes, gate.max_attempts - gate.attempts);
        if probes[0] {
            lemma_ended_gate_stays(next, rest);
        } else {
            lemma_timed_out_from(next, rest);
        }
    }
}

/// A gate started afresh ends ready with its `n`-th probe exactly when that
/// probe is within the budget and is the first one classified healthy. What
/// is reported after it does not count: no further probe is taken.
pub proof fn law_ready_on_first_healthy(
    max_attempts: nat,
    interval_ms: u32,
    probes: Seq<bool>,
    n: int,
)
    requires
        1 <= n <= probes.len(),
    ensures
        ({
            let end = GateModel::fresh(max_attempts, interval_ms).run(probes);
            end.outcome() == Some(GateOutcome::Ready) && end.attempts == n
        }) <==> (n <= max_attempts && all_unhealthy(probes, n - 1) && probes[n - 1]),
{
    lemma_ready_from(GateModel::fresh(max_attempts, interval_ms), probes, n);
}

/// A gate started afresh that is given at least as many classifications as
/// its budget allows has ended. It ends timed out exactly when each of the
/// first `max_attempts` probes was unhealthy, and it has then taken exactly
/// `max_attempts` probes. In no case does a gate take more than its budget.
pub proof fn law_timed_out_after_budget(max_attempts: nat, interval_ms: u32, probes: Seq<bool>)
    requires
        probes.len() >= max_attempts,
    ensures
        ({
            let end = GateModel::fresh(max_attempts, interval_ms).run(probes);
            &&& end.outcome() is Some
            &&& end.outcome() == Some(GateOutcome::TimedOut) <==> all_unhealthy(
                probes,
                max_attempts as int,
            )
            &&& end.outcome() == Some(GateOutcome::TimedOut) ==> end.attempts == max_attempts
            &&& end.attempts <= max_attempts
        }),
{
    lemma_timed_out_from(GateModel::fresh(max_attempts, interval_ms), probes);
    lemma_run_keeps_well_formed(GateModel::fresh(max_attempts, interval_ms), probes);
}

/// While the budget lasts and every probe so far was unhealthy, polling has
/// not ended and the next probe is asked for.
pub proof fn law_pending_within_budget(max_attempts: nat, interval_ms: u32, probes: Seq<bool>)
    requires
        probes.len() < max_attempts,
        all_unhealthy(probes, probes.len() as int),
    ensures
        ({
            let now = GateModel::fresh(max_attempts, interval_ms).run(probes);
            &&& now.outcome() is None
            &&& now.attempts == probes.len()
        }),
{
    lemma_pending_from(GateModel::fresh(max_attempts, interval_ms), probes);
}

proof fn lemma_pending_from(gate: GateModel, probes: Seq<bool>)
    requires
        gate.well_formed(),
        !gate.ready,
        gate.attempts + probes.len() < gate.max_attempts,
        all_unhealthy(probes, probes.len() as int),
    ensures
        gate.run(probes).outcome() is None,
        gate.run(probes).attempts == gate.attempts + probes.len(),
    decreases probes.len(),
{
    if probes.len() > 0 {
        lemma_all_unhealthy_step(probes, probes.len() as int);
        lemma_pending_from(gate.record(probes[0]), probes.drop_first());
    }
}

/// A bounded polling gate. It allows `max_attempts` probes, one after each
/// interval, and ends with the first healthy one or when the budget is spent.
#[derive(Clone, Copy, Debug, PartialEq, Eq)]
pub struct HealthGate {
    max_attempts: u32,
    interval_ms: u32,
    attempts: u32,
    ready: bool,
}

impl View for HealthGate {
    type V = GateModel;

    closed spec fn view(&self) -> GateModel {
        GateModel {
            max_attempts: self.max_attempts as nat,
            interval_ms: self.interval_ms,
            attempts: self.attempts as nat,
            ready: self.ready,
        }
    }
}

impl HealthGate {
    #[verifier::type_invariant]
    closed spec fn within_budget(self) -> bool {
        self@.well_formed()
    }

    /// A gate with the given budget and pace, to which nothing has been
    /// reported.
    pub fn new(max_attempts: u32, interval_ms: u32) -> (gate: HealthGate)
        ensures
            gate@ == GateModel::fresh(max_attempts as nat, interval_ms),
    {
        HealthGate { max_attempts, interval_ms, attempts: 0, ready: false }
    }

    /// A gate of the standard policy: 30 attempts, one second apart.
    pub fn standard() -> (gate: HealthGate)
        ensures
            gate@ == GateModel::fresh(30, 1000),
    {
        HealthGate::new(DEFAULT_MAX_ATTEMPTS, DEFAULT_INTERVAL_MS)
    }

    /// The number of attempts allowed.
    pub fn max_attempts(&self) -> (n: u32)
        ensures
            n == self@.max_attempts,
    {
        self.max_attempts
    }

    /// The milliseconds to wait before each attempt.
    pub fn interval_ms(&self) -> (ms: u32)
        ensures
            ms == self@.interval_ms,
    {
        self.interval_ms
    }

    /// The number of probes reported so far.
    pub fn attempts(&self) -> (n: u32)
        ensures
            n == self@.attempts,
            self@.well_formed(),
    {
        proof {
            use_type_invariant(self);
        }
        self.attempts
    }

    /// How polling has ended, if it has.
    pub fn outcome(&self) -> (outcome: Option<GateOutcome>)
        ensures
            outcome == self@.outcome(),
    {
        if self.ready {
            Some(GateOutcome::Ready)
        } else if self.attempts >= self.max_attempts {
            Some(GateOutcome::TimedOut)
        } else {
            None
        }
    }

    /// What the caller is to do now: wait and probe, or stop.
    pub fn next_action(&self) -> (action: GateAction)
        ensures
            action == self@.next_action(),
    {
        match self.outcome() {
            Some(outcome) => GateAction::Resolve(outcome),
            None => GateAction::Probe { delay_ms: self.interval_ms },
        }
    }

    /// Reports what the probe just issued found, and says what to do next.
    /// A report to a gate that has ended changes nothing.
    pub fn record_probe(&mut self, found: ProbeOutcome) -> (action: GateAction)
        ensures
            final(self)@ == old(self)@.record(probe_is_healthy(found)),
            action == final(self)@.next_action(),
    {
        proof {
            use_type_invariant(&*self);
        }
        if self.outcome().is_none() {
            let healthy = classify_probe(found);
            self.attempts = self.attempts + 1;
            self.ready = healthy;
        }
        self.next_action()
    }
}

} // verus!
