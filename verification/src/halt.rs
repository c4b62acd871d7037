//! The halt orchestrator: the decisions of the shutdown sequence
//! `Idle -> Isolating -> SanitizingAndCollecting -> Completed | Failed | TimedOut`.
//!
//! Isolation runs alone and must be confirmed before anything else starts.
//! Sanitization and forensics then run side by side, and the sequence waits
//! for both. The whole sequence races against the policy's total timeout.
//!
//! Running the agent's operations, measuring time and waiting are the
//! caller's part. The orchestrator is a state machine: the caller reports
//! what happened, and gets back what to log and what to do next.

use crate::text::append_decimal;
use crate::text::debug_quote;
use crate::text::debug_quoted;
use crate::text::decimal_string;
use crate::text::decimal_text;
use vstd::prelude::*;

verus! {

/// Why the halt sequence failed.
#[derive(Debug)]
pub enum HaltError {
    /// The isolation mandate failed.
    IsolationFailed(String),
    /// The forensics package could not be collected.
    ForensicsFailed(String),
    /// Memory could not be sanitized.
    SanitizationFailed(String),
    /// The sequence did not end within the total timeout, in milliseconds.
    Timeout(u64),
}

/// What a `HaltError` holds.
pub enum HaltFailure {
    IsolationFailed(Seq<char>),
    ForensicsFailed(Seq<char>),
    SanitizationFailed(Seq<char>),
    Timeout(u64),
}

impl View for HaltError {
    type V = HaltFailure;

    open spec fn view(&self) -> HaltFailure {
        match self {
            HaltError::IsolationFailed(text) => HaltFailure::IsolationFailed(text@),
            HaltError::ForensicsFailed(text) => HaltFailure::ForensicsFailed(text@),
            HaltError::SanitizationFailed(text) => HaltFailure::SanitizationFailed(text@),
            HaltError::Timeout(ms) => HaltFailure::Timeout(*ms),
        }
    }
}

/// The text of a failure, as shown to an operator.
pub open spec fn halt_failure_text(e: HaltFailure) -> Seq<char> {
    match e {
        HaltFailure::IsolationFailed(text) => "Isolation phase failed: "@ + text,
        HaltFailure::ForensicsFailed(text) => "Forensics collection failed: "@ + text,
        HaltFailure::SanitizationFailed(text) => "Memory sanitization failed: "@ + text,
        HaltFailure::Timeout(ms) => "The overall halt sequence timed out after "@ + decimal_text(
            ms as nat,
        ) + "ms."@,
    }
}

/// The form of a failure in a log line: the name of its kind, and in
/// brackets its text in quotes or its number.
pub open spec fn halt_failure_debug_text(e: HaltFailure) -> Seq<char> {
    match e {
        HaltFailure::IsolationFailed(text) => bracketed_text(
            "IsolationFailed"@,
            debug_quoted(text),
        ),
        HaltFailure::ForensicsFailed(text) => bracketed_text(
            "ForensicsFailed"@,
            debug_quoted(text),
        ),
        HaltFailure::SanitizationFailed(text) => bracketed_text(
            "SanitizationFailed"@,
            debug_quoted(text),
        ),
        HaltFailure::Timeout(ms) => bracketed_text("Timeout"@, decimal_text(ms as nat)),
    }
}

/// `kind`, then `inner` in round brackets.
pub open spec fn bracketed_text(kind: Seq<char>, inner: Seq<char>) -> Seq<char> {
    kind + "("@ + inner + ")"@
}

/// `kind`, then `inner` in round brackets.
pub fn bracketed(kind: &str, inner: &str) -> (text: String)
    ensures
        text@ == bracketed_text(kind@, inner@),
{
    let mut text = String::from_str(kind);
    text.append("(");
    text.append(inner);
    text.append(")");
    text
}

impl HaltError {
    /// The text of this error.
    pub fn message(&self) -> (text: String)
        ensures
            text@ == halt_failure_text(self@),
    {
        match self {
            HaltError::IsolationFailed(detail) => {
                let mut text = String::from_str("Isolation phase failed: ");
                text.append(detail.as_str());
                text
            },
            HaltError::ForensicsFailed(detail) => {
                let mut text = String::from_str("Forensics collection failed: ");
                text.append(detail.as_str());
                text
            },
            HaltError::SanitizationFailed(detail) => {
                let mut text = String::from_str("Memory sanitization failed: ");
                text.append(detail.as_str());
                text
            },
            HaltError::Timeout(ms) => {
                let mut text = String::from_str("The overall halt sequence timed out after ");
                append_decimal(&mut text, *ms as u128);
                text.append("ms.");
                text
            },
        }
    }

    /// The form of this error in a log line.
    pub fn debug_text(&self) -> (text: String)
        ensures
            text@ == halt_failure_debug_text(self@),
    {
        match self {
            HaltError::IsolationFailed(detail) => {
                let quoted = debug_quote(detail.as_str());
                bracketed("IsolationFailed", quoted.as_str())
            },
            HaltError::ForensicsFailed(detail) => {
                let quoted = debug_quote(detail.as_str());
                bracketed("ForensicsFailed", quoted.as_str())
            },
            HaltError::SanitizationFailed(detail) => {
                let quoted = debug_quote(detail.as_str());
                bracketed("SanitizationFailed", quoted.as_str())
            },
            HaltError::Timeout(ms) => {
                let number = decimal_string(*ms as u128);
                bracketed("Timeout", number.as_str())
            },
        }
    }
}

/// The timing terms of a halt policy, in milliseconds.
#[derive(Debug, Clone, Copy)]
pub struct HaltContextConfig {
    /// How long isolation may take before the breach is recorded.
    pub isolation_sla_ms: u64,
    /// How long the whole sequence may take before it is given up.
    pub total_timeout_ms: u64,
}

/// The configuration of one run of the halt sequence.
#[derive(Debug)]
pub struct FSMUHaltPolicy {
    pub policy_id: String,
    pub halt_context: HaltContextConfig,
}

/// What a halt policy holds.
pub struct HaltPolicyView {
    pub policy_id: Seq<char>,
    pub isolation_sla_ms: u64,
    pub total_timeout_ms: u64,
}

impl View for FSMUHaltPolicy {
    type V = HaltPolicyView;

    open spec fn view(&self) -> HaltPolicyView {
        HaltPolicyView {
            policy_id: self.policy_id@,
            isolation_sla_ms: self.halt_context.isolation_sla_ms,
            total_timeout_ms: self.halt_context.total_timeout_ms,
        }
    }
}

/// Logging and telemetry, supplied by the host. Logging is a side
/// channel: nothing is promised of it and nothing depends on it.
pub trait SystemLogger: Send + Sync {
    /// Records that `component` took `duration_ms` and broke its target.
    fn record_violation(&self, policy_id: &str, component: &str, duration_ms: u128);

    /// Logs a line of information.
    fn log_info(&self, message: &str);
}

/// Something for the logger.
#[derive(Debug)]
pub enum HaltLogEntry {
    /// A line of information.
    Info(String),
    /// A breach of a timing target.
    Violation { policy_id: String, component: String, duration_ms: u128 },
}

/// What a `HaltLogEntry` holds.
pub enum HaltLogView {
    Info(Seq<char>),
    Violation { policy_id: Seq<char>, component: Seq<char>, duration_ms: u128 },
}

impl View for HaltLogEntry {
    type V = HaltLogView;

    open spec fn view(&self) -> HaltLogView {
        match self {
            HaltLogEntry::Info(text) => HaltLogView::Info(text@),
            HaltLogEntry::Violation { policy_id, component, duration_ms } => {
                HaltLogView::Violation {
                    policy_id: policy_id@,
                    component: component@,
                    duration_ms: *duration_ms,
                }
            },
        }
    }
}

/// Hands an entry to the logger: a violation to `record_violation`, a line
/// to `log_info`.
pub fn emit<L: SystemLogger>(logger: &L, entry: &HaltLogEntry) {
    match entry {
        HaltLogEntry::Info(text) => logger.log_info(text.as_str()),
        HaltLogEntry::Violation { policy_id, component, duration_ms } => {
            logger.record_violation(policy_id.as_str(), component.as_str(), *duration_ms)
        },
    }
}

/// Where the sequence stands.
#[derive(Debug, Clone, Copy, PartialEq, Eq, Structural)]
pub enum HaltPhase {
    /// Not started.
    Idle,
    /// The isolation mandate is running.
    Isolating,
    /// Sanitization and forensics are running side by side.
    SanitizingAndCollecting,
    /// Every phase succeeded.
    Completed,
    /// A phase failed.
    Failed,
    /// The total timeout ran out first.
    TimedOut,
}

/// Something that happened to the sequence. Times are milliseconds since
/// the sequence started.
#[derive(Debug)]
pub enum HaltEvent {
    /// The caller starts the sequence.
    Start,
    /// The isolation mandate ended.
    IsolationFinished { outcome: Result<(), HaltError>, elapsed_ms: u128 },
    /// Memory sanitization ended.
    SanitizationFinished { outcome: Result<(), HaltError>, elapsed_ms: u128 },
    /// The collection of the forensics package ended.
    ForensicsFinished { outcome: Result<(), HaltError>, elapsed_ms: u128 },
    /// The total timeout ran out.
    DeadlineExpired,
}

/// What the outcome of an operation holds.
pub open spec fn outcome_view(outcome: Result<(), HaltError>) -> Result<(), HaltFailure> {
    match outcome {
        Ok(_) => Ok(()),
        Err(e) => Err(e@),
    }
}

/// What the outcome of an operation holds, if it is there yet.
pub open spec fn pending_view(outcome: Option<Result<(), HaltError>>) -> Option<
    Result<(), HaltFailure>,
> {
    match outcome {
        Some(o) => Some(outcome_view(o)),
        None => None,
    }
}

/// What a `HaltEvent` holds.
pub enum HaltEventView {
    Start,
    IsolationFinished { outcome: Result<(), HaltFailure>, elapsed_ms: u128 },
    SanitizationFinished { outcome: Result<(), HaltFailure>, elapsed_ms: u128 },
    ForensicsFinished { outcome: Result<(), HaltFailure>, elapsed_ms: u128 },
    DeadlineExpired,
}

impl View for HaltEvent {
    type V = HaltEventView;

    open spec fn view(&self) -> HaltEventView {
        match self {
            HaltEvent::Start => HaltEventView::Start,
            HaltEvent::IsolationFinished { outcome, elapsed_ms } => {
                HaltEventView::IsolationFinished {
                    outcome: outcome_view(*outcome),
                    elapsed_ms: *elapsed_ms,
                }
            },
            HaltEvent::SanitizationFinished { outcome, elapsed_ms } => {
                HaltEventView::SanitizationFinished {
                    outcome: outcome_view(*outcome),
                    elapsed_ms: *elapsed_ms,
                }
            },
            HaltEvent::ForensicsFinished { outcome, elapsed_ms } => {
                HaltEventView::ForensicsFinished {
                    outcome: outcome_view(*outcome),
                    elapsed_ms: *elapsed_ms,
                }
            },
            HaltEvent::DeadlineExpired => HaltEventView::DeadlineExpired,
        }
    }
}

/// What the caller is to do next.
#[derive(Debug)]
pub enum HaltCommand {
    /// Run the isolation mandate and report how it ended.
    Isolate,
    /// Start sanitization and forensics side by side and report each end.
    SanitizeAndCollect,
    /// Nothing new: go on waiting for what is still running.
    Continue,
    /// The sequence has ended with this result.
    Finish(Result<(), HaltError>),
}

/// What a `HaltCommand` holds.
pub enum HaltCommandView {
    Isolate,
    SanitizeAndCollect,
    Continue,
    Finish(Result<(), HaltFailure>),
}

impl View for HaltCommand {
    type V = HaltCommandView;

    open spec fn view(&self) -> HaltCommandView {
        match self {
            HaltCommand::Isolate => HaltCommandView::Isolate,
            HaltCommand::SanitizeAndCollect => HaltCommandView::SanitizeAndCollect,
            HaltCommand::Continue => HaltCommandView::Continue,
            HaltCommand::Finish(result) => HaltCommandView::Finish(outcome_view(*result)),
        }
    }
}

/// The answer to an event: at most one entry for the logger, and what to do
/// next.
#[derive(Debug)]
pub struct HaltStep {
    pub log: Option<HaltLogEntry>,
    pub command: HaltCommand,
}

/// What an optional log entry holds.
pub open spec fn log_view(log: Option<HaltLogEntry>) -> Option<HaltLogView> {
    match log {
        Some(entry) => Some(entry@),
        None => None,
    }
}

/// The state of the sequence: its phase, and the outcomes of sanitization
/// and forensics as far as they have been reported.
pub struct HaltState {
    pub phase: HaltPhase,
    pub sanitization: Option<Result<(), HaltFailure>>,
    pub forensics: Option<Result<(), HaltFailure>>,
}

/// The state, the log entry and the command that follow an event.
pub struct HaltTransition {
    pub state: HaltState,
    pub log: Option<HaltLogView>,
    pub command: HaltCommandView,
}

/// The state before the sequence starts.
pub open spec fn halt_idle() -> HaltState {
    HaltState { phase: HaltPhase::Idle, sanitization: None, forensics: None }
}

/// The sequence is under way: an operation of the agent is running.
pub open spec fn in_flight(phase: HaltPhase) -> bool {
    phase == HaltPhase::Isolating || phase == HaltPhase::SanitizingAndCollecting
}

/// The failure that is reported when the isolation mandate fails with `e`:
/// always of the kind `IsolationFailed`. A failure of that kind is reported
/// as it is; one of another kind is reported by its text.
pub open spec fn isolation_failure(e: HaltFailure) -> HaltFailure {
    match e {
        HaltFailure::IsolationFailed(_) => e,
        _ => HaltFailure::IsolationFailed(halt_failure_text(e)),
    }
}

/// The result of the sequence once both operations of the second phase have
/// ended. Sanitization is looked at first.
pub open spec fn joined_result(
    sanitization: Result<(), HaltFailure>,
    forensics: Result<(), HaltFailure>,
) -> Result<(), HaltFailure> {
    match sanitization {
        Err(e) => Err(HaltFailure::SanitizationFailed(halt_failure_text(e))),
        Ok(_) => match forensics {
            Err(e) => Err(HaltFailure::ForensicsFailed(halt_failure_text(e))),
            Ok(_) => Ok(()),
        },
    }
}

/// The line that is logged when the sequence starts.
pub open spec fn started_text(total_timeout_ms: u64) -> Seq<char> {
    "Starting halt sequence (Total Timeout: "@ + decimal_text(total_timeout_ms as nat) + "ms)"@
}

/// The line that is logged when the isolation mandate fails.
pub open spec fn isolation_failed_text(e: HaltFailure) -> Seq<char> {
    "Isolation mandate failed: "@ + halt_failure_debug_text(e)
}

/// The line that is logged when isolation ends within its target.
pub open spec fn isolation_complete_text(duration_ms: u128, sla_ms: u64) -> Seq<char> {
    "Isolation complete in "@ + decimal_text(duration_ms as nat) + "ms (SLA: "@ + decimal_text(
        sla_ms as nat,
    ) + "ms)"@
}

/// The line that is logged when the sequence succeeds.
pub open spec fn completed_text(duration_ms: u128) -> Seq<char> {
    "Halt sequence successfully completed in total duration: "@ + decimal_text(
        duration_ms as nat,
    ) + "ms."@
}

/// The line that is logged when the total timeout runs out.
pub open spec fn timed_out_text() -> Seq<char> {
    "Halt sequence exceeded total system timeout."@
}

/// What follows once an operation of the second phase has been noted in
/// `state`: the end of the sequence if both have ended, else more waiting.
pub open spec fn halt_join(state: HaltState, elapsed_ms: u128) -> HaltTransition {
    match (state.sanitization, state.forensics) {
        (Some(sanitization), Some(forensics)) => {
            let result = joined_result(sanitization, forensics);
            if result is Ok {
                HaltTransition {
                    state: HaltState { phase: HaltPhase::Completed, ..state },
                    log: Some(HaltLogView::Info(completed_text(elapsed_ms))),
                    command: HaltCommandView::Finish(result),
                }
            } else {
                HaltTransition {
                    state: HaltState { phase: HaltPhase::Failed, ..state },
                    log: None,
                    command: HaltCommandView::Finish(result),
                }
            }
        },
        _ => HaltTransition { state, log: None, command: HaltCommandView::Continue },
    }
}

/// The orchestrator's transition. An event that the current phase does not
/// wait for changes nothing: no log entry, and `Continue`.
pub open spec fn halt_step(policy: HaltPolicyView, state: HaltState, event: HaltEventView)
    -> HaltTransition {
    let ignored = HaltTransition { state, log: None, command: HaltCommandView::Continue };
    match event {
        HaltEventView::Start => if state.phase == HaltPhase::Idle {
            HaltTransition {
                state: HaltState { phase: HaltPhase::Isolating, ..state },
                log: Some(HaltLogView::Info(started_text(policy.total_timeout_ms))),
                command: HaltCommandView::Isolate,
            }
        } else {
            ignored
        },
        HaltEventView::IsolationFinished { outcome, elapsed_ms } => if state.phase
            == HaltPhase::Isolating {
            match outcome {
                Err(e) => HaltTransition {
                    state: HaltState { phase: HaltPhase::Failed, ..state },
                    log: Some(HaltLogView::Info(isolation_failed_text(e))),
                    command: HaltCommandView::Finish(Err(isolation_failure(e))),
                },
                Ok(_) => HaltTransition {
                    state: HaltState { phase: HaltPhase::SanitizingAndCollecting, ..state },
                    log: Some(
                        if elapsed_ms > policy.isolation_sla_ms {
                            HaltLogView::Violation {
                                policy_id: policy.policy_id,
                                component: "Isolation"@,
                                duration_ms: elapsed_ms,
                            }
                        } else {
                            HaltLogView::Info(
                                isolation_complete_text(elapsed_ms, policy.isolation_sla_ms),
                            )
                        },
                    ),
                    command: HaltCommandView::SanitizeAndCollect,
                },
            }
        } else {
            ignored
        },
        HaltEventView::SanitizationFinished { outcome, elapsed_ms } => if state.phase
            == HaltPhase::SanitizingAndCollecting && state.sanitization is None {
            halt_join(HaltState { sanitization: Some(outcome), ..state }, elapsed_ms)
        } else {
            ignored
        },
        HaltEventView::ForensicsFinished { outcome, elapsed_ms } => if state.phase
            == HaltPhase::SanitizingAndCollecting && state.forensics is None {
            halt_join(HaltState { forensics: Some(outcome), ..state }, elapsed_ms)
        } else {
            ignored
        },
        HaltEventView::DeadlineExpired => if in_flight(state.phase) {
            HaltTransition {
                state: HaltState { phase: HaltPhase::TimedOut, ..state },
                log: Some(HaltLogView::Info(timed_out_text())),
                command: HaltCommandView::Finish(
                    Err(HaltFailure::Timeout(policy.total_timeout_ms)),
                ),
            }
        } else {
            ignored
        },
    }
}

/// The sequence has ended.
pub open spec fn is_terminal(phase: HaltPhase) -> bool {
    phase == HaltPhase::Completed || phase == HaltPhase::Failed || phase == HaltPhase::TimedOut
}

/// How many violations a transition hands to the logger: one or none.
pub open spec fn violations_logged(transition: HaltTransition) -> nat {
    if transition.log matches Some(HaltLogView::Violation { .. }) {
        1
    } else {
        0
    }
}

/// The end of sanitization, as an event.
pub open spec fn sanitization_finished(outcome: Result<(), HaltFailure>, elapsed_ms: u128)
    -> HaltEventView {
    HaltEventView::SanitizationFinished { outcome, elapsed_ms }
}

/// The end of forensics, as an event.
pub open spec fn forensics_finished(outcome: Result<(), HaltFailure>, elapsed_ms: u128)
    -> HaltEventView {
    HaltEventView::ForensicsFinished { outcome, elapsed_ms }
}

/// An isolation that overruns its target is advisory. Take a sequence in
/// which isolation succeeds late and both later operations succeed, in
/// either order of their ends: over the whole sequence exactly one violation
/// goes to the logger, the one for isolation with its duration, and the
/// sequence ends in success.
pub proof fn law_sla_breach_is_recorded_once(
    policy: HaltPolicyView,
    isolation_ms: u128,
    first_ms: u128,
    second_ms: u128,
    sanitization_first: bool,
)
    requires
        isolation_ms > policy.isolation_sla_ms,
    ensures
        ({
            let started = halt_step(policy, halt_idle(), HaltEventView::Start);
            let isolated = halt_step(
                policy,
                started.state,
                HaltEventView::IsolationFinished { outcome: Ok(()), elapsed_ms: isolation_ms },
            );
            let first = if sanitization_first {
                sanitization_finished(Ok(()), first_ms)
            } else {
                forensics_finished(Ok(()), first_ms)
            };
            let second = if sanitization_first {
                forensics_finished(Ok(()), second_ms)
            } else {
                sanitization_finished(Ok(()), second_ms)
            };
            let waiting = halt_step(policy, isolated.state, first);
            let ended = halt_step(policy, waiting.state, second);
            &&& violations_logged(started) + violations_logged(isolated) + violations_logged(
                waiting,
            ) + violations_logged(ended) == 1
            &&& isolated.log == Some(
                HaltLogView::Violation {
                    policy_id: policy.policy_id,
                    component: "Isolation"@,
                    duration_ms: isolation_ms,
                },
            )
            &&& ended.command == HaltCommandView::Finish(Ok(()))
            &&& ended.state.phase == HaltPhase::Completed
        }),
{
}

/// The second phase waits for both operations. From the start of the second
/// phase, whatever the two outcomes and whichever ends first: the first end
/// alone ends nothing, even if it is a failure; the second end gives the
/// result, which names sanitization if sanitization failed, else forensics
/// if forensics failed, else success.
pub proof fn law_second_phase_waits_for_both(
    policy: HaltPolicyView,
    state: HaltState,
    sanitization: Result<(), HaltFailure>,
    forensics: Result<(), HaltFailure>,
    first_ms: u128,
    second_ms: u128,
    sanitization_first: bool,
)
    requires
        state.phase == HaltPhase::SanitizingAndCollecting,
        state.sanitization is None,
        state.forensics is None,
    ensures
        ({
            let first = if sanitization_first {
                sanitization_finished(sanitization, first_ms)
            } else {
                forensics_finished(forensics, first_ms)
            };
            let second = if sanitization_first {
                forensics_finished(forensics, second_ms)
            } else {
                sanitization_finished(sanitization, second_ms)
            };
            let waiting = halt_step(policy, state, first);
            let ended = halt_step(policy, waiting.state, second);
            &&& waiting.command == HaltCommandView::Continue
            &&& waiting.state.phase == HaltPhase::SanitizingAndCollecting
            &&& ended.command == HaltCommandView::Finish(joined_result(sanitization, forensics))
            &&& is_terminal(ended.state.phase)
            &&& sanitization matches Err(e) ==> ended.command == HaltCommandView::Finish(
                Err(HaltFailure::SanitizationFailed(halt_failure_text(e))),
            )
            &&& sanitization is Ok ==> (forensics matches Err(e) ==> ended.command
                == HaltCommandView::Finish(
                Err(HaltFailure::ForensicsFailed(halt_failure_text(e))),
            ))
        }),
{
}

/// The total timeout wins over everything that is under way. In any state
/// of a sequence that has started and not ended, whatever outcomes have been
/// reported, the expiry of the deadline ends the sequence with
/// `Timeout(total_timeout_ms)`.
pub proof fn law_deadline_ends_the_sequence(policy: HaltPolicyView, state: HaltState)
    requires
        in_flight(state.phase),
    ensures
        halt_step(policy, state, HaltEventView::DeadlineExpired).command
            == HaltCommandView::Finish(Err(HaltFailure::Timeout(policy.total_timeout_ms))),
        halt_step(policy, state, HaltEventView::DeadlineExpired).state.phase
            == HaltPhase::TimedOut,
{
}

/// A sequence that has ended stays as it ended: every later event is
/// answered with `Continue` and changes nothing.
pub proof fn law_terminal_phases_are_final(
    policy: HaltPolicyView,
    state: HaltState,
    event: HaltEventView,
)
    requires
        is_terminal(state.phase),
    ensures
        halt_step(policy, state, event) == (HaltTransition {
            state,
            log: None,
            command: HaltCommandView::Continue,
        }),
{
}

/// Sanitization and forensics start only after isolation is confirmed: the
/// command to start them is the answer to a successful end of isolation and
/// to nothing else.
pub proof fn law_isolation_comes_first(
    policy: HaltPolicyView,
    state: HaltState,
    event: HaltEventView,
)
    requires
        halt_step(policy, state, event).command == HaltCommandView::SanitizeAndCollect,
    ensures
        state.phase == HaltPhase::Isolating,
        event matches HaltEventView::IsolationFinished { outcome: Ok(_), .. },
{
}

/// Runs the halt sequence of one policy, one event at a time.
pub struct FSMUHaltOrchestrator<'a> {
    policy: &'a FSMUHaltPolicy,
    phase: HaltPhase,
    sanitization: Option<Result<(), HaltError>>,
    forensics: Option<Result<(), HaltError>>,
}

impl<'a> View for FSMUHaltOrchestrator<'a> {
    type V = HaltState;

    closed spec fn view(&self) -> HaltState {
        HaltState {
            phase: self.phase,
            sanitization: pending_view(self.sanitization),
            forensics: pending_view(self.forensics),
        }
    }
}

impl<'a> FSMUHaltOrchestrator<'a> {
    /// The policy that this orchestrator runs.
    pub closed spec fn policy(&self) -> FSMUHaltPolicy {
        *self.policy
    }

    /// An orchestrator for `policy`, not yet started.
    pub fn new(policy: &'a FSMUHaltPolicy) -> (orchestrator: Self)
        ensures
            orchestrator@ == halt_idle(),
            orchestrator.policy() == *policy,
    {
        FSMUHaltOrchestrator { policy, phase: HaltPhase::Idle, sanitization: None, forensics: None }
    }

    /// Where the sequence stands.
    pub fn phase(&self) -> (phase: HaltPhase)
        ensures
            phase == self@.phase,
    {
        self.phase
    }

    fn ignore() -> (step: HaltStep)
        ensures
            step.log is None,
            step.command@ == HaltCommandView::Continue,
    {
        HaltStep { log: None, command: HaltCommand::Continue }
    }

    fn join(&mut self, elapsed_ms: u128) -> (step: HaltStep)
        ensures
            final(self).policy() == old(self).policy(),
            final(self)@ == halt_join(old(self)@, elapsed_ms).state,
            log_view(step.log) == halt_join(old(self)@, elapsed_ms).log,
            step.command@ == halt_join(old(self)@, elapsed_ms).command,
    {
        let result: Result<(), HaltError> = match (&self.sanitization, &self.forensics) {
            (Some(sanitization), Some(forensics)) => match sanitization {
                Err(e) => Err(HaltError::SanitizationFailed(e.message())),
                Ok(_) => match forensics {
                    Err(e) => Err(HaltError::ForensicsFailed(e.message())),
                    Ok(_) => Ok(()),
                },
            },
            _ => {
                return Self::ignore();
            },
        };
        match result {
            Ok(_) => {
                self.phase = HaltPhase::Completed;
                let mut text = String::from_str(
                    "Halt sequence successfully completed in total duration: ",
                );
                append_decimal(&mut text, elapsed_ms);
                text.append("ms.");
                HaltStep { log: Some(HaltLogEntry::Info(text)), command: HaltCommand::Finish(Ok(())) }
            },
            Err(e) => {
                self.phase = HaltPhase::Failed;
                HaltStep { log: None, command: HaltCommand::Finish(Err(e)) }
            },
        }
    }

    /// Takes note of `event`, and says what to log and what to do next.
    pub fn step(&mut self, event: HaltEvent) -> (step: HaltStep)
        ensures
            final(self).policy() == old(self).policy(),
            final(self)@ == halt_step(old(self).policy()@, old(self)@, event@).state,
            log_view(step.log) == halt_step(old(self).policy()@, old(self)@, event@).log,
            step.command@ == halt_step(old(self).policy()@, old(self)@, event@).command,
    {
        match event {
            HaltEvent::Start => {
                if self.phase != HaltPhase::Idle {
                    return Self::ignore();
                }
                self.phase = HaltPhase::Isolating;
                let mut text = String::from_str("Starting halt sequence (Total Timeout: ");
                append_decimal(&mut text, self.policy.halt_context.total_timeout_ms as u128);
                text.append("ms)");
                HaltStep { log: Some(HaltLogEntry::Info(text)), command: HaltCommand::Isolate }
            },
            HaltEvent::IsolationFinished { outcome, elapsed_ms } => {
                if self.phase != HaltPhase::Isolating {
                    return Self::ignore();
                }
                match outcome {
                    Err(e) => {
                        self.phase = HaltPhase::Failed;
                        let mut text = String::from_str("Isolation mandate failed: ");
                        let detail = e.debug_text();
                        text.append(detail.as_str());
                        let reported = match e {
                            HaltError::IsolationFailed(detail) => HaltError::IsolationFailed(
                                detail,
                            ),
                            other => HaltError::IsolationFailed(other.message()),
                        };
                        HaltStep {
                            log: Some(HaltLogEntry::Info(text)),
                            command: HaltCommand::Finish(Err(reported)),
                        }
                    },
                    Ok(_) => {
                        self.phase = HaltPhase::SanitizingAndCollecting;
                        let sla_ms: u64 = self.policy.halt_context.isolation_sla_ms;
                        let entry = if elapsed_ms > sla_ms as u128 {
                            HaltLogEntry::Violation {
                                policy_id: self.policy.policy_id.clone(),
                                component: String::from_str("Isolation"),
                                duration_ms: elapsed_ms,
                            }
                        } else {
                            let mut text = String::from_str("Isolation complete in ");
                            append_decimal(&mut text, elapsed_ms);
                            text.append("ms (SLA: ");
                            append_decimal(&mut text, sla_ms as u128);
                            text.append("ms)");
                            HaltLogEntry::Info(text)
                        };
                        HaltStep { log: Some(entry), command: HaltCommand::SanitizeAndCollect }
                    },
                }
            },
            HaltEvent::SanitizationFinished { outcome, elapsed_ms } => {
                if self.phase != HaltPhase::SanitizingAndCollecting || self.sanitization.is_some() {
                    return Self::ignore();
                }
                self.sanitization = Some(outcome);
                self.join(elapsed_ms)
            },
            HaltEvent::ForensicsFinished { outcome, elapsed_ms } => {
                if self.phase != HaltPhase::SanitizingAndCollecting || self.forensics.is_some() {
                    return Self::ignore();
                }
                self.forensics = Some(outcome);
                self.join(elapsed_ms)
            },
            HaltEvent::DeadlineExpired => {
                if self.phase != HaltPhase::Isolating && self.phase
                    != HaltPhase::SanitizingAndCollecting {
                    return Self::ignore();
                }
                self.phase = HaltPhase::TimedOut;
                HaltStep {
                    log: Some(
                        HaltLogEntry::Info(
                            String::from_str("Halt sequence exceeded total system timeout."),
                        ),
                    ),
                    command: HaltCommand::Finish(
                        Err(HaltError::Timeout(self.policy.halt_context.total_timeout_ms)),
                    ),
                }
            },
        }
    }
}

} // verus!
