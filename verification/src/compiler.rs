//! The compiler engine: the decisions of the background service that turns
//! compile requests into compiled blocks.
//!
//! The service reads tasks from a bounded queue, runs each compile job away
//! from the queue, and publishes `(set, result)` on a result channel. All of
//! that is waiting and sending; what to do next is decided here. The engine
//! is a state machine: the service tells it what happened, and it answers
//! with the one thing to do next.
//!
//! Every job gets a compilation version from a counter that only goes up, so
//! that of two results for one set the later one carries the higher version.

use crate::scheduler::CompiledConstraintBlock;
use crate::scheduler::ConstraintError;
use crate::scheduler::ConstraintFailure;
use crate::scheduler::ConstraintSetId;
use crate::scheduler::INITIAL_COMPILATION_VERSION;
use vstd::prelude::*;

verus! {

/// The version that the engine gives to its first job: the one after the
/// version of the block that the scheduler compiles at start-up.
pub const FIRST_ENGINE_VERSION: u64 = INITIAL_COMPILATION_VERSION + 1;

/// A message on the task queue.
#[derive(Debug)]
pub enum CompilationTask {
    /// Compile a constraint set definition.
    CompileDefinition { set_id: ConstraintSetId, noir_bytecode_or_acvm_ir: String, gax_policies: String },
    /// Stop the service.
    Shutdown,
}

/// What a `CompilationTask` holds.
pub enum CompilationTaskView {
    CompileDefinition { set_id: ConstraintSetId, definition: Seq<char>, policies: Seq<char> },
    Shutdown,
}

impl View for CompilationTask {
    type V = CompilationTaskView;

    open spec fn view(&self) -> CompilationTaskView {
        match self {
            CompilationTask::CompileDefinition { set_id, noir_bytecode_or_acvm_ir, gax_policies } => {
                CompilationTaskView::CompileDefinition {
                    set_id: *set_id,
                    definition: noir_bytecode_or_acvm_ir@,
                    policies: gax_policies@,
                }
            },
            CompilationTask::Shutdown => CompilationTaskView::Shutdown,
        }
    }
}

/// A compile request in the form that the daemon's queue carries.
#[derive(Debug)]
pub struct CompilerCommand {
    pub set_id: ConstraintSetId,
    pub acvm_def: String,
    pub gax_policies: String,
    /// The processor level to optimise for.
    pub optimization_target: u8,
}

/// What a compile result holds.
pub open spec fn result_view(r: Result<CompiledConstraintBlock, ConstraintError>) -> Result<
    CompiledConstraintBlock,
    ConstraintFailure,
> {
    match r {
        Ok(block) => Ok(block),
        Err(e) => Err(e@),
    }
}

/// The compile job of the engine. A job fails on an empty definition and on
/// nothing else; the policy text travels with the job and does not decide.
pub fn compile_definition(noir_bytecode_or_acvm_ir: &str, _gax_policies: &str, version: u64) -> (r:
    Result<CompiledConstraintBlock, ConstraintError>)
    ensures
        noir_bytecode_or_acvm_ir@.len() == 0 ==> (r matches Err(e) && e@
            == ConstraintFailure::CompilationFailed("Input definition missing or invalid."@)),
        noir_bytecode_or_acvm_ir@.len() != 0 ==> (r matches Ok(block) && block.is_bare(version)),
{
    if noir_bytecode_or_acvm_ir.is_empty() {
        return Err(
            ConstraintError::CompilationFailed(
                String::from_str("Input definition missing or invalid."),
            ),
        );
    }
    Ok(
        CompiledConstraintBlock {
            compilation_version: version,
            gax_ii_boundary_checks: Vec::new(),
            gax_iii_input_integrity: Vec::new(),
        },
    )
}

/// How a compile job ended.
#[derive(Debug)]
pub enum JobOutcome {
    /// The job ran to its end and gave this result.
    Finished(Result<CompiledConstraintBlock, ConstraintError>),
    /// The context that ran the job broke down; the text says how.
    Panicked(String),
}

/// What a `JobOutcome` holds.
pub enum JobOutcomeView {
    Finished(Result<CompiledConstraintBlock, ConstraintFailure>),
    Panicked(Seq<char>),
}

impl View for JobOutcome {
    type V = JobOutcomeView;

    open spec fn view(&self) -> JobOutcomeView {
        match self {
            JobOutcome::Finished(r) => JobOutcomeView::Finished(result_view(*r)),
            JobOutcome::Panicked(text) => JobOutcomeView::Panicked(text@),
        }
    }
}

/// The result that is published for a job: its own result, or for a job that
/// broke down an `ExternalDependencyFailure` that says so.
pub open spec fn published_result(outcome: JobOutcomeView) -> Result<
    CompiledConstraintBlock,
    ConstraintFailure,
> {
    match outcome {
        JobOutcomeView::Finished(r) => r,
        JobOutcomeView::Panicked(text) => Err(
            ConstraintFailure::ExternalDependencyFailure("Compiler thread panicked: "@ + text),
        ),
    }
}

/// Something that happened to the service.
#[derive(Debug)]
pub enum EngineEvent {
    /// A task came off the queue.
    TaskReceived(CompilationTask),
    /// The queue is closed and empty.
    QueueClosed,
    /// The compile job ended.
    JobFinished(JobOutcome),
    /// The result was handed to the result channel.
    ResultDelivered,
    /// The result channel has no receiver any more.
    ReceiverDropped,
}

/// What an `EngineEvent` holds.
pub enum EngineEventView {
    TaskReceived(CompilationTaskView),
    QueueClosed,
    JobFinished(JobOutcomeView),
    ResultDelivered,
    ReceiverDropped,
}

impl View for EngineEvent {
    type V = EngineEventView;

    open spec fn view(&self) -> EngineEventView {
        match self {
            EngineEvent::TaskReceived(task) => EngineEventView::TaskReceived(task@),
            EngineEvent::QueueClosed => EngineEventView::QueueClosed,
            EngineEvent::JobFinished(outcome) => EngineEventView::JobFinished(outcome@),
            EngineEvent::ResultDelivered => EngineEventView::ResultDelivered,
            EngineEvent::ReceiverDropped => EngineEventView::ReceiverDropped,
        }
    }
}

/// What the service is to do next.
#[derive(Debug)]
pub enum EngineCommand {
    /// Wait for the next task.
    ReceiveTask,
    /// Run the compile job on these texts at this version, away from the
    /// queue, and report how it ended.
    RunJob { set_id: ConstraintSetId, definition: String, policies: String, version: u64 },
    /// Send this result on the result channel and report whether it went.
    Publish { set_id: ConstraintSetId, result: Result<CompiledConstraintBlock, ConstraintError> },
    /// Leave the loop.
    Stop,
}

/// What an `EngineCommand` holds.
pub enum EngineCommandView {
    ReceiveTask,
    RunJob { set_id: ConstraintSetId, definition: Seq<char>, policies: Seq<char>, version: u64 },
    Publish { set_id: ConstraintSetId, result: Result<CompiledConstraintBlock, ConstraintFailure> },
    Stop,
}

impl View for EngineCommand {
    type V = EngineCommandView;

    open spec fn view(&self) -> EngineCommandView {
        match self {
            EngineCommand::ReceiveTask => EngineCommandView::ReceiveTask,
            EngineCommand::RunJob { set_id, definition, policies, version } => {
                EngineCommandView::RunJob {
                    set_id: *set_id,
                    definition: definition@,
                    policies: policies@,
                    version: *version,
                }
            },
            EngineCommand::Publish { set_id, result } => EngineCommandView::Publish {
                set_id: *set_id,
                result: result_view(*result),
            },
            EngineCommand::Stop => EngineCommandView::Stop,
        }
    }
}

/// What an optional command holds.
pub open spec fn command_view(command: Option<EngineCommand>) -> Option<EngineCommandView> {
    match command {
        Some(c) => Some(c@),
        None => None,
    }
}

/// Where the engine stands.
#[derive(Debug, Clone, Copy, PartialEq, Eq, Structural)]
pub enum EnginePhase {
    /// Between jobs: the next thing is a task, or the end of the queue.
    AwaitingTask,
    /// A job for this set is running.
    Compiling { set_id: ConstraintSetId },
    /// The result for this set is on its way to the result channel.
    Publishing { set_id: ConstraintSetId },
    /// The loop has ended. Nothing restarts it.
    Stopped,
}

/// The state of the engine: its phase, and the version that the next job
/// gets. `None` when every version has been given out.
pub struct EngineState {
    pub phase: EnginePhase,
    pub next_version: Option<u64>,
}

/// The version after `version`, if there is one.
pub open spec fn version_after(version: u64) -> Option<u64> {
    if version < u64::MAX {
        Some((version + 1) as u64)
    } else {
        None
    }
}

/// The engine's transition: the state after `event`, and the command that
/// answers it. An event that the current phase does not wait for changes
/// nothing and is answered with no command.
pub open spec fn engine_step(state: EngineState, event: EngineEventView) -> (
    EngineState,
    Option<EngineCommandView>,
) {
    match (state.phase, event) {
        (
            EnginePhase::AwaitingTask,
            EngineEventView::TaskReceived(
                CompilationTaskView::CompileDefinition { set_id, definition, policies },
            ),
        ) => match state.next_version {
            Some(version) => (
                EngineState {
                    phase: EnginePhase::Compiling { set_id },
                    next_version: version_after(version),
                },
                Some(EngineCommandView::RunJob { set_id, definition, policies, version }),
            ),
            None => (
                EngineState { phase: EnginePhase::Publishing { set_id }, next_version: None },
                Some(
                    EngineCommandView::Publish {
                        set_id,
                        result: Err(
                            ConstraintFailure::CompilationFailed(
                                "Compilation versions are exhausted."@,
                            ),
                        ),
                    },
                ),
            ),
        },
        (
            EnginePhase::AwaitingTask,
            EngineEventView::TaskReceived(CompilationTaskView::Shutdown),
        ) => (
            EngineState { phase: EnginePhase::Stopped, next_version: state.next_version },
            Some(EngineCommandView::Stop),
        ),
        (EnginePhase::AwaitingTask, EngineEventView::QueueClosed) => (
            EngineState { phase: EnginePhase::Stopped, next_version: state.next_version },
            Some(EngineCommandView::Stop),
        ),
        (EnginePhase::Compiling { set_id }, EngineEventView::JobFinished(outcome)) => (
            EngineState {
                phase: EnginePhase::Publishing { set_id },
                next_version: state.next_version,
            },
            Some(EngineCommandView::Publish { set_id, result: published_result(outcome) }),
        ),
        (EnginePhase::Publishing { set_id }, EngineEventView::ResultDelivered) => (
            EngineState { phase: EnginePhase::AwaitingTask, next_version: state.next_version },
            Some(EngineCommandView::ReceiveTask),
        ),
        (EnginePhase::Publishing { set_id }, EngineEventView::ReceiverDropped) => (
            EngineState { phase: EnginePhase::Stopped, next_version: state.next_version },
            Some(EngineCommandView::Stop),
        ),
        _ => (state, None),
    }
}

/// The state after a run of events, taken one after the other.
pub open spec fn engine_after(state: EngineState, events: Seq<EngineEventView>) -> EngineState
    decreases events.len(),
{
    if events.len() == 0 {
        state
    } else {
        engine_step(engine_after(state, events.drop_last()), events.last()).0
    }
}

/// The version of the job that `event` starts in `state`, if it starts one.
pub open spec fn dispatched_version(state: EngineState, event: EngineEventView) -> Option<u64> {
    match engine_step(state, event).1 {
        Some(EngineCommandView::RunJob { version, .. }) => Some(version),
        _ => None,
    }
}

spec fn version_floor(state: EngineState) -> int {
    match state.next_version {
        Some(version) => version as int,
        None => u64::MAX + 1,
    }
}

proof fn lemma_floor_after_dispatch(
    state: EngineState,
    events: Seq<EngineEventView>,
    i: int,
    k: int,
)
    requires
        0 <= i < k <= events.len(),
        dispatched_version(engine_after(state, events.take(i)), events[i]) is Some,
    ensures
        version_floor(engine_after(state, events.take(k))) > dispatched_version(
            engine_after(state, events.take(i)),
            events[i],
        )->0,
    decreases k - i,
{
    assert(events.take(k).drop_last() =~= events.take(k - 1));
    assert(events.take(k).last() == events[k - 1]);
    if k > i + 1 {
        lemma_floor_after_dispatch(state, events, i, k - 1);
    }
}

/// Compilation versions only go up. In any run of events from any state, of
/// two jobs that the engine starts the later one has the higher version.
pub proof fn law_versions_increase(
    state: EngineState,
    events: Seq<EngineEventView>,
    earlier: int,
    later: int,
)
    requires
        0 <= earlier < later < events.len(),
        dispatched_version(engine_after(state, events.take(earlier)), events[earlier]) is Some,
        dispatched_version(engine_after(state, events.take(later)), events[later]) is Some,
    ensures
        dispatched_version(engine_after(state, events.take(earlier)), events[earlier])->0
            < dispatched_version(engine_after(state, events.take(later)), events[later])->0,
{
    lemma_floor_after_dispatch(state, events, earlier, later);
}

/// A job that fails does not stop the engine. Whatever the outcome of a
/// job, its result is published, and once that is delivered the engine
/// waits for the next task.
pub proof fn law_failed_job_keeps_the_engine_running(
    state: EngineState,
    set_id: ConstraintSetId,
    outcome: JobOutcomeView,
)
    requires
        state.phase == (EnginePhase::Compiling { set_id }),
    ensures
        ({
            let finished = engine_step(state, EngineEventView::JobFinished(outcome));
            let delivered = engine_step(finished.0, EngineEventView::ResultDelivered);
            &&& finished.1 == Some(
                EngineCommandView::Publish { set_id, result: published_result(outcome) },
            )
            &&& delivered.0.phase == EnginePhase::AwaitingTask
            &&& delivered.1 == Some(EngineCommandView::ReceiveTask)
        }),
{
}

/// One job at a time, and a shutdown only between jobs: while a job runs or
/// its result is on its way, no task is taken, neither a request to compile
/// nor a request to stop.
pub proof fn law_tasks_wait_for_the_job_under_way(state: EngineState, task: CompilationTaskView)
    requires
        state.phase != EnginePhase::AwaitingTask,
    ensures
        engine_step(state, EngineEventView::TaskReceived(task)) == (
            state,
            None::<EngineCommandView>,
        ),
{
}

/// A stopped engine stays stopped: every event is answered with no command
/// and changes nothing.
pub proof fn law_stopped_is_final(state: EngineState, event: EngineEventView)
    requires
        state.phase == EnginePhase::Stopped,
    ensures
        engine_step(state, event) == (state, None::<EngineCommandView>),
{
}

/// The engine of the compiler service.
#[derive(Debug)]
pub struct CompilerEngine {
    phase: EnginePhase,
    next_version: Option<u64>,
}

impl View for CompilerEngine {
    type V = EngineState;

    closed spec fn view(&self) -> EngineState {
        EngineState { phase: self.phase, next_version: self.next_version }
    }
}

impl CompilerEngine {
    /// An engine that waits for its first task.
    pub fn new() -> (engine: Self)
        ensures
            engine@ == (EngineState {
                phase: EnginePhase::AwaitingTask,
                next_version: Some(FIRST_ENGINE_VERSION),
            }),
    {
        Self::starting_at(FIRST_ENGINE_VERSION)
    }

    /// An engine that waits for its first task and gives `first_version` to
    /// its first job: for a service that takes up where an earlier one
    /// stopped.
    pub fn starting_at(first_version: u64) -> (engine: Self)
        ensures
            engine@ == (EngineState {
                phase: EnginePhase::AwaitingTask,
                next_version: Some(first_version),
            }),
    {
        CompilerEngine { phase: EnginePhase::AwaitingTask, next_version: Some(first_version) }
    }

    /// Where the engine stands.
    pub fn phase(&self) -> (phase: EnginePhase)
        ensures
            phase == self@.phase,
    {
        self.phase
    }

    /// Takes note of `event` and says what to do next; `None` where the
    /// event is not one that the current phase waits for.
    pub fn step(&mut self, event: EngineEvent) -> (command: Option<EngineCommand>)
        ensures
            final(self)@ == engine_step(old(self)@, event@).0,
            command_view(command) == engine_step(old(self)@, event@).1,
    {
        match (self.phase, event) {
            (
                EnginePhase::AwaitingTask,
                EngineEvent::TaskReceived(
                    CompilationTask::CompileDefinition {
                        set_id,
                        noir_bytecode_or_acvm_ir,
                        gax_policies,
                    },
                ),
            ) => match self.next_version {
                Some(version) => {
                    self.phase = EnginePhase::Compiling { set_id };
                    self.next_version = if version < u64::MAX {
                        Some(version + 1)
                    } else {
                        None
                    };
                    Some(
                        EngineCommand::RunJob {
                            set_id,
                            definition: noir_bytecode_or_acvm_ir,
                            policies: gax_policies,
                            version,
                        },
                    )
                },
                None => {
                    self.phase = EnginePhase::Publishing { set_id };
                    Some(
                        EngineCommand::Publish {
                            set_id,
                            result: Err(
                                ConstraintError::CompilationFailed(
                                    String::from_str("Compilation versions are exhausted."),
                                ),
                            ),
                        },
                    )
                },
            },
            (EnginePhase::AwaitingTask, EngineEvent::TaskReceived(CompilationTask::Shutdown)) => {
                self.phase = EnginePhase::Stopped;
                Some(EngineCommand::Stop)
            },
            (EnginePhase::AwaitingTask, EngineEvent::QueueClosed) => {
                self.phase = EnginePhase::Stopped;
                Some(EngineCommand::Stop)
            },
            (EnginePhase::Compiling { set_id }, EngineEvent::JobFinished(outcome)) => {
                self.phase = EnginePhase::Publishing { set_id };
                let result = match outcome {
                    JobOutcome::Finished(result) => result,
                    JobOutcome::Panicked(text) => {
                        let mut message = String::from_str("Compiler thread panicked: ");
                        message.append(text.as_str());
                        Err(ConstraintError::ExternalDependencyFailure(message))
                    },
                };
                Some(EngineCommand::Publish { set_id, result })
            },
            (EnginePhase::Publishing { set_id: _ }, EngineEvent::ResultDelivered) => {
                self.phase = EnginePhase::AwaitingTask;
                Some(EngineCommand::ReceiveTask)
            },
            (EnginePhase::Publishing { set_id: _ }, EngineEvent::ReceiverDropped) => {
                self.phase = EnginePhase::Stopped;
                Some(EngineCommand::Stop)
            },
            _ => None,
        }
    }
}

} // verus!
