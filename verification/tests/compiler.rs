use containment::compiler::compile_definition;
use containment::compiler::CompilationTask;
use containment::compiler::CompilerEngine;
use containment::compiler::EngineCommand;
use containment::compiler::EngineEvent;
use containment::compiler::EnginePhase;
use containment::compiler::JobOutcome;
use containment::compiler::FIRST_ENGINE_VERSION;
use containment::scheduler::CompiledConstraintBlock;
use containment::scheduler::ConstraintError;
use containment::scheduler::DynamicConstraintScheduler;

fn compile_task(set_id: u64, definition: &str, policies: &str) -> EngineEvent {
    EngineEvent::TaskReceived(CompilationTask::CompileDefinition {
        set_id,
        noir_bytecode_or_acvm_ir: String::from(definition),
        gax_policies: String::from(policies),
    })
}

/// Plays the part of the service for one task: runs the job that the engine
/// orders and reports its end. Gives back what the engine publishes.
fn run_one_task(
    engine: &mut CompilerEngine,
    task: EngineEvent,
) -> (u64, Result<CompiledConstraintBlock, ConstraintError>) {
    let outcome = match engine.step(task) {
        Some(EngineCommand::RunJob { set_id: _, definition, policies, version }) => {
            JobOutcome::Finished(compile_definition(&definition, &policies, version))
        }
        Some(EngineCommand::Publish { set_id, result }) => return (set_id, result),
        _ => panic!("the engine did not take the task"),
    };
    match engine.step(EngineEvent::JobFinished(outcome)) {
        Some(EngineCommand::Publish { set_id, result }) => (set_id, result),
        _ => panic!("the engine did not publish"),
    }
}

#[test]
fn job_compiles_a_definition() {
    let block = compile_definition("bytecode", "policies", 5).unwrap();
    assert_eq!(block.compilation_version, 5);
    assert!(block.gax_ii_boundary_checks.is_empty());
    assert!(block.gax_iii_input_integrity.is_empty());
}

#[test]
fn job_does_not_look_at_the_policies() {
    assert_eq!(compile_definition("bytecode", "", 5).unwrap().compilation_version, 5);
}

#[test]
fn job_fails_on_an_empty_definition() {
    match compile_definition("", "policies", 5) {
        Err(ConstraintError::CompilationFailed(text)) => {
            assert_eq!(text, "Input definition missing or invalid.");
        }
        other => panic!("expected a compilation failure, got {:?}", other),
    }
}

#[test]
fn engine_starts_between_jobs() {
    let engine = CompilerEngine::new();
    assert_eq!(engine.phase(), EnginePhase::AwaitingTask);
    assert_eq!(FIRST_ENGINE_VERSION, 2);
}

#[test]
fn compiled_set_is_injected_and_activated() {
    let mut scheduler = DynamicConstraintScheduler::initialize(1).unwrap();
    assert_eq!(scheduler.active_constraints().compilation_version, 1);

    let mut engine = CompilerEngine::new();
    let (set_id, result) = run_one_task(&mut engine, compile_task(2, "definition", "policies"));
    assert_eq!(set_id, 2);
    let block = result.unwrap();
    assert_eq!(block.compilation_version, 2);
    assert!(matches!(
        engine.step(EngineEvent::ResultDelivered),
        Some(EngineCommand::ReceiveTask)
    ));

    scheduler.inject_compiled_set(2, block);
    scheduler.switch_active_set(2).unwrap();
    assert_eq!(scheduler.active_constraints().compilation_version, 2);

    // Set 1 is still in the cache.
    scheduler.switch_active_set(1).unwrap();
    assert_eq!(scheduler.active_constraints().compilation_version, 1);
}

#[test]
fn empty_definition_fails_and_the_engine_goes_on() {
    let mut engine = CompilerEngine::new();

    let (set_id, result) = run_one_task(&mut engine, compile_task(3, "", "policies"));
    assert_eq!(set_id, 3);
    assert!(matches!(result, Err(ConstraintError::CompilationFailed(_))));
    assert_eq!(engine.phase(), EnginePhase::Publishing { set_id: 3 });
    assert!(matches!(
        engine.step(EngineEvent::ResultDelivered),
        Some(EngineCommand::ReceiveTask)
    ));
    assert_eq!(engine.phase(), EnginePhase::AwaitingTask);

    let (set_id, result) = run_one_task(&mut engine, compile_task(4, "definition", "policies"));
    assert_eq!(set_id, 4);
    assert!(result.is_ok());
    assert!(matches!(
        engine.step(EngineEvent::ResultDelivered),
        Some(EngineCommand::ReceiveTask)
    ));
    assert_eq!(engine.phase(), EnginePhase::AwaitingTask);
}

#[test]
fn job_carries_the_texts_of_the_task() {
    let mut engine = CompilerEngine::new();
    match engine.step(compile_task(11, "the definition", "the policies")) {
        Some(EngineCommand::RunJob { set_id, definition, policies, version }) => {
            assert_eq!(set_id, 11);
            assert_eq!(definition, "the definition");
            assert_eq!(policies, "the policies");
            assert_eq!(version, 2);
        }
        _ => panic!("expected a job"),
    }
    assert_eq!(engine.phase(), EnginePhase::Compiling { set_id: 11 });
}

#[test]
fn versions_go_up_from_job_to_job() {
    let mut engine = CompilerEngine::new();
    let mut last = 0;
    for round in 0..20u64 {
        let set_id = round % 3;
        let definition = if round % 4 == 0 { "" } else { "definition" };
        match engine.step(compile_task(set_id, definition, "p")) {
            Some(EngineCommand::RunJob { version, .. }) => {
                assert_eq!(version, 2 + round);
                assert!(version > last);
                last = version;
            }
            _ => panic!("expected a job"),
        }
        let outcome = JobOutcome::Finished(compile_definition(definition, "p", last));
        assert!(matches!(
            engine.step(EngineEvent::JobFinished(outcome)),
            Some(EngineCommand::Publish { .. })
        ));
        assert!(matches!(
            engine.step(EngineEvent::ResultDelivered),
            Some(EngineCommand::ReceiveTask)
        ));
    }
}

#[test]
fn last_version_is_given_out_once() {
    let mut engine = CompilerEngine::starting_at(u64::MAX);
    let (_, result) = run_one_task(&mut engine, compile_task(1, "definition", "p"));
    assert_eq!(result.unwrap().compilation_version, u64::MAX);
    assert!(engine.step(EngineEvent::ResultDelivered).is_some());

    match engine.step(compile_task(1, "definition", "p")) {
        Some(EngineCommand::Publish { set_id, result }) => {
            assert_eq!(set_id, 1);
            match result {
                Err(ConstraintError::CompilationFailed(text)) => {
                    assert_eq!(text, "Compilation versions are exhausted.");
                }
                other => panic!("expected a compilation failure, got {:?}", other),
            }
        }
        _ => panic!("expected a result without a job"),
    }
    assert_eq!(engine.phase(), EnginePhase::Publishing { set_id: 1 });
    assert!(matches!(
        engine.step(EngineEvent::ResultDelivered),
        Some(EngineCommand::ReceiveTask)
    ));
}

#[test]
fn broken_job_is_published_as_a_dependency_failure() {
    let mut engine = CompilerEngine::new();
    assert!(engine.step(compile_task(6, "definition", "p")).is_some());
    let outcome = JobOutcome::Panicked(String::from("task 7 panicked"));
    match engine.step(EngineEvent::JobFinished(outcome)) {
        Some(EngineCommand::Publish { set_id, result }) => {
            assert_eq!(set_id, 6);
            match result {
                Err(ConstraintError::ExternalDependencyFailure(text)) => {
                    assert_eq!(text, "Compiler thread panicked: task 7 panicked");
                }
                other => panic!("expected a dependency failure, got {:?}", other),
            }
        }
        _ => panic!("expected a result"),
    }
    assert!(matches!(
        engine.step(EngineEvent::ResultDelivered),
        Some(EngineCommand::ReceiveTask)
    ));
}

#[test]
fn job_result_is_published_as_it_is() {
    let mut engine = CompilerEngine::new();
    assert!(engine.step(compile_task(6, "definition", "p")).is_some());
    let outcome = JobOutcome::Finished(Err(ConstraintError::SchedulerIntegrityFailure(
        String::from("as given"),
    )));
    match engine.step(EngineEvent::JobFinished(outcome)) {
        Some(EngineCommand::Publish {
            set_id: 6,
            result: Err(ConstraintError::SchedulerIntegrityFailure(text)),
        }) => assert_eq!(text, "as given"),
        _ => panic!("expected the job's own result"),
    }
}

#[test]
fn shutdown_stops_the_engine_between_jobs() {
    let mut engine = CompilerEngine::new();
    assert!(matches!(
        engine.step(EngineEvent::TaskReceived(CompilationTask::Shutdown)),
        Some(EngineCommand::Stop)
    ));
    assert_eq!(engine.phase(), EnginePhase::Stopped);
}

#[test]
fn closed_queue_stops_the_engine() {
    let mut engine = CompilerEngine::new();
    assert!(matches!(engine.step(EngineEvent::QueueClosed), Some(EngineCommand::Stop)));
    assert_eq!(engine.phase(), EnginePhase::Stopped);
}

#[test]
fn dropped_receiver_stops_the_engine() {
    let mut engine = CompilerEngine::new();
    let _ = run_one_task(&mut engine, compile_task(1, "definition", "p"));
    assert!(matches!(engine.step(EngineEvent::ReceiverDropped), Some(EngineCommand::Stop)));
    assert_eq!(engine.phase(), EnginePhase::Stopped);
}

#[test]
fn stopped_engine_takes_nothing() {
    let mut engine = CompilerEngine::new();
    let _ = engine.step(EngineEvent::QueueClosed);
    assert!(engine.step(compile_task(1, "definition", "p")).is_none());
    assert!(engine.step(EngineEvent::ResultDelivered).is_none());
    assert!(engine.step(EngineEvent::TaskReceived(CompilationTask::Shutdown)).is_none());
    assert_eq!(engine.phase(), EnginePhase::Stopped);
}

#[test]
fn engine_events_out_of_turn_change_nothing() {
    let mut engine = CompilerEngine::new();
    assert!(engine.step(EngineEvent::ResultDelivered).is_none());
    assert!(engine.step(EngineEvent::ReceiverDropped).is_none());
    let outcome = JobOutcome::Finished(compile_definition("d", "p", 1));
    assert!(engine.step(EngineEvent::JobFinished(outcome)).is_none());
    assert_eq!(engine.phase(), EnginePhase::AwaitingTask);

    assert!(engine.step(compile_task(1, "definition", "p")).is_some());
    // Shutdown is taken between jobs only.
    assert!(engine.step(EngineEvent::TaskReceived(CompilationTask::Shutdown)).is_none());
    assert!(engine.step(EngineEvent::QueueClosed).is_none());
    assert_eq!(engine.phase(), EnginePhase::Compiling { set_id: 1 });
}
