use containment::halt::bracketed;
use containment::halt::emit;
use containment::halt::FSMUHaltOrchestrator;
use containment::halt::FSMUHaltPolicy;
use containment::halt::HaltCommand;
use containment::halt::HaltContextConfig;
use containment::halt::HaltError;
use containment::halt::HaltEvent;
use containment::halt::HaltLogEntry;
use containment::halt::HaltPhase;
use containment::halt::HaltStep;
use containment::halt::SystemLogger;
use std::sync::Mutex;

fn policy(isolation_sla_ms: u64, total_timeout_ms: u64) -> FSMUHaltPolicy {
    FSMUHaltPolicy {
        policy_id: String::from("POL-7"),
        halt_context: HaltContextConfig { isolation_sla_ms, total_timeout_ms },
    }
}

fn info(step: &HaltStep) -> &str {
    match &step.log {
        Some(HaltLogEntry::Info(text)) => text,
        other => panic!("expected a line of information, got {:?}", other),
    }
}

fn is_violation(step: &HaltStep) -> bool {
    matches!(step.log, Some(HaltLogEntry::Violation { .. }))
}

fn isolated(orchestrator: &mut FSMUHaltOrchestrator, elapsed_ms: u128) -> HaltStep {
    let _ = orchestrator.step(HaltEvent::Start);
    orchestrator.step(HaltEvent::IsolationFinished { outcome: Ok(()), elapsed_ms })
}

#[test]
fn sequence_starts_with_isolation() {
    let policy = policy(100, 2000);
    let mut orchestrator = FSMUHaltOrchestrator::new(&policy);
    assert_eq!(orchestrator.phase(), HaltPhase::Idle);
    let step = orchestrator.step(HaltEvent::Start);
    assert!(matches!(step.command, HaltCommand::Isolate));
    assert_eq!(info(&step), "Starting halt sequence (Total Timeout: 2000ms)");
    assert_eq!(orchestrator.phase(), HaltPhase::Isolating);
}

#[test]
fn isolation_within_its_target_is_logged() {
    let policy = policy(100, 2000);
    let mut orchestrator = FSMUHaltOrchestrator::new(&policy);
    let step = isolated(&mut orchestrator, 100);
    assert!(matches!(step.command, HaltCommand::SanitizeAndCollect));
    assert_eq!(info(&step), "Isolation complete in 100ms (SLA: 100ms)");
    assert_eq!(orchestrator.phase(), HaltPhase::SanitizingAndCollecting);
}

#[test]
fn late_isolation_is_recorded_once_and_the_sequence_succeeds() {
    let policy = policy(100, 2000);
    let mut orchestrator = FSMUHaltOrchestrator::new(&policy);
    let mut violations = 0;

    let started = orchestrator.step(HaltEvent::Start);
    violations += is_violation(&started) as u32;

    let step =
        orchestrator.step(HaltEvent::IsolationFinished { outcome: Ok(()), elapsed_ms: 101 });
    violations += is_violation(&step) as u32;
    match &step.log {
        Some(HaltLogEntry::Violation { policy_id, component, duration_ms }) => {
            assert_eq!(policy_id, "POL-7");
            assert_eq!(component, "Isolation");
            assert_eq!(*duration_ms, 101);
        }
        other => panic!("expected a violation, got {:?}", other),
    }
    assert!(matches!(step.command, HaltCommand::SanitizeAndCollect));

    let step =
        orchestrator.step(HaltEvent::SanitizationFinished { outcome: Ok(()), elapsed_ms: 400 });
    violations += is_violation(&step) as u32;
    assert!(matches!(step.command, HaltCommand::Continue));
    assert!(step.log.is_none());

    let step =
        orchestrator.step(HaltEvent::ForensicsFinished { outcome: Ok(()), elapsed_ms: 700 });
    violations += is_violation(&step) as u32;
    assert!(matches!(step.command, HaltCommand::Finish(Ok(()))));
    assert_eq!(info(&step), "Halt sequence successfully completed in total duration: 700ms.");

    assert_eq!(violations, 1);
    assert_eq!(orchestrator.phase(), HaltPhase::Completed);
}

#[test]
fn failed_isolation_is_fatal() {
    let policy = policy(100, 2000);
    let mut orchestrator = FSMUHaltOrchestrator::new(&policy);
    let _ = orchestrator.step(HaltEvent::Start);
    let step = orchestrator.step(HaltEvent::IsolationFinished {
        outcome: Err(HaltError::IsolationFailed(String::from("link \"eth0\" stuck"))),
        elapsed_ms: 5,
    });
    assert_eq!(info(&step), "Isolation mandate failed: IsolationFailed(\"link \\\"eth0\\\" stuck\")");
    match step.command {
        HaltCommand::Finish(Err(HaltError::IsolationFailed(text))) => {
            assert_eq!(text, "link \"eth0\" stuck");
        }
        other => panic!("expected an isolation failure, got {:?}", other),
    }
    assert_eq!(orchestrator.phase(), HaltPhase::Failed);
}

#[test]
fn failed_isolation_is_reported_as_an_isolation_failure_whatever_its_kind() {
    let policy = policy(100, 2000);
    let mut orchestrator = FSMUHaltOrchestrator::new(&policy);
    let _ = orchestrator.step(HaltEvent::Start);
    let step = orchestrator.step(HaltEvent::IsolationFinished {
        outcome: Err(HaltError::Timeout(30)),
        elapsed_ms: 5,
    });
    assert_eq!(info(&step), "Isolation mandate failed: Timeout(30)");
    match step.command {
        HaltCommand::Finish(Err(HaltError::IsolationFailed(text))) => {
            assert_eq!(text, "The overall halt sequence timed out after 30ms.");
        }
        other => panic!("expected an isolation failure, got {:?}", other),
    }
}

#[test]
fn failed_sanitization_is_reported_after_forensics_has_ended() {
    let policy = policy(100, 2000);
    let mut orchestrator = FSMUHaltOrchestrator::new(&policy);
    let _ = isolated(&mut orchestrator, 10);

    let step = orchestrator.step(HaltEvent::SanitizationFinished {
        outcome: Err(HaltError::SanitizationFailed(String::from("cache busy"))),
        elapsed_ms: 20,
    });
    assert!(matches!(step.command, HaltCommand::Continue));
    assert_eq!(orchestrator.phase(), HaltPhase::SanitizingAndCollecting);

    let step =
        orchestrator.step(HaltEvent::ForensicsFinished { outcome: Ok(()), elapsed_ms: 30 });
    match step.command {
        HaltCommand::Finish(Err(HaltError::SanitizationFailed(text))) => {
            assert_eq!(text, "Memory sanitization failed: cache busy");
        }
        other => panic!("expected a sanitization failure, got {:?}", other),
    }
    assert!(step.log.is_none());
    assert_eq!(orchestrator.phase(), HaltPhase::Failed);
}

#[test]
fn failed_forensics_is_reported_after_sanitization_has_ended() {
    let policy = policy(100, 2000);
    let mut orchestrator = FSMUHaltOrchestrator::new(&policy);
    let _ = isolated(&mut orchestrator, 10);

    let step = orchestrator.step(HaltEvent::ForensicsFinished {
        outcome: Err(HaltError::ForensicsFailed(String::from("Disk I/O failure"))),
        elapsed_ms: 20,
    });
    assert!(matches!(step.command, HaltCommand::Continue));
    assert_eq!(orchestrator.phase(), HaltPhase::SanitizingAndCollecting);

    let step =
        orchestrator.step(HaltEvent::SanitizationFinished { outcome: Ok(()), elapsed_ms: 30 });
    match step.command {
        HaltCommand::Finish(Err(HaltError::ForensicsFailed(text))) => {
            assert_eq!(text, "Forensics collection failed: Disk I/O failure");
        }
        other => panic!("expected a forensics failure, got {:?}", other),
    }
    assert_eq!(orchestrator.phase(), HaltPhase::Failed);
}

#[test]
fn sanitization_takes_precedence_when_both_fail() {
    for sanitization_first in [true, false] {
        let policy = policy(100, 2000);
        let mut orchestrator = FSMUHaltOrchestrator::new(&policy);
        let _ = isolated(&mut orchestrator, 10);
        let sanitization = HaltEvent::SanitizationFinished {
            outcome: Err(HaltError::IsolationFailed(String::from("s"))),
            elapsed_ms: 20,
        };
        let forensics = HaltEvent::ForensicsFinished {
            outcome: Err(HaltError::ForensicsFailed(String::from("f"))),
            elapsed_ms: 25,
        };
        let (first, second) =
            if sanitization_first { (sanitization, forensics) } else { (forensics, sanitization) };
        assert!(matches!(orchestrator.step(first).command, HaltCommand::Continue));
        match orchestrator.step(second).command {
            HaltCommand::Finish(Err(HaltError::SanitizationFailed(text))) => {
                assert_eq!(text, "Isolation phase failed: s");
            }
            other => panic!("expected a sanitization failure, got {:?}", other),
        }
    }
}

#[test]
fn deadline_ends_the_sequence_in_every_phase_under_way() {
    let policy = policy(100, 1500);

    let mut orchestrator = FSMUHaltOrchestrator::new(&policy);
    let _ = orchestrator.step(HaltEvent::Start);
    let step = orchestrator.step(HaltEvent::DeadlineExpired);
    assert!(matches!(step.command, HaltCommand::Finish(Err(HaltError::Timeout(1500)))));
    assert_eq!(info(&step), "Halt sequence exceeded total system timeout.");
    assert_eq!(orchestrator.phase(), HaltPhase::TimedOut);

    let mut orchestrator = FSMUHaltOrchestrator::new(&policy);
    let _ = isolated(&mut orchestrator, 10);
    let step = orchestrator.step(HaltEvent::DeadlineExpired);
    assert!(matches!(step.command, HaltCommand::Finish(Err(HaltError::Timeout(1500)))));

    let mut orchestrator = FSMUHaltOrchestrator::new(&policy);
    let _ = isolated(&mut orchestrator, 10);
    let _ = orchestrator.step(HaltEvent::SanitizationFinished {
        outcome: Err(HaltError::SanitizationFailed(String::from("x"))),
        elapsed_ms: 20,
    });
    let step = orchestrator.step(HaltEvent::DeadlineExpired);
    assert!(matches!(step.command, HaltCommand::Finish(Err(HaltError::Timeout(1500)))));
    assert_eq!(orchestrator.phase(), HaltPhase::TimedOut);
}

#[test]
fn ended_sequence_takes_nothing() {
    let policy = policy(100, 1500);
    let mut orchestrator = FSMUHaltOrchestrator::new(&policy);
    let _ = isolated(&mut orchestrator, 10);
    let _ = orchestrator.step(HaltEvent::SanitizationFinished { outcome: Ok(()), elapsed_ms: 1 });
    let _ = orchestrator.step(HaltEvent::ForensicsFinished { outcome: Ok(()), elapsed_ms: 2 });
    assert_eq!(orchestrator.phase(), HaltPhase::Completed);

    let step = orchestrator.step(HaltEvent::DeadlineExpired);
    assert!(matches!(step.command, HaltCommand::Continue));
    assert!(step.log.is_none());
    let step = orchestrator.step(HaltEvent::Start);
    assert!(matches!(step.command, HaltCommand::Continue));
    assert_eq!(orchestrator.phase(), HaltPhase::Completed);
}

#[test]
fn halt_events_out_of_turn_change_nothing() {
    let policy = policy(100, 1500);
    let mut orchestrator = FSMUHaltOrchestrator::new(&policy);

    let step = orchestrator.step(HaltEvent::DeadlineExpired);
    assert!(matches!(step.command, HaltCommand::Continue));
    let step =
        orchestrator.step(HaltEvent::SanitizationFinished { outcome: Ok(()), elapsed_ms: 1 });
    assert!(matches!(step.command, HaltCommand::Continue));
    assert_eq!(orchestrator.phase(), HaltPhase::Idle);

    let _ = isolated(&mut orchestrator, 10);
    let _ = orchestrator.step(HaltEvent::SanitizationFinished { outcome: Ok(()), elapsed_ms: 1 });
    // A second report of sanitization does not stand in for forensics.
    let step =
        orchestrator.step(HaltEvent::SanitizationFinished { outcome: Ok(()), elapsed_ms: 2 });
    assert!(matches!(step.command, HaltCommand::Continue));
    assert_eq!(orchestrator.phase(), HaltPhase::SanitizingAndCollecting);
}

#[test]
fn halt_error_texts() {
    assert_eq!(
        HaltError::IsolationFailed(String::from("a")).message(),
        "Isolation phase failed: a"
    );
    assert_eq!(
        HaltError::ForensicsFailed(String::from("b")).message(),
        "Forensics collection failed: b"
    );
    assert_eq!(
        HaltError::SanitizationFailed(String::from("c")).message(),
        "Memory sanitization failed: c"
    );
    assert_eq!(
        HaltError::Timeout(1200).message(),
        "The overall halt sequence timed out after 1200ms."
    );
}

#[test]
fn error_forms_in_log_lines() {
    let errors = [
        HaltError::IsolationFailed(String::from("plain")),
        HaltError::ForensicsFailed(String::from("tab\there")),
        HaltError::SanitizationFailed(String::from("quote \" and \\ and \n")),
        HaltError::IsolationFailed(String::new()),
        HaltError::Timeout(0),
        HaltError::Timeout(u64::MAX),
    ];
    for error in errors {
        assert_eq!(error.debug_text(), format!("{:?}", error));
    }
    assert_eq!(
        HaltError::ForensicsFailed(String::from("a\"b")).debug_text(),
        "ForensicsFailed(\"a\\\"b\")"
    );
}

#[test]
fn bracketed_text() {
    assert_eq!(bracketed("Kind", "inner"), "Kind(inner)");
    assert_eq!(bracketed("", ""), "()");
}

struct Recorder {
    lines: Mutex<Vec<String>>,
}

impl SystemLogger for Recorder {
    fn record_violation(&self, policy_id: &str, component: &str, duration_ms: u128) {
        self.lines.lock().unwrap().push(format!("V {} {} {}", policy_id, component, duration_ms));
    }

    fn log_info(&self, message: &str) {
        self.lines.lock().unwrap().push(format!("I {}", message));
    }
}

#[test]
fn entries_reach_the_logger() {
    let recorder = Recorder { lines: Mutex::new(Vec::new()) };
    let policy = policy(100, 2000);
    let mut orchestrator = FSMUHaltOrchestrator::new(&policy);
    let events = vec![
        HaltEvent::Start,
        HaltEvent::IsolationFinished { outcome: Ok(()), elapsed_ms: 250 },
        HaltEvent::ForensicsFinished { outcome: Ok(()), elapsed_ms: 300 },
        HaltEvent::SanitizationFinished { outcome: Ok(()), elapsed_ms: 310 },
    ];
    for event in events {
        let step = orchestrator.step(event);
        if let Some(entry) = &step.log {
            emit(&recorder, entry);
        }
    }
    assert_eq!(
        *recorder.lines.lock().unwrap(),
        vec![
            String::from("I Starting halt sequence (Total Timeout: 2000ms)"),
            String::from("V POL-7 Isolation 250"),
            String::from("I Halt sequence successfully completed in total duration: 310ms."),
        ]
    );
}
