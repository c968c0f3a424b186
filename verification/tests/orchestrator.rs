use roseline_launcher::orchestrator::{
    advance, announcement, exit_code, missing_executable_diagnostic, Advance, Directive,
    ExitReason, Finding, Phase,
};
use roseline_launcher::paths::{PathResolver, Platform, Worker};
use roseline_launcher::supervisor::{
    Action, RestartPolicy, RunOutcome, SupervisorState, WorkerSupervisor,
};

fn exit(code: i32, reason: ExitReason) -> Option<Advance> {
    Some(Advance { phase: Phase::Stopped, directive: Directive::Exit { code, reason } })
}

fn all_phases() -> Vec<Phase> {
    vec![
        Phase::CheckingInstance,
        Phase::VerifyingExecutables,
        Phase::OpeningLog { worker: Worker::Roseline },
        Phase::OpeningLog { worker: Worker::RoselineWeb },
        Phase::Supervising,
        Phase::Stopped,
    ]
}

fn all_findings() -> Vec<Finding> {
    vec![
        Finding::InstanceChecked { duplicate: true },
        Finding::InstanceChecked { duplicate: false },
        Finding::ExecutablesProbed { background_present: true, primary_present: true },
        Finding::ExecutablesProbed { background_present: true, primary_present: false },
        Finding::ExecutablesProbed { background_present: false, primary_present: true },
        Finding::ExecutablesProbed { background_present: false, primary_present: false },
        Finding::LogOpened,
        Finding::LogRefused,
        Finding::PrimaryStopped,
    ]
}

#[test]
fn duplicate_instance_ends_quietly() {
    assert_eq!(
        advance(Phase::CheckingInstance, Finding::InstanceChecked { duplicate: true }),
        exit(0, ExitReason::DuplicateInstance)
    );
}

#[test]
fn no_duplicate_leads_to_the_probe() {
    assert_eq!(
        advance(Phase::CheckingInstance, Finding::InstanceChecked { duplicate: false }),
        Some(Advance {
            phase: Phase::VerifyingExecutables,
            directive: Directive::ProbeExecutables
        })
    );
}

#[test]
fn missing_executable_is_fatal_and_named() {
    assert_eq!(
        advance(
            Phase::VerifyingExecutables,
            Finding::ExecutablesProbed { background_present: false, primary_present: true }
        ),
        exit(1, ExitReason::MissingExecutable { worker: Worker::Roseline })
    );
    assert_eq!(
        advance(
            Phase::VerifyingExecutables,
            Finding::ExecutablesProbed { background_present: true, primary_present: false }
        ),
        exit(1, ExitReason::MissingExecutable { worker: Worker::RoselineWeb })
    );
    assert_eq!(
        advance(
            Phase::VerifyingExecutables,
            Finding::ExecutablesProbed { background_present: false, primary_present: false }
        ),
        exit(1, ExitReason::MissingExecutable { worker: Worker::Roseline })
    );
}

#[test]
fn logs_are_opened_one_after_the_other() {
    assert_eq!(
        advance(
            Phase::VerifyingExecutables,
            Finding::ExecutablesProbed { background_present: true, primary_present: true }
        ),
        Some(Advance {
            phase: Phase::OpeningLog { worker: Worker::Roseline },
            directive: Directive::OpenLog { worker: Worker::Roseline }
        })
    );
    assert_eq!(
        advance(Phase::OpeningLog { worker: Worker::Roseline }, Finding::LogOpened),
        Some(Advance {
            phase: Phase::OpeningLog { worker: Worker::RoselineWeb },
            directive: Directive::OpenLog { worker: Worker::RoselineWeb }
        })
    );
    assert_eq!(
        advance(Phase::OpeningLog { worker: Worker::RoselineWeb }, Finding::LogOpened),
        Some(Advance { phase: Phase::Supervising, directive: Directive::Launch })
    );
}

#[test]
fn log_open_failure_is_fatal_and_named() {
    assert_eq!(
        advance(Phase::OpeningLog { worker: Worker::Roseline }, Finding::LogRefused),
        exit(1, ExitReason::LogOpenFailure { worker: Worker::Roseline })
    );
    assert_eq!(
        advance(Phase::OpeningLog { worker: Worker::RoselineWeb }, Finding::LogRefused),
        exit(1, ExitReason::LogOpenFailure { worker: Worker::RoselineWeb })
    );
}

#[test]
fn program_ends_when_the_primary_loop_ends() {
    assert_eq!(
        advance(Phase::Supervising, Finding::PrimaryStopped),
        exit(0, ExitReason::PrimaryWorkerStopped)
    );
    for finding in all_findings() {
        if finding != Finding::PrimaryStopped {
            assert_eq!(advance(Phase::Supervising, finding), None);
        }
    }
}

#[test]
fn nothing_follows_the_end() {
    for finding in all_findings() {
        assert_eq!(advance(Phase::Stopped, finding), None);
    }
}

#[test]
fn findings_out_of_place_are_refused() {
    let mut accepted = 0;
    for phase in all_phases() {
        for finding in all_findings() {
            if advance(phase, finding).is_some() {
                accepted += 1;
            }
        }
    }
    assert_eq!(accepted, 2 + 4 + 2 + 2 + 1);
    assert_eq!(advance(Phase::CheckingInstance, Finding::LogOpened), None);
    assert_eq!(
        advance(Phase::VerifyingExecutables, Finding::InstanceChecked { duplicate: false }),
        None
    );
}

#[test]
fn nothing_is_opened_or_started_before_the_checks_pass() {
    for phase in all_phases() {
        for finding in all_findings() {
            if let Some(next) = advance(phase, finding) {
                let opens_or_starts = matches!(
                    next.directive,
                    Directive::OpenLog { .. } | Directive::Launch
                );
                if opens_or_starts {
                    assert!(phase != Phase::CheckingInstance);
                    if phase == Phase::VerifyingExecutables {
                        assert_eq!(
                            finding,
                            Finding::ExecutablesProbed {
                                background_present: true,
                                primary_present: true
                            }
                        );
                    }
                }
            }
        }
    }
}

#[test]
fn exit_codes_of_every_reason() {
    assert_eq!(exit_code(ExitReason::DuplicateInstance), 0);
    assert_eq!(exit_code(ExitReason::MissingExecutable { worker: Worker::Roseline }), 1);
    assert_eq!(exit_code(ExitReason::MissingExecutable { worker: Worker::RoselineWeb }), 1);
    assert_eq!(exit_code(ExitReason::LogOpenFailure { worker: Worker::Roseline }), 1);
    assert_eq!(exit_code(ExitReason::LogOpenFailure { worker: Worker::RoselineWeb }), 1);
    assert_eq!(exit_code(ExitReason::PrimaryWorkerStopped), 0);
}

#[test]
fn announcement_lists_executable_and_log() {
    let (roseline, web) = PathResolver::new("/opt/app".to_string(), Platform::Posix).resolve();
    assert_eq!(announcement(&roseline), "Roseline=/opt/app/roseline\nLog=/opt/app/roseline.log");
    assert_eq!(
        announcement(&web),
        "Roseline-web=/opt/app/roseline-web\nLog=/opt/app/roseline-web.log"
    );
}

#[test]
fn missing_executable_diagnostic_names_the_missing_path() {
    let (roseline, web) = PathResolver::new("/opt/app".to_string(), Platform::Posix).resolve();
    assert_eq!(
        missing_executable_diagnostic(&roseline),
        "Roseline exe is missing: /opt/app/roseline"
    );
    assert_eq!(
        missing_executable_diagnostic(&web),
        "Roseline-web exe is missing: /opt/app/roseline-web"
    );
}

#[test]
fn end_to_end_failure_then_success_on_the_primary_worker() {
    let mut phase = Phase::CheckingInstance;
    let mut directives = Vec::new();
    let findings = [
        Finding::InstanceChecked { duplicate: false },
        Finding::ExecutablesProbed { background_present: true, primary_present: true },
        Finding::LogOpened,
        Finding::LogOpened,
    ];
    for finding in findings {
        let next = advance(phase, finding).unwrap();
        phase = next.phase;
        directives.push(next.directive);
    }
    assert_eq!(
        directives,
        vec![
            Directive::ProbeExecutables,
            Directive::OpenLog { worker: Worker::Roseline },
            Directive::OpenLog { worker: Worker::RoselineWeb },
            Directive::Launch,
        ]
    );
    assert_eq!(phase, Phase::Supervising);

    let (roseline, web) = PathResolver::new("/opt/app".to_string(), Platform::Posix).resolve();
    let mut background = WorkerSupervisor::new(roseline, RestartPolicy::standard());
    let mut primary = WorkerSupervisor::new(web, RestartPolicy::standard());

    let mut spawns = 1;
    let mut slept_ms: Vec<u64> = Vec::new();
    for outcome in [RunOutcome::Completed { success: false }, RunOutcome::Completed { success: true }] {
        let reaction = primary.record(&outcome).unwrap();
        match reaction.action {
            Action::LogFailureAndSleep { cooldown_ms } => slept_ms.push(cooldown_ms),
            Action::LogSuccess => slept_ms.push(0),
            other => panic!("unexpected action {:?}", other),
        }
        assert_eq!(primary.resume(), Some(Action::Spawn));
        spawns += 1;
    }
    assert_eq!(spawns, 3);
    assert_eq!(slept_ms, vec![10000, 0]);
    assert_eq!(primary.state(), SupervisorState::Spawning);

    assert_eq!(background.state(), SupervisorState::Spawning);
    assert_eq!(
        background.record(&RunOutcome::Completed { success: true }).unwrap().action,
        Action::LogSuccess
    );
    assert_eq!(phase, Phase::Supervising);
}

#[test]
fn background_spawn_error_leaves_the_primary_loop_alone() {
    let (roseline, web) = PathResolver::new("/opt/app".to_string(), Platform::Posix).resolve();
    let mut background = WorkerSupervisor::new(roseline, RestartPolicy::standard());
    let mut primary = WorkerSupervisor::new(web, RestartPolicy::standard());
    let reaction = background
        .record(&RunOutcome::SpawnError { message: "gone".to_string() })
        .unwrap();
    assert_eq!(reaction.action, Action::LogSpawnErrorAndReturn);
    assert_eq!(reaction.notice, "Couldn't run Roseline. Error: gone");
    assert!(background.is_finished());
    assert!(!primary.is_finished());
    assert_eq!(
        primary.record(&RunOutcome::Completed { success: true }).unwrap().action,
        Action::LogSuccess
    );
}
