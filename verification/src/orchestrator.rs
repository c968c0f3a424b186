//! The order in which the launcher starts: look for another instance, check
//! that both executables are there, open both logs, then supervise.
//!
//! The orchestrator is a state machine like the supervisor. It is told what
//! a check found and answers with the next thing to do; it ends the program
//! before anything is opened or started if a check fails.
use crate::paths::{Worker, WorkerSpec, WorkerSpecView};
use vstd::prelude::*;

verus! {

/// Where the launcher stands in its start-up.
#[derive(Clone, Copy, Debug, PartialEq, Eq, Structural)]
pub enum Phase {
    /// Looking for another instance.
    CheckingInstance,
    /// Resolving the paths and asking whether both executables exist.
    VerifyingExecutables,
    /// Opening the log of one worker.
    OpeningLog { worker: Worker },
    /// Both supervision loops run.
    Supervising,
    /// The program has ended.
    Stopped,
}

/// What a step of the start-up found.
#[derive(Clone, Copy, Debug, PartialEq, Eq, Structural)]
pub enum Finding {
    /// The process table was scanned.
    InstanceChecked { duplicate: bool },
    /// Both executables were looked for: the background worker's and the
    /// primary worker's.
    ExecutablesProbed { background_present: bool, primary_present: bool },
    /// The log that was asked for is open.
    LogOpened,
    /// The log that was asked for could not be opened.
    LogRefused,
    /// The supervision loop on the primary control flow has ended.
    PrimaryStopped,
}

/// Why the program ends.
#[derive(Clone, Copy, Debug, PartialEq, Eq, Structural)]
pub enum ExitReason {
    /// Another instance is active. No diagnostic of its own: the scan has
    /// named the process.
    DuplicateInstance,
    /// The executable of a worker is missing.
    MissingExecutable { worker: Worker },
    /// The log of a worker could not be opened.
    LogOpenFailure { worker: Worker },
    /// The primary worker could not be created, so nothing keeps the program
    /// alive.
    PrimaryWorkerStopped,
}

/// What the launcher does next.
#[derive(Clone, Copy, Debug, PartialEq, Eq, Structural)]
pub enum Directive {
    /// Resolve the paths, announce them and look for both executables.
    ProbeExecutables,
    /// Open the log of a worker.
    OpenLog { worker: Worker },
    /// Start the background worker's supervisor on a task of its own, which
    /// is not waited for, and run the primary worker's supervisor here.
    Launch,
    /// End the program with this status.
    Exit { code: i32, reason: ExitReason },
}

/// One move of the start-up: the phase entered and what to do there.
#[derive(Clone, Copy, Debug, PartialEq, Eq, Structural)]
pub struct Advance {
    pub phase: Phase,
    pub directive: Directive,
}

/// The worker that is supervised in the background.
pub open spec fn background_worker() -> Worker {
    Worker::Roseline
}

/// The worker that is supervised on the primary control flow.
pub open spec fn primary_worker() -> Worker {
    Worker::RoselineWeb
}

/// The status the program ends with: success where it ends quietly, failure
/// where a start-up check failed.
pub open spec fn exit_code_of(reason: ExitReason) -> i32 {
    match reason {
        ExitReason::DuplicateInstance => 0,
        ExitReason::MissingExecutable { .. } => 1,
        ExitReason::LogOpenFailure { .. } => 1,
        ExitReason::PrimaryWorkerStopped => 0,
    }
}

/// The move that ends the program.
pub open spec fn stop_for(reason: ExitReason) -> Advance {
    Advance {
        phase: Phase::Stopped,
        directive: Directive::Exit { code: exit_code_of(reason), reason },
    }
}

/// The table of the start-up. `None` where the finding does not belong to
/// the phase.
pub open spec fn spec_advance(phase: Phase, finding: Finding) -> Option<Advance> {
    match (phase, finding) {
        (Phase::CheckingInstance, Finding::InstanceChecked { duplicate }) => if duplicate {
            Some(stop_for(ExitReason::DuplicateInstance))
        } else {
            Some(
                Advance {
                    phase: Phase::VerifyingExecutables,
                    directive: Directive::ProbeExecutables,
                },
            )
        },
        (
            Phase::VerifyingExecutables,
            Finding::ExecutablesProbed { background_present, primary_present },
        ) => if !background_present {
            Some(stop_for(ExitReason::MissingExecutable { worker: background_worker() }))
        } else if !primary_present {
            Some(stop_for(ExitReason::MissingExecutable { worker: primary_worker() }))
        } else {
            Some(
                Advance {
                    phase: Phase::OpeningLog { worker: background_worker() },
                    directive: Directive::OpenLog { worker: background_worker() },
                },
            )
        },
        (Phase::OpeningLog { worker }, Finding::LogOpened) => if worker == background_worker() {
            Some(
                Advance {
                    phase: Phase::OpeningLog { worker: primary_worker() },
                    directive: Directive::OpenLog { worker: primary_worker() },
                },
            )
        } else {
            Some(Advance { phase: Phase::Supervising, directive: Directive::Launch })
        },
        (Phase::OpeningLog { worker }, Finding::LogRefused) => Some(
            stop_for(ExitReason::LogOpenFailure { worker }),
        ),
        (Phase::Supervising, Finding::PrimaryStopped) => Some(
            stop_for(ExitReason::PrimaryWorkerStopped),
        ),
        _ => None,
    }
}

/// The phase reached from the start when the findings are reported in
/// order. `None` if one of them does not belong where it is reported.
pub open spec fn phase_after(findings: Seq<Finding>) -> Option<Phase>
    decreases findings.len(),
{
    if findings.len() == 0 {
        Some(Phase::CheckingInstance)
    } else {
        match phase_after(findings.drop_last()) {
            Some(phase) => match spec_advance(phase, findings.last()) {
                Some(advance) => Some(advance.phase),
                None => None,
            },
            None => None,
        }
    }
}

/// The status the program ends with.
pub fn exit_code(reason: ExitReason) -> (code: i32)
    ensures
        code == exit_code_of(reason),
{
    match reason {
        ExitReason::DuplicateInstance => 0,
        ExitReason::MissingExecutable { .. } => 1,
        ExitReason::LogOpenFailure { .. } => 1,
        ExitReason::PrimaryWorkerStopped => 0,
    }
}

fn stop(reason: ExitReason) -> (advance: Advance)
    ensures
        advance == stop_for(reason),
{
    Advance { phase: Phase::Stopped, directive: Directive::Exit { code: exit_code(reason), reason } }
}

/// One move of the start-up.
pub fn advance(phase: Phase, finding: Finding) -> (r: Option<Advance>)
    ensures
        r == spec_advance(phase, finding),
{
    match phase {
        Phase::CheckingInstance => match finding {
            Finding::InstanceChecked { duplicate } => if duplicate {
                Some(stop(ExitReason::DuplicateInstance))
            } else {
                Some(
                    Advance {
                        phase: Phase::VerifyingExecutables,
                        directive: Directive::ProbeExecutables,
                    },
                )
            },
            _ => None,
        },
        Phase::VerifyingExecutables => match finding {
            Finding::ExecutablesProbed { background_present, primary_present } => {
                if !background_present {
                    Some(stop(ExitReason::MissingExecutable { worker: Worker::Roseline }))
                } else if !primary_present {
                    Some(stop(ExitReason::MissingExecutable { worker: Worker::RoselineWeb }))
                } else {
                    Some(
                        Advance {
                            phase: Phase::OpeningLog { worker: Worker::Roseline },
                            directive: Directive::OpenLog { worker: Worker::Roseline },
                        },
                    )
                }
            },
            _ => None,
        },
        Phase::OpeningLog { worker } => match finding {
            Finding::LogOpened => match worker {
                Worker::Roseline => Some(
                    Advance {
                        phase: Phase::OpeningLog { worker: Worker::RoselineWeb },
                        directive: Directive::OpenLog { worker: Worker::RoselineWeb },
                    },
                ),
                Worker::RoselineWeb => Some(
                    Advance { phase: Phase::Supervising, directive: Directive::Launch },
                ),
            },
            Finding::LogRefused => Some(stop(ExitReason::LogOpenFailure { worker })),
            _ => None,
        },
        Phase::Supervising => match finding {
            Finding::PrimaryStopped => Some(stop(ExitReason::PrimaryWorkerStopped)),
            _ => None,
        },
        Phase::Stopped => None,
    }
}

/// The lines that announce where a worker and its log are expected.
pub open spec fn announcement_text(worker: WorkerSpecView) -> Seq<char> {
    worker.name + "="@ + worker.executable_path + "\nLog="@ + worker.log_path
}

/// The diagnostic of a worker whose executable is missing.
pub open spec fn missing_executable_text(worker: WorkerSpecView) -> Seq<char> {
    worker.name + " exe is missing: "@ + worker.executable_path
}

/// Writes the lines that announce where a worker and its log are expected.
pub fn announcement(worker: &WorkerSpec) -> (text: String)
    ensures
        text@ == announcement_text(worker@),
{
    let mut text = String::from_str(worker.name());
    text.append("=");
    text.append(worker.executable_path());
    text.append("\nLog=");
    text.append(worker.log_path());
    text
}

/// Writes the diagnostic of a worker whose executable is missing: it names
/// the worker and the path at which its executable was looked for.
pub fn missing_executable_diagnostic(worker: &WorkerSpec) -> (text: String)
    ensures
        text@ == missing_executable_text(worker@),
{
    let mut text = String::from_str(worker.name());
    text.append(" exe is missing: ");
    text.append(worker.executable_path());
    text
}

/// Nothing follows the end of the program.
pub proof fn lemma_stopped_is_final(finding: Finding)
    ensures
        spec_advance(Phase::Stopped, finding) is None,
{
}

/// While both loops run, the one finding that ends the program is the end
/// of the primary worker's loop, and the program then ends quietly.
pub proof fn lemma_lifetime_is_the_primary_loop(finding: Finding)
    ensures
        spec_advance(Phase::Supervising, finding) is Some <==> finding == Finding::PrimaryStopped,
        spec_advance(Phase::Supervising, Finding::PrimaryStopped) == Some(
            stop_for(ExitReason::PrimaryWorkerStopped),
        ),
        exit_code_of(ExitReason::PrimaryWorkerStopped) == 0,
{
}

/// A program that ends with a failure status ends for a missing executable
/// or a log that could not be opened, and for nothing else.
pub proof fn lemma_failure_status_means_failed_check(phase: Phase, finding: Finding)
    requires
        spec_advance(phase, finding) matches Some(advance) && advance.phase == Phase::Stopped,
    ensures
        spec_advance(phase, finding)->0.directive matches Directive::Exit { code, reason } && code
            == exit_code_of(reason) && (code != 0 <==> (reason is MissingExecutable || reason
            is LogOpenFailure)),
{
}

/// The launcher fails fast: by the time it is asked to open a log or to
/// start the workers, the scan has found no other instance and both
/// executables were found, in that order and before anything else.
pub proof fn lemma_checks_come_first(findings: Seq<Finding>)
    requires
        phase_after(findings) matches Some(phase) && (phase is OpeningLog || phase
            == Phase::Supervising),
    ensures
        findings.len() >= 2,
        findings[0] == (Finding::InstanceChecked { duplicate: false }),
        findings[1] == (Finding::ExecutablesProbed {
            background_present: true,
            primary_present: true,
        }),
    decreases findings.len(),
{
    let before = findings.drop_last();
    if findings.len() > 0 {
        let earlier = phase_after(before)->0;
        if earlier is OpeningLog || earlier == Phase::Supervising {
            lemma_checks_come_first(before);
        } else {
            assert(earlier == Phase::VerifyingExecutables);
            assert(before.len() > 0);
            let first = before.drop_last();
            assert(phase_after(first) == Some(Phase::CheckingInstance));
            lemma_only_the_start_is_checking(first);
        }
    }
}

/// The launcher looks for another instance once, at the very start.
pub proof fn lemma_only_the_start_is_checking(findings: Seq<Finding>)
    requires
        phase_after(findings) == Some(Phase::CheckingInstance),
    ensures
        findings.len() == 0,
{
}

/// Both logs are open before the workers start: the findings that lead to
/// `Supervising` are exactly the two checks followed by two opened logs.
pub proof fn lemma_supervising_after_both_logs(findings: Seq<Finding>)
    requires
        phase_after(findings) == Some(Phase::Supervising),
    ensures
        findings =~= seq![
            Finding::InstanceChecked { duplicate: false },
            Finding::ExecutablesProbed { background_present: true, primary_present: true },
            Finding::LogOpened,
            Finding::LogOpened,
        ],
{
    let third = findings.drop_last();
    assert(findings.len() > 0);
    assert(phase_after(third) == Some(Phase::OpeningLog { worker: primary_worker() }));
    let second = third.drop_last();
    assert(third.len() > 0);
    assert(phase_after(second) == Some(Phase::OpeningLog { worker: background_worker() }));
    lemma_checks_come_first(second);
    let first = second.drop_last();
    assert(phase_after(first) == Some(Phase::VerifyingExecutables));
    assert(first.len() > 0);
    lemma_only_the_start_is_checking(first.drop_last());
}

} // verus!
