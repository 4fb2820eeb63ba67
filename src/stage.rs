use vstd::prelude::*;

verus! {

/// How a process ended: with an exit code, or killed by a signal.
#[derive(Clone, Debug, PartialEq, Eq)]
pub enum ExitStatus {
    Code(i32),
    /// Killed by signal `number`; `shown` is the platform's own text for
    /// that exit status (as in `signal: 9 (SIGKILL)`).
    Signal { number: i32, shown: String },
}

impl ExitStatus {
    pub open spec fn is_success(self) -> bool {
        self == ExitStatus::Code(0)
    }

    pub fn success(&self) -> (r: bool)
        ensures
            r == self.is_success(),
    {
        match self {
            ExitStatus::Code(c) => *c == 0,
            ExitStatus::Signal { .. } => false,
        }
    }
}

/// The operation on a pipe or a process that failed.
#[derive(Clone, Copy, Debug, PartialEq, Eq, Structural)]
pub enum IoOp {
    Wait,
    Read,
}

/// The one error a pipeline reports, naming the stage it came from.
#[derive(Clone, Debug)]
pub enum CmdError {
    /// A process ended with a nonzero code or by a signal.
    StageExit { command: String, status: ExitStatus },
    /// A task could not be joined: it panicked or was aborted.
    Join { command: String, cause: String },
    /// Waiting for a stage or reading its output failed.
    Io { operation: IoOp, command: String, cause: String },
    /// What a task returned as its own failure.
    Task { command: String, message: String },
}

/// The three kinds of stage.
#[derive(Clone, Copy, Debug, PartialEq, Eq, Structural)]
pub enum StageKind {
    Process,
    Task,
    Immediate,
}

/// What the caller observed when a stage terminated.
#[derive(Debug)]
pub enum StageOutcome {
    /// A process exited.
    Exited(ExitStatus),
    /// A task was joined and returned this.
    Returned(Result<(), CmdError>),
    /// A task could not be joined, for this cause.
    JoinFailed(String),
    /// An immediate stage: nothing to wait for.
    Resolved,
    /// Waiting for the stage failed, for this cause.
    WaitFailed(String),
}

/// Process-wide switches, handed in by the caller.
#[derive(Clone, Copy, Debug, PartialEq, Eq, Structural)]
pub struct Policy {
    /// A failure of a stage before the last one fails the pipeline.
    pub pipefail: bool,
    /// Failures that are not reported are still logged.
    pub debug: bool,
}

/// What the engine knows of one stage: its text, its kind and its flag.
#[derive(Clone, Debug)]
pub struct StageInfo {
    pub command: String,
    pub kind: StageKind,
    pub ignore_error: bool,
}

/// The fate of one stage's outcome.
#[derive(Debug)]
pub enum Verdict {
    /// The stage succeeded.
    Passed,
    /// The stage failed and the failure is the pipeline's.
    Surfaced(CmdError),
    /// The stage failed and the failure is dropped; `log` says whether it is
    /// still to be logged.
    Swallowed { error: CmdError, log: bool },
}

/// The failure, if any, that an outcome of the stage running `command` is.
pub open spec fn failure_of(command: String, outcome: StageOutcome) -> Option<CmdError> {
    match outcome {
        StageOutcome::Exited(s) => if s.is_success() {
            None
        } else {
            Some(CmdError::StageExit { command, status: s })
        },
        StageOutcome::Returned(r) => match r {
            Ok(_) => None,
            Err(e) => Some(e),
        },
        StageOutcome::JoinFailed(cause) => Some(CmdError::Join { command, cause }),
        StageOutcome::Resolved => None,
        StageOutcome::WaitFailed(cause) => Some(
            CmdError::Io { operation: IoOp::Wait, command, cause },
        ),
    }
}

/// Whether a failed stage's failure is the pipeline's: never when the stage
/// ignores errors, always for the last stage, under pipefail for the others.
pub open spec fn surfaces(ignore_error: bool, is_last: bool, pipefail: bool) -> bool {
    !ignore_error && (is_last || pipefail)
}

/// The verdict on an outcome of `stage`. A failed wait is a fault of the
/// machinery, not of the stage, and is never dropped.
pub open spec fn verdict_of(
    stage: StageInfo,
    outcome: StageOutcome,
    is_last: bool,
    policy: Policy,
) -> Verdict {
    match failure_of(stage.command, outcome) {
        None => Verdict::Passed,
        Some(e) => if outcome is WaitFailed || surfaces(stage.ignore_error, is_last, policy.pipefail) {
            Verdict::Surfaced(e)
        } else {
            Verdict::Swallowed { error: e, log: policy.debug }
        },
    }
}

/// Decides what an outcome of `stage` means for the pipeline.
pub fn settle(stage: StageInfo, outcome: StageOutcome, is_last: bool, policy: Policy) -> (r: Verdict)
    ensures
        r == verdict_of(stage, outcome, is_last, policy),
{
    let counts = !stage.ignore_error && (is_last || policy.pipefail);
    let failure = match outcome {
        StageOutcome::Exited(s) => if s.success() {
            None
        } else {
            Some(CmdError::StageExit { command: stage.command, status: s })
        },
        StageOutcome::Returned(r) => match r {
            Ok(_) => None,
            Err(e) => Some(e),
        },
        StageOutcome::JoinFailed(cause) => Some(CmdError::Join { command: stage.command, cause }),
        StageOutcome::Resolved => None,
        StageOutcome::WaitFailed(cause) => {
            return Verdict::Surfaced(
                CmdError::Io { operation: IoOp::Wait, command: stage.command, cause },
            );
        },
    };
    match failure {
        None => Verdict::Passed,
        Some(e) => if counts {
            Verdict::Surfaced(e)
        } else {
            Verdict::Swallowed { error: e, log: policy.debug }
        },
    }
}

} // verus!
