use vstd::prelude::*;
use crate::stage::{CmdError, IoOp, StageKind, StageOutcome, Policy, StageInfo, Verdict, settle, verdict_of};
use crate::output::{decode_output, collected_text};

verus! {

/// The three ways to end a pipeline.
#[derive(Clone, Copy, Debug, PartialEq, Eq, Structural)]
pub enum Mode {
    /// Only the pipeline's success or failure is wanted.
    Status,
    /// The last stage's output is wanted, as text.
    Output,
    /// The last stage's output is handed to a consumer; no status is kept.
    Pipe,
}

/// Where a pipeline's termination stands.
#[derive(Clone, Copy, Debug, PartialEq, Eq, Structural)]
pub enum Phase {
    /// No mode chosen yet.
    Idle,
    /// The last stage is to be resolved.
    Tail,
    /// The streamed last stage is a process that is to be killed.
    Killing,
    /// The stages before the last one are drained, last first.
    Rest,
    /// Every stage has terminated.
    Done,
}

/// What the caller is to do next.
#[derive(Clone, Copy, Debug, PartialEq, Eq, Structural)]
pub enum Action {
    /// Detach the last remaining stage, forward its error stream while
    /// waiting for it, join the forwarder, and report `Event::Ended`.
    Wait { is_last: bool },
    /// Detach the last stage, close its input, read its output to the end,
    /// then wait for it, and report `Event::Collected` or `Event::ReadFailed`.
    Collect,
    /// Detach the last stage and hand its output to the consumer once; report
    /// `Event::Consumed` when the consumer returns.
    Stream,
    /// Kill the streamed process if it still runs, join its forwarder, and
    /// report `Event::Killed`.
    Kill,
    /// Nothing is left to wait for: call `finish`.
    Finish,
}

/// What the caller observed while doing the last action.
#[derive(Debug)]
pub enum Event {
    Ended(StageOutcome),
    Collected { output: Vec<u8>, outcome: StageOutcome },
    ReadFailed(String),
    Consumed,
    Killed,
}

/// The first of two failures.
pub open spec fn keep_first(a: Option<CmdError>, b: Option<CmdError>) -> Option<CmdError> {
    if a is Some {
        a
    } else {
        b
    }
}

/// The separator between two commands of a pipeline.
pub open spec fn pipe_sep() -> Seq<char> {
    seq![' ', '|', ' ']
}

/// The commands of `stages` in order, joined by the pipe sign.
pub open spec fn joined(stages: Seq<StageInfo>) -> Seq<char>
    decreases stages.len(),
{
    if stages.len() == 0 {
        Seq::empty()
    } else if stages.len() == 1 {
        stages[0].command@
    } else {
        joined(stages.drop_last()) + pipe_sep() + stages.last().command@
    }
}

/// A pipeline of running stages, head first, as its termination goes on.
///
/// Stages leave from the end only: the last stage is resolved first and
/// decides the output; the others are then drained, every one of them, even
/// after a failure, so that no stage is left blocked on a pipe.
pub struct CmdChildren {
    /// The stages not yet detached, head first.
    pub stages: Vec<StageInfo>,
    pub policy: Policy,
    pub mode: Mode,
    pub phase: Phase,
    /// The first failure that is the pipeline's.
    pub error: Option<CmdError>,
    /// A dropped failure of the last step that is to be logged.
    pub warning: Option<CmdError>,
    /// The last stage's output, as text.
    pub text: String,
}

impl CmdChildren {
    pub open spec fn wf(&self) -> bool {
        &&& (self.phase is Idle || self.phase is Tail || self.phase is Rest) ==> self.stages.len() > 0
        &&& self.phase is Done ==> self.stages.len() == 0
        &&& self.phase is Killing ==> self.mode is Pipe
    }

    /// The action that the phase asks for.
    pub open spec fn pending(&self) -> Action {
        match self.phase {
            Phase::Tail => match self.mode {
                Mode::Status => Action::Wait { is_last: true },
                Mode::Output => Action::Collect,
                Mode::Pipe => Action::Stream,
            },
            Phase::Killing => Action::Kill,
            Phase::Rest => Action::Wait { is_last: false },
            _ => Action::Finish,
        }
    }

    /// Whether `event` answers the pending action.
    pub open spec fn accepts(&self, event: Event) -> bool {
        match self.phase {
            Phase::Tail => match self.mode {
                Mode::Status => event is Ended,
                Mode::Output => event is Collected || event is ReadFailed,
                Mode::Pipe => event is Consumed,
            },
            Phase::Killing => event is Killed,
            Phase::Rest => event is Ended,
            _ => false,
        }
    }

    /// The verdict that `event` brings on the detached stage, if any.
    pub open spec fn verdict_on(&self, event: Event) -> Option<Verdict> {
        let stage = self.stages@.last();
        match event {
            Event::Ended(o) => Some(verdict_of(stage, o, self.phase is Tail, self.policy)),
            Event::Collected { output, outcome } => Some(verdict_of(stage, outcome, true, self.policy)),
            Event::ReadFailed(cause) => Some(
                Verdict::Surfaced(
                    CmdError::Io { operation: IoOp::Read, command: stage.command, cause },
                ),
            ),
            _ => None,
        }
    }

    pub open spec fn next_stages(&self) -> Seq<StageInfo> {
        if self.phase is Killing {
            self.stages@
        } else {
            self.stages@.drop_last()
        }
    }

    pub open spec fn next_error(&self, event: Event) -> Option<CmdError> {
        if self.mode is Pipe {
            self.error
        } else {
            match self.verdict_on(event) {
                Some(Verdict::Surfaced(e)) => keep_first(self.error, Some(e)),
                _ => self.error,
            }
        }
    }

    pub open spec fn next_warning(&self, event: Event) -> Option<CmdError> {
        match self.verdict_on(event) {
            Some(Verdict::Swallowed { error, log }) => if log {
                Some(error)
            } else {
                None
            },
            _ => None,
        }
    }

    pub open spec fn next_text(&self, event: Event) -> Seq<char> {
        match event {
            Event::Collected { output, outcome } => collected_text(output@),
            _ => self.text@,
        }
    }

    pub open spec fn next_phase(&self) -> Phase {
        if self.phase is Tail && self.mode is Pipe && self.stages@.last().kind is Process {
            Phase::Killing
        } else if self.next_stages().len() > 0 {
            Phase::Rest
        } else {
            Phase::Done
        }
    }

    /// `post` is what a step on `event` makes of `pre`.
    pub open spec fn stepped(pre: CmdChildren, event: Event, post: CmdChildren) -> bool {
        &&& post.wf()
        &&& post.mode == pre.mode
        &&& post.policy == pre.policy
        &&& post.stages@ == pre.next_stages()
        &&& post.phase == pre.next_phase()
        &&& post.error == pre.next_error(event)
        &&& post.warning == pre.next_warning(event)
        &&& post.text@ == pre.next_text(event)
    }

    /// The result that a finished pipeline reports.
    pub open spec fn result(&self) -> Result<String, CmdError> {
        match self.error {
            Some(e) => Err(e),
            None => Ok(self.text),
        }
    }

    /// Takes over the stages of a pipeline, head first.
    pub fn from(stages: Vec<StageInfo>, policy: Policy) -> (r: Self)
        ensures
            r.stages == stages,
            r.policy == policy,
            r.phase is Idle,
            r.error is None,
            r.warning is None,
            r.text@ == Seq::<char>::empty(),
    {
        CmdChildren {
            stages,
            policy,
            mode: Mode::Status,
            phase: Phase::Idle,
            error: None,
            warning: None,
            text: String::new(),
        }
    }

    fn begin(&mut self, mode: Mode) -> (a: Action)
        requires
            old(self).phase is Idle,
            old(self).stages.len() > 0,
        ensures
            final(self).wf(),
            final(self).mode == mode,
            final(self).phase is Tail,
            final(self).stages == old(self).stages,
            final(self).policy == old(self).policy,
            final(self).error == old(self).error,
            final(self).warning == old(self).warning,
            final(self).text == old(self).text,
            a == final(self).pending(),
    {
        self.mode = mode;
        self.phase = Phase::Tail;
        self.next_action()
    }

    /// Starts status mode: the first action waits for the last stage.
    pub fn wait_cmd_result(&mut self) -> (a: Action)
        requires
            old(self).phase is Idle,
            old(self).stages.len() > 0,
        ensures
            final(self).wf(),
            final(self).mode is Status,
            final(self).phase is Tail,
            final(self).stages == old(self).stages,
            final(self).policy == old(self).policy,
            final(self).error == old(self).error,
            final(self).warning == old(self).warning,
            final(self).text == old(self).text,
            a == (Action::Wait { is_last: true }),
    {
        self.begin(Mode::Status)
    }

    /// Starts output mode: the first action collects the last stage's output.
    pub fn wait_fun_result(&mut self) -> (a: Action)
        requires
            old(self).phase is Idle,
            old(self).stages.len() > 0,
        ensures
            final(self).wf(),
            final(self).mode is Output,
            final(self).phase is Tail,
            final(self).stages == old(self).stages,
            final(self).policy == old(self).policy,
            final(self).error == old(self).error,
            final(self).warning == old(self).warning,
            final(self).text == old(self).text,
            a is Collect,
    {
        self.begin(Mode::Output)
    }

    /// Starts streaming mode: the first action streams the last stage's output.
    pub fn wait_with_pipe(&mut self) -> (a: Action)
        requires
            old(self).phase is Idle,
            old(self).stages.len() > 0,
        ensures
            final(self).wf(),
            final(self).mode is Pipe,
            final(self).phase is Tail,
            final(self).stages == old(self).stages,
            final(self).policy == old(self).policy,
            final(self).error == old(self).error,
            final(self).warning == old(self).warning,
            final(self).text == old(self).text,
            a is Stream,
    {
        self.begin(Mode::Pipe)
    }

    /// The whole pipeline's text, as a shell would show it.
    pub fn full_cmd(&self) -> (r: String)
        ensures
            r@ == joined(self.stages@),
    {
        let mut r = String::new();
        let n = self.stages.len();
        let mut i: usize = 0;
        while i < n
            invariant
                n == self.stages.len(),
                0 <= i <= n,
                r@ == joined(self.stages@.take(i as int)),
            decreases n - i,
        {
            proof {
                assert(self.stages@.take(i as int + 1).drop_last() =~= self.stages@.take(i as int));
            }
            if i > 0 {
                r.append(" | ");
                proof {
                    reveal_strlit(" | ");
                }
            }
            r.append(self.stages[i].command.as_str());
            i = i + 1;
            proof {
                if i == 1 {
                    assert(r@ =~= joined(self.stages@.take(1)));
                }
            }
        }
        proof {
            assert(self.stages@.take(n as int) =~= self.stages@);
        }
        r
    }

    /// The action that the phase asks for.
    pub fn next_action(&self) -> (a: Action)
        ensures
            a == self.pending(),
    {
        match self.phase {
            Phase::Tail => match self.mode {
                Mode::Status => Action::Wait { is_last: true },
                Mode::Output => Action::Collect,
                Mode::Pipe => Action::Stream,
            },
            Phase::Killing => Action::Kill,
            Phase::Rest => Action::Wait { is_last: false },
            _ => Action::Finish,
        }
    }

    /// Takes what the caller observed doing the pending action, and returns
    /// the next one.
    pub fn step(&mut self, event: Event) -> (a: Action)
        requires
            old(self).wf(),
            old(self).accepts(event),
        ensures
            Self::stepped(*old(self), event, *final(self)),
            a == final(self).pending(),
    {
        self.warning = None;
        if self.phase == Phase::Killing {
            self.phase = if self.stages.len() > 0 {
                Phase::Rest
            } else {
                Phase::Done
            };
            return self.next_action();
        }
        let ghost before = self.stages@;
        let is_last = self.phase == Phase::Tail;
        let stage = self.stages.pop().unwrap();
        assert(stage == before.last());
        let kind = stage.kind;
        let verdict = match event {
            Event::Ended(outcome) => Some(settle(stage, outcome, is_last, self.policy)),
            Event::Collected { output, outcome } => {
                self.text = decode_output(output.as_slice());
                Some(settle(stage, outcome, true, self.policy))
            },
            Event::ReadFailed(cause) => Some(
                Verdict::Surfaced(
                    CmdError::Io { operation: IoOp::Read, command: stage.command, cause },
                ),
            ),
            _ => None,
        };
        match verdict {
            Some(Verdict::Surfaced(e)) => {
                if self.mode != Mode::Pipe && self.error.is_none() {
                    self.error = Some(e);
                }
            },
            Some(Verdict::Swallowed { error, log }) => {
                if log {
                    self.warning = Some(error);
                }
            },
            _ => {},
        }
        self.phase = if is_last && self.mode == Mode::Pipe && kind == StageKind::Process {
            Phase::Killing
        } else if self.stages.len() > 0 {
            Phase::Rest
        } else {
            Phase::Done
        };
        self.next_action()
    }

    /// Ends a terminated pipeline with its one result: the first failure that
    /// counts, else the last stage's text (empty unless output was collected).
    pub fn finish(self) -> (r: Result<String, CmdError>)
        requires
            self.phase is Done,
        ensures
            r == self.result(),
    {
        match self.error {
            Some(e) => Err(e),
            None => Ok(self.text),
        }
    }
}

} // verus!
