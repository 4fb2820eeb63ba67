use vstd::prelude::*;
use crate::stage::{CmdError, ExitStatus, Policy, StageInfo, StageOutcome, Verdict, failure_of, verdict_of};
use crate::children::{Action, CmdChildren, Event, keep_first};
use crate::output::{strip_line_end, lemma_collected_text_of_text};
use vstd::utf8::encode_utf8;

verus! {

/// A one-stage pipeline in status mode succeeds when its process exits with
/// code zero, and fails with that process's exit failure otherwise.
pub proof fn lemma_single_stage_status(
    pre: CmdChildren,
    status: ExitStatus,
    post: CmdChildren,
)
    requires
        pre.wf(),
        pre.phase is Tail,
        pre.mode is Status,
        pre.stages.len() == 1,
        pre.error is None,
        !pre.stages@[0].ignore_error,
        CmdChildren::stepped(pre, Event::Ended(StageOutcome::Exited(status)), post),
    ensures
        post.phase is Done,
        post.pending() is Finish,
        status.is_success() ==> post.result() == Ok::<String, CmdError>(post.text),
        !status.is_success() ==> post.result() == Err::<String, CmdError>(
            CmdError::StageExit { command: pre.stages@[0].command, status },
        ),
{
}

/// In a two-stage pipeline whose last stage succeeds, the first stage's
/// failure is the pipeline's exactly when pipefail is on (and the stage does
/// not ignore errors); the failure then names the first stage.
pub proof fn lemma_two_stage_pipefail(
    pre: CmdChildren,
    tail_outcome: StageOutcome,
    mid: CmdChildren,
    head_outcome: StageOutcome,
    post: CmdChildren,
)
    requires
        pre.wf(),
        pre.phase is Tail,
        pre.mode is Status,
        pre.stages.len() == 2,
        pre.error is None,
        failure_of(pre.stages@[1].command, tail_outcome) is None,
        !(head_outcome is WaitFailed),
        CmdChildren::stepped(pre, Event::Ended(tail_outcome), mid),
        CmdChildren::stepped(mid, Event::Ended(head_outcome), post),
    ensures
        mid.pending() == (Action::Wait { is_last: false }),
        post.phase is Done,
        !pre.policy.pipefail ==> post.error is None,
        pre.policy.pipefail && !pre.stages@[0].ignore_error ==> post.error == failure_of(
            pre.stages@[0].command,
            head_outcome,
        ),
{
    assert(mid.stages@.last() == pre.stages@[0]);
}

/// A stage before the last one that ignores errors never fails the
/// pipeline, pipefail or not: a step on its outcome leaves the error as it
/// was.
pub proof fn lemma_ignored_stage_never_counts(c: CmdChildren, outcome: StageOutcome)
    requires
        c.wf(),
        c.phase is Rest,
        c.stages@.last().ignore_error,
        !(outcome is WaitFailed),
    ensures
        c.next_error(Event::Ended(outcome)) == c.error,
{
}

/// A task that is the last stage and returns an error fails the pipeline
/// with exactly that error; as an earlier stage without pipefail its error is
/// dropped.
pub proof fn lemma_task_error(c: CmdChildren, e: CmdError)
    requires
        c.wf(),
        c.mode is Status,
        c.error is None,
        !c.stages@.last().ignore_error,
        c.stages@.last().kind is Task,
    ensures
        c.phase is Tail ==> c.next_error(Event::Ended(StageOutcome::Returned(Err(e)))) == Some(e),
        c.phase is Rest && !c.policy.pipefail ==> c.next_error(
            Event::Ended(StageOutcome::Returned(Err(e))),
        ) is None,
{
}

/// Once a failure is the pipeline's, later steps keep it: the result is the
/// first failure found, last stage first.
pub proof fn lemma_first_failure_kept(pre: CmdChildren, event: Event, post: CmdChildren)
    requires
        pre.error is Some,
        CmdChildren::stepped(pre, event, post),
    ensures
        post.error == pre.error,
{
}

/// When a consumer returns from a streamed process, the next action kills it,
/// however much of its output was read; streaming never records a failure.
pub proof fn lemma_stream_kills_producer(pre: CmdChildren, post: CmdChildren)
    requires
        pre.wf(),
        pre.phase is Tail,
        pre.mode is Pipe,
        pre.stages@.last().kind is Process,
        CmdChildren::stepped(pre, Event::Consumed, post),
    ensures
        post.pending() is Kill,
        post.error == pre.error,
{
}

/// Streaming mode keeps no status: whatever a stage reports, the error stays
/// as it was.
pub proof fn lemma_stream_keeps_no_status(pre: CmdChildren, event: Event, post: CmdChildren)
    requires
        pre.mode is Pipe,
        CmdChildren::stepped(pre, event, post),
    ensures
        post.error == pre.error,
{
}

/// In output mode, when the last stage writes the bytes of a text `t`, the
/// collected text is `t` without one trailing line feed: exactly that one
/// when there is one, and `t` unchanged when there is none.
pub proof fn lemma_output_mode_text(
    pre: CmdChildren,
    t: Seq<char>,
    output: Vec<u8>,
    outcome: StageOutcome,
    post: CmdChildren,
)
    requires
        pre.wf(),
        pre.phase is Tail,
        pre.mode is Output,
        output@ == encode_utf8(t),
        CmdChildren::stepped(pre, Event::Collected { output, outcome }, post),
    ensures
        post.text@ == strip_line_end(t),
        t.len() > 0 && t.last() == '\n' ==> post.text@.push('\n') == t,
        !(t.len() > 0 && t.last() == '\n') ==> post.text@ == t,
{
    lemma_collected_text_of_text(t);
}

/// The failure that a verdict makes the pipeline's, if any.
pub open spec fn surfaced_error(v: Verdict) -> Option<CmdError> {
    match v {
        Verdict::Surfaced(e) => Some(e),
        _ => None,
    }
}

/// The pipeline's failure once the last `k` of `stages` have ended, the
/// last stage first; `outcomes[i]` is how the stage `i` places from the end
/// ended.
pub open spec fn first_failure(
    stages: Seq<StageInfo>,
    outcomes: Seq<StageOutcome>,
    policy: Policy,
    k: nat,
) -> Option<CmdError>
    decreases k,
{
    if k == 0 {
        None
    } else {
        let n = stages.len() as int;
        keep_first(
            first_failure(stages, outcomes, policy, (k - 1) as nat),
            surfaced_error(
                verdict_of(stages[n - k], outcomes[k - 1], k == 1, policy),
            ),
        )
    }
}

/// `states` is a run of status mode that took `outcomes` in turn.
pub open spec fn status_run(states: Seq<CmdChildren>, outcomes: Seq<StageOutcome>) -> bool {
    &&& states.len() == outcomes.len() + 1
    &&& outcomes.len() == states[0].stages.len()
    &&& states[0].wf()
    &&& states[0].phase is Tail
    &&& states[0].mode is Status
    &&& states[0].error is None
    &&& forall|i: int|
        0 <= i < outcomes.len() ==> #[trigger] CmdChildren::stepped(
            states[i],
            Event::Ended(outcomes[i]),
            states[i + 1],
        )
}

proof fn lemma_status_run_prefix(states: Seq<CmdChildren>, outcomes: Seq<StageOutcome>, k: nat)
    requires
        status_run(states, outcomes),
        k <= outcomes.len(),
    ensures
        states[k as int].stages@ == states[0].stages@.take(outcomes.len() - k),
        states[k as int].error == first_failure(states[0].stages@, outcomes, states[0].policy, k),
        states[k as int].policy == states[0].policy,
        states[k as int].mode is Status,
        k == 0 ==> states[k as int].phase is Tail,
        0 < k < outcomes.len() ==> states[k as int].phase is Rest,
        k == outcomes.len() ==> states[k as int].phase is Done,
    decreases k,
{
    let n = outcomes.len() as int;
    let s0 = states[0].stages@;
    if k == 0 {
        assert(s0.take(n) =~= s0);
    } else {
        let j = k - 1;
        lemma_status_run_prefix(states, outcomes, j as nat);
        let pre = states[j];
        assert(CmdChildren::stepped(pre, Event::Ended(outcomes[j]), states[j + 1]));
        assert(pre.stages@.last() == s0[n - k]);
        assert(pre.stages@.drop_last() =~= s0.take(n - k));
    }
}

/// A status-mode run ends with every stage drained, and reports the first
/// failure that counts, the last stage first, or success when there is none.
pub proof fn lemma_status_run(states: Seq<CmdChildren>, outcomes: Seq<StageOutcome>)
    requires
        status_run(states, outcomes),
    ensures
        states.last().phase is Done,
        states.last().stages.len() == 0,
        states.last().error == first_failure(
            states[0].stages@,
            outcomes,
            states[0].policy,
            outcomes.len(),
        ),
{
    lemma_status_run_prefix(states, outcomes, outcomes.len());
}

} // verus!
