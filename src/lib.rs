//! Termination engine for pipelines of running stages: processes, tasks and
//! already resolved results, joined by pipes.
//!
//! The engine decides; the caller waits. A `CmdChildren` value tells its
//! caller which stage to wait for next and how, takes back what happened, and
//! applies the shell's failure rules: the last stage always counts, earlier
//! ones count only under pipefail, and a stage marked to ignore errors never
//! counts.
mod stage;
mod output;
mod children;
mod laws;
mod message;

pub use stage::{
    ExitStatus, IoOp, CmdError, StageKind, StageOutcome, Policy, StageInfo, Verdict, settle,
    failure_of, surfaces, verdict_of,
};
pub use output::{
    lossy_text, strip_line_end, collected_text, lemma_collected_text_of_text, trim_line_end, decode_output, lemma_strip_removes_one_terminator,
    lemma_strip_keeps_unterminated, lemma_strip_idempotent,
};
pub use children::{Mode, Phase, Action, Event, CmdChildren, keep_first, pipe_sep, joined};
pub use laws::{
    lemma_single_stage_status, lemma_two_stage_pipefail, lemma_ignored_stage_never_counts,
    lemma_task_error, lemma_first_failure_kept, lemma_stream_kills_producer,
    lemma_stream_keeps_no_status, lemma_output_mode_text, surfaced_error, first_failure, status_run, lemma_status_run,
};
pub use message::{digit_char, digits, decimal, decimal_text, message_of};
