use cmd_lib::{
    decimal_text, decode_output, settle, trim_line_end, Action, CmdChildren, CmdError, Event, ExitStatus, IoOp,
    Phase, Policy, StageInfo, StageKind, StageOutcome, Verdict,
};

fn stage(command: &str, kind: StageKind, ignore_error: bool) -> StageInfo {
    StageInfo { command: command.to_string(), kind, ignore_error }
}

fn policy(pipefail: bool, debug: bool) -> Policy {
    Policy { pipefail, debug }
}

fn exit_code(err: &CmdError) -> Option<i32> {
    match err {
        CmdError::StageExit { status: ExitStatus::Code(c), .. } => Some(*c),
        _ => None,
    }
}

fn command_of(err: &CmdError) -> String {
    match err {
        CmdError::StageExit { command, .. } => command.clone(),
        CmdError::Join { command, .. } => command.clone(),
        CmdError::Io { command, .. } => command.clone(),
        CmdError::Task { command, .. } => command.clone(),
    }
}

/// Runs status mode on `stages` with one outcome per stage, last stage first.
fn run_status(stages: Vec<StageInfo>, p: Policy, outcomes: Vec<StageOutcome>) -> Result<String, CmdError> {
    let mut c = CmdChildren::from(stages, p);
    let mut action = c.wait_cmd_result();
    for o in outcomes {
        assert!(matches!(action, Action::Wait { .. }));
        action = c.step(Event::Ended(o));
    }
    assert_eq!(action, Action::Finish);
    c.finish()
}

#[test]
fn single_stage_exit_zero_succeeds() {
    let r = run_status(
        vec![stage("true", StageKind::Process, false)],
        policy(true, false),
        vec![StageOutcome::Exited(ExitStatus::Code(0))],
    );
    assert_eq!(r.unwrap(), "");
}

#[test]
fn single_stage_nonzero_exit_fails_with_code() {
    let r = run_status(
        vec![stage("false", StageKind::Process, false)],
        policy(false, false),
        vec![StageOutcome::Exited(ExitStatus::Code(3))],
    );
    let e = r.unwrap_err();
    assert_eq!(exit_code(&e), Some(3));
    assert_eq!(command_of(&e), "false");
}

#[test]
fn single_stage_killed_by_signal_fails() {
    let r = run_status(
        vec![stage("sleep 9", StageKind::Process, false)],
        policy(false, false),
        vec![StageOutcome::Exited(ExitStatus::Signal {
            number: 9,
            shown: "signal: 9 (SIGKILL)".to_string(),
        })],
    );
    let e = r.unwrap_err();
    assert!(matches!(e, CmdError::StageExit { status: ExitStatus::Signal { number: 9, .. }, .. }));
    assert_eq!(e.message(), "sleep 9 exited with error; terminated by signal: 9 (SIGKILL)");
}

#[test]
fn head_failure_without_pipefail_is_dropped() {
    let r = run_status(
        vec![stage("false", StageKind::Process, false), stage("wc", StageKind::Process, false)],
        policy(false, false),
        vec![StageOutcome::Exited(ExitStatus::Code(0)), StageOutcome::Exited(ExitStatus::Code(1))],
    );
    assert!(r.is_ok());
}

#[test]
fn head_failure_with_pipefail_names_head() {
    let r = run_status(
        vec![stage("false", StageKind::Process, false), stage("wc", StageKind::Process, false)],
        policy(true, false),
        vec![StageOutcome::Exited(ExitStatus::Code(0)), StageOutcome::Exited(ExitStatus::Code(1))],
    );
    let e = r.unwrap_err();
    assert_eq!(command_of(&e), "false");
    assert_eq!(exit_code(&e), Some(1));
}

#[test]
fn ignored_head_failure_with_pipefail_is_dropped() {
    let r = run_status(
        vec![stage("ls /x", StageKind::Process, true), stage("wc", StageKind::Process, false)],
        policy(true, false),
        vec![StageOutcome::Exited(ExitStatus::Code(0)), StageOutcome::Exited(ExitStatus::Code(2))],
    );
    assert!(r.is_ok());
}

#[test]
fn tail_failure_wins_over_head_failure() {
    let r = run_status(
        vec![stage("a", StageKind::Process, false), stage("b", StageKind::Process, false)],
        policy(true, false),
        vec![StageOutcome::Exited(ExitStatus::Code(4)), StageOutcome::Exited(ExitStatus::Code(5))],
    );
    let e = r.unwrap_err();
    assert_eq!(command_of(&e), "b");
    assert_eq!(exit_code(&e), Some(4));
}

#[test]
fn every_stage_is_drained_after_a_failure() {
    let mut c = CmdChildren::from(
        vec![
            stage("a", StageKind::Process, false),
            stage("b", StageKind::Process, false),
            stage("c", StageKind::Process, false),
        ],
        policy(true, false),
    );
    assert_eq!(c.wait_cmd_result(), Action::Wait { is_last: true });
    let a = c.step(Event::Ended(StageOutcome::Exited(ExitStatus::Code(1))));
    assert_eq!(a, Action::Wait { is_last: false });
    let a = c.step(Event::Ended(StageOutcome::Exited(ExitStatus::Code(2))));
    assert_eq!(a, Action::Wait { is_last: false });
    let a = c.step(Event::Ended(StageOutcome::Exited(ExitStatus::Code(0))));
    assert_eq!(a, Action::Finish);
    assert_eq!(c.phase, Phase::Done);
    assert_eq!(exit_code(&c.finish().unwrap_err()), Some(1));
}

#[test]
fn task_tail_error_is_surfaced_exactly() {
    let err = CmdError::Task { command: "my_cmd".to_string(), message: "boom".to_string() };
    let r = run_status(
        vec![stage("my_cmd", StageKind::Task, false)],
        policy(false, false),
        vec![StageOutcome::Returned(Err(err))],
    );
    match r {
        Err(CmdError::Task { command, message }) => {
            assert_eq!(command, "my_cmd");
            assert_eq!(message, "boom");
        }
        other => panic!("unexpected {:?}", other),
    }
}

#[test]
fn task_head_error_without_pipefail_is_dropped() {
    let err = CmdError::Task { command: "my_cmd".to_string(), message: "boom".to_string() };
    let r = run_status(
        vec![stage("my_cmd", StageKind::Task, false), stage("wc", StageKind::Process, false)],
        policy(false, false),
        vec![StageOutcome::Exited(ExitStatus::Code(0)), StageOutcome::Returned(Err(err))],
    );
    assert!(r.is_ok());
}

#[test]
fn join_failure_is_its_own_kind() {
    let r = run_status(
        vec![stage("my_cmd", StageKind::Task, false)],
        policy(false, false),
        vec![StageOutcome::JoinFailed("panicked".to_string())],
    );
    assert!(matches!(r, Err(CmdError::Join { ref cause, .. }) if cause == "panicked"));
}

#[test]
fn wait_failure_is_never_dropped() {
    let r = run_status(
        vec![stage("a", StageKind::Process, true), stage("b", StageKind::Process, false)],
        policy(false, false),
        vec![StageOutcome::Exited(ExitStatus::Code(0)), StageOutcome::WaitFailed("gone".to_string())],
    );
    assert!(matches!(r, Err(CmdError::Io { operation: IoOp::Wait, .. })));
}

#[test]
fn immediate_stage_always_passes() {
    let r = run_status(
        vec![stage("echo xx", StageKind::Immediate, false)],
        policy(true, false),
        vec![StageOutcome::Resolved],
    );
    assert!(r.is_ok());
}

#[test]
fn dropped_failure_is_logged_only_in_debug() {
    let s = stage("false", StageKind::Process, false);
    let quiet = settle(s.clone(), StageOutcome::Exited(ExitStatus::Code(1)), false, policy(false, false));
    assert!(matches!(quiet, Verdict::Swallowed { log: false, .. }));
    let loud = settle(s, StageOutcome::Exited(ExitStatus::Code(1)), false, policy(false, true));
    assert!(matches!(loud, Verdict::Swallowed { log: true, .. }));

    let mut c = CmdChildren::from(
        vec![stage("false", StageKind::Process, false), stage("wc", StageKind::Process, false)],
        policy(false, true),
    );
    c.wait_cmd_result();
    c.step(Event::Ended(StageOutcome::Exited(ExitStatus::Code(0))));
    assert!(c.warning.is_none());
    c.step(Event::Ended(StageOutcome::Exited(ExitStatus::Code(1))));
    assert_eq!(c.warning.as_ref().and_then(exit_code), Some(1));
    assert!(c.finish().is_ok());
}

#[test]
fn output_mode_strips_one_line_feed() {
    let mut c = CmdChildren::from(
        vec![stage("echo", StageKind::Process, false), stage("sed", StageKind::Process, false)],
        policy(true, false),
    );
    assert_eq!(c.wait_fun_result(), Action::Collect);
    let a = c.step(Event::Collected {
        output: b"hello, cmd_lib1\n".to_vec(),
        outcome: StageOutcome::Exited(ExitStatus::Code(0)),
    });
    assert_eq!(a, Action::Wait { is_last: false });
    let a = c.step(Event::Ended(StageOutcome::Exited(ExitStatus::Code(0))));
    assert_eq!(a, Action::Finish);
    assert_eq!(c.finish().unwrap(), "hello, cmd_lib1");
}

#[test]
fn output_mode_tail_failure_wins() {
    let mut c = CmdChildren::from(vec![stage("ls /x", StageKind::Process, false)], policy(false, false));
    c.wait_fun_result();
    let a = c.step(Event::Collected { output: vec![], outcome: StageOutcome::Exited(ExitStatus::Code(2)) });
    assert_eq!(a, Action::Finish);
    assert_eq!(exit_code(&c.finish().unwrap_err()), Some(2));
}

#[test]
fn output_mode_ignored_tail_failure_keeps_text() {
    let mut c = CmdChildren::from(vec![stage("ls /x", StageKind::Process, true)], policy(true, false));
    c.wait_fun_result();
    c.step(Event::Collected { output: b"part".to_vec(), outcome: StageOutcome::Exited(ExitStatus::Code(2)) });
    assert_eq!(c.finish().unwrap(), "part");
}

#[test]
fn output_mode_read_failure() {
    let mut c = CmdChildren::from(vec![stage("cat", StageKind::Process, false)], policy(true, false));
    c.wait_fun_result();
    c.step(Event::ReadFailed("broken pipe".to_string()));
    match c.finish() {
        Err(CmdError::Io { operation, command, cause }) => {
            assert_eq!(operation, IoOp::Read);
            assert_eq!(command, "cat");
            assert_eq!(cause, "broken pipe");
        }
        other => panic!("unexpected {:?}", other),
    }
}

#[test]
fn strips_exactly_one_terminator() {
    assert_eq!(decode_output(b"xx\n"), "xx");
    assert_eq!(decode_output(b"xx\n\n"), "xx\n");
    assert_eq!(decode_output(b"xx"), "xx");
    assert_eq!(decode_output(b""), "");
    assert_eq!(decode_output(b"\n"), "");
    assert_eq!(trim_line_end(trim_line_end("xx".to_string())), "xx");
    assert_eq!(trim_line_end("a\u{4f60}\n".to_string()), "a\u{4f60}");
}

#[test]
fn decoding_replaces_invalid_bytes() {
    assert_eq!(decode_output(&[0x61, 0xff, 0x0a]), "a\u{fffd}");
}

#[test]
fn streaming_kills_a_process_tail() {
    let mut c = CmdChildren::from(
        vec![stage("yes", StageKind::Process, false), stage("head", StageKind::Process, false)],
        policy(true, false),
    );
    assert_eq!(c.wait_with_pipe(), Action::Stream);
    assert_eq!(c.step(Event::Consumed), Action::Kill);
    assert_eq!(c.step(Event::Killed), Action::Wait { is_last: false });
    assert_eq!(c.step(Event::Ended(StageOutcome::Exited(ExitStatus::Signal {
        number: 13,
        shown: "signal: 13 (SIGPIPE)".to_string(),
    }))), Action::Finish);
    assert_eq!(c.finish().unwrap(), "");
}

#[test]
fn streaming_an_immediate_tail_needs_no_kill() {
    let mut c = CmdChildren::from(vec![stage("echo", StageKind::Immediate, false)], policy(true, false));
    assert_eq!(c.wait_with_pipe(), Action::Stream);
    assert_eq!(c.step(Event::Consumed), Action::Finish);
    assert!(c.finish().is_ok());
}

#[test]
fn full_command_text() {
    let c = CmdChildren::from(
        vec![
            stage("echo xx", StageKind::Immediate, false),
            stage("wc", StageKind::Process, false),
            stage("wc -l", StageKind::Process, false),
        ],
        policy(true, false),
    );
    assert_eq!(c.full_cmd(), "echo xx | wc | wc -l");
    let one = CmdChildren::from(vec![stage("ls", StageKind::Process, false)], policy(true, false));
    assert_eq!(one.full_cmd(), "ls");
}

#[test]
fn decimal_rendering() {
    assert_eq!(decimal_text(0), "0");
    assert_eq!(decimal_text(7), "7");
    assert_eq!(decimal_text(10), "10");
    assert_eq!(decimal_text(-42), "-42");
    assert_eq!(decimal_text(i32::MAX), "2147483647");
    assert_eq!(decimal_text(i32::MIN), "-2147483648");
}

#[test]
fn failure_messages_name_stage_and_cause() {
    let exit = CmdError::StageExit { command: "false".to_string(), status: ExitStatus::Code(1) };
    assert_eq!(exit.message(), "false exited with error; status code: 1");
    let sig = CmdError::StageExit {
        command: "yes".to_string(),
        status: ExitStatus::Signal { number: 9, shown: "signal: 9 (SIGKILL)".to_string() },
    };
    assert_eq!(sig.message(), "yes exited with error; terminated by signal: 9 (SIGKILL)");
    let join = CmdError::Join { command: "my_cmd".to_string(), cause: "panic".to_string() };
    assert_eq!(join.message(), "my_cmd thread joined with error: panic");
    let wait = CmdError::Io { operation: IoOp::Wait, command: "ls".to_string(), cause: "gone".to_string() };
    assert_eq!(wait.message(), "waiting for ls failed: gone");
    let read = CmdError::Io { operation: IoOp::Read, command: "cat".to_string(), cause: "eof".to_string() };
    assert_eq!(read.message(), "reading the output of cat failed: eof");
    let task = CmdError::Task { command: "my_cmd".to_string(), message: "bad args".to_string() };
    assert_eq!(task.message(), "bad args");
}

#[test]
fn output_of_text_bytes_loses_one_line_feed() {
    let p = "a\u{4f60}\u{597d} b";
    let with_one = format!("{}\n", p);
    let with_two = format!("{}\n\n", p);
    assert_eq!(decode_output(with_one.as_bytes()), p);
    assert_eq!(decode_output(with_two.as_bytes()), format!("{}\n", p));
    assert_eq!(decode_output(p.as_bytes()), p);
    let once = decode_output(with_one.as_bytes());
    assert_eq!(decode_output(once.as_bytes()), once);
}
