use acp::delegate::{
    after_create_directory, after_write, begin_write, check_read_path, launch_terminal,
    next_read_step, next_write_step, read_text_file, AutoDenyPermissionResolver, DirectoryOutcome,
    LocalAcpDelegate, PermissionOutcome, PermissionResolver, ReadProgress, TerminalRequest,
    WriteProgress, WriteStep,
};
use acp::lines::slice_lines;
use acp::terminal::{
    exit_status_to_acp, output_byte_limit, truncate_to_byte_limit, ExitPoll, LineRead,
    TerminalState, WaitStep, DEFAULT_TERMINAL_OUTPUT_BYTE_LIMIT,
};
use acp::transport::StreamSetup;
use agent_client_protocol_schema::v1 as schema;

fn permission_request() -> schema::RequestPermissionRequest {
    schema::RequestPermissionRequest::new(
        "test-session",
        schema::ToolCallUpdate::new("tool-1", schema::ToolCallUpdateFields::default()),
        Vec::new(),
    )
}

fn delegate() -> LocalAcpDelegate<AutoDenyPermissionResolver, u32> {
    LocalAcpDelegate::new(AutoDenyPermissionResolver)
}

#[test]
fn slice_lines_defaults_to_full_contents() {
    assert_eq!(slice_lines("a\nb\nc", None, None), "a\nb\nc");
}

#[test]
fn slice_lines_applies_one_based_start_line() {
    assert_eq!(slice_lines("a\nb\nc", Some(2), None), "b\nc");
    assert_eq!(slice_lines("a\nb\nc", Some(1), None), "a\nb\nc");
}

#[test]
fn slice_lines_applies_limit() {
    assert_eq!(slice_lines("a\nb\nc", None, Some(2)), "a\nb");
    assert_eq!(slice_lines("a\nb\nc", Some(2), Some(1)), "b");
    assert_eq!(slice_lines("a\nb\nc", Some(10), Some(2)), "");
}

#[test]
fn slice_lines_matches_the_lines_of_std() {
    for contents in ["", "\n", "a", "a\n", "a\r\nb", "a\n\nb\r\n", "a\r", "\r\n\r\n", "ä\nß\n☃"] {
        for line in [None, Some(0), Some(1), Some(2), Some(3), Some(9)] {
            for limit in [None, Some(0), Some(1), Some(2), Some(9)] {
                if line.is_none() && limit.is_none() {
                    assert_eq!(slice_lines(contents, line, limit), contents);
                    continue;
                }
                let skip = line.map(|l: u32| l.saturating_sub(1) as usize).unwrap_or(0);
                let expected = contents
                    .lines()
                    .skip(skip)
                    .take(limit.map(|l: u32| l as usize).unwrap_or(usize::MAX))
                    .collect::<Vec<_>>()
                    .join("\n");
                assert_eq!(slice_lines(contents, line, limit), expected);
            }
        }
    }
}

#[test]
fn pages_of_a_file_fit_together() {
    let contents = "one\ntwo\nthree\nfour\nfive";
    let first = slice_lines(contents, Some(2), Some(2));
    let second = slice_lines(contents, Some(4), None);
    assert_eq!(format!("{first}\n{second}"), slice_lines(contents, Some(2), None));
}

#[test]
fn truncate_keeps_suffix_within_limit() {
    let mut output = "abcdefgh".to_string();
    truncate_to_byte_limit(&mut output, 3);
    assert_eq!(output, "fgh");
}

#[test]
fn truncate_respects_char_boundaries() {
    // Each snowman is 3 bytes; a 4-byte budget cannot start mid-character,
    // so only the final full character survives.
    let mut output = "☃☃☃".to_string();
    truncate_to_byte_limit(&mut output, 4);
    assert_eq!(output, "☃");
}

#[test]
fn truncate_noop_when_under_limit() {
    let mut output = "abc".to_string();
    truncate_to_byte_limit(&mut output, 10);
    assert_eq!(output, "abc");
}

#[test]
fn truncate_to_nothing() {
    let mut output = "☃".to_string();
    truncate_to_byte_limit(&mut output, 2);
    assert_eq!(output, "");
    let mut output = "abc".to_string();
    truncate_to_byte_limit(&mut output, 0);
    assert_eq!(output, "");
}

#[test]
fn output_limits_default_to_a_mebibyte() {
    assert_eq!(DEFAULT_TERMINAL_OUTPUT_BYTE_LIMIT, 1024 * 1024);
    assert_eq!(output_byte_limit(None), 1024 * 1024);
    assert_eq!(output_byte_limit(Some(7)), 7);
    assert_eq!(output_byte_limit(Some(u64::MAX)), usize::MAX);
}

#[test]
fn retained_output_is_the_tail_of_what_was_printed() {
    let mut state = TerminalState::new(6);
    assert!(state.take_line(LineRead::Line("abc\n".to_string())));
    assert!(!state.terminal_output().truncated);
    assert!(state.take_line(LineRead::Line("def\n".to_string())));
    assert!(!state.take_line(LineRead::Closed));
    assert!(!state.take_line(LineRead::Failed));
    let answer = state.terminal_output();
    assert_eq!(answer.output, "c\ndef\n");
    assert!(answer.truncated);
    assert!(answer.exit_status.is_none());
}

#[test]
fn truncation_is_remembered() {
    let mut state = TerminalState::new(2);
    state.push_output("abc");
    state.push_output("");
    assert!(state.terminal_output().truncated);
    assert_eq!(state.terminal_output().output, "bc");
}

#[test]
fn exit_status_is_recorded_once() {
    let mut state = TerminalState::new(10);
    assert!(state.awaits_exit());
    state.check_exit(ExitPoll::Running);
    assert!(matches!(
        state.wait_for_terminal_exit(),
        WaitStep::PollAgain { after_millis: 50 }
    ));
    state.check_exit(ExitPoll::Exited { code: Some(0), signal: None });
    assert!(!state.awaits_exit());
    state.check_exit(ExitPoll::Exited { code: Some(1), signal: None });
    let WaitStep::Exited(status) = state.wait_for_terminal_exit() else {
        panic!("expected an exit status");
    };
    assert_eq!(status.exit_code, Some(0));
    assert_eq!(status.signal, None);
}

#[test]
fn exit_statuses_carry_code_or_signal() {
    let exited = exit_status_to_acp(Some(3), None);
    assert_eq!(exited.exit_code, Some(3));
    assert_eq!(exited.signal, None);
    let negative = exit_status_to_acp(Some(-1), None);
    assert_eq!(negative.exit_code, None);
    let killed = exit_status_to_acp(None, Some(15));
    assert_eq!(killed.exit_code, None);
    assert_eq!(killed.signal.as_deref(), Some("15"));
    let odd = exit_status_to_acp(None, Some(-2147483648));
    assert_eq!(odd.signal.as_deref(), Some("-2147483648"));
}

#[test]
fn unknown_terminal_errors() {
    let delegate = delegate();
    let result = delegate.terminal_parts("nope");
    assert!(result.is_err());
    assert_eq!(result.unwrap_err(), "Unknown terminal: nope");
}

#[test]
fn terminals_live_until_they_are_released() {
    let mut delegate = delegate();
    let first = delegate.create_terminal::<()>("ls", Ok(1)).expect("created");
    let second = delegate.create_terminal::<()>("ls", Ok(2)).expect("created");
    assert_ne!(first, second);
    assert_eq!(delegate.terminal_parts(&first), Ok(&1));
    assert_eq!(delegate.terminal_parts(&second), Ok(&2));
    assert_eq!(delegate.release_terminal(&first), Some(1));
    assert_eq!(delegate.release_terminal(&first), None);
    assert!(delegate.terminal_parts(&first).is_err());
    assert_eq!(delegate.terminal_parts(&second), Ok(&2));
}

#[test]
fn terminal_ids_are_version_4_uuids() {
    let mut delegate = delegate();
    let id = delegate.add_terminal(7);
    assert_eq!(id.len(), 36);
    let parsed = uuid::Uuid::parse_str(&id).expect("a UUID");
    assert_eq!(parsed.get_version_num(), 4);
    assert_eq!(parsed.to_string(), id);
}

#[test]
fn terminals_that_cannot_be_spawned_are_reported() {
    let mut delegate = delegate();
    assert_eq!(
        delegate.create_terminal("/bin/none", Err(())),
        Err("Failed to spawn terminal command /bin/none".to_string())
    );
}

#[test]
fn terminal_launch_follows_the_request() {
    let launch = launch_terminal(TerminalRequest {
        command: "/bin/echo".to_string(),
        args: vec!["hello".to_string(), "acp".to_string()],
        env: vec![("A".to_string(), "1".to_string())],
        cwd: None,
        output_byte_limit: Some(5),
    });
    assert_eq!(launch.program, "/bin/echo");
    assert_eq!(launch.args, vec!["hello", "acp"]);
    assert_eq!(launch.env, vec![("A".to_string(), "1".to_string())]);
    assert_eq!(launch.current_dir, None);
    assert_eq!(launch.stdin, StreamSetup::Null);
    assert_eq!(launch.stdout, StreamSetup::Piped);
    assert_eq!(launch.stderr, StreamSetup::Piped);
    let mut state = launch.state;
    state.push_output("hello acp\n");
    assert_eq!(state.terminal_output().output, " acp\n");
}

#[test]
fn write_then_read_round_trips() {
    let written = "line1\nline2\nline3";
    assert_eq!(begin_write(true, true), Ok(WriteStep::CreateDirectory));
    assert_eq!(after_create_directory("/tmp/nested", DirectoryOutcome::Created), Ok(()));
    assert_eq!(after_write("/tmp/nested/file.txt", true), Ok(()));
    assert_eq!(check_read_path(true), Ok(()));
    assert_eq!(
        read_text_file::<()>("/tmp/nested/file.txt", Ok(written.to_string()), None, None),
        Ok("line1\nline2\nline3".to_string())
    );
}

#[test]
fn read_applies_line_and_limit() {
    assert_eq!(
        read_text_file::<()>("/tmp/file.txt", Ok("a\nb\nc\nd".to_string()), Some(2), Some(2)),
        Ok("b\nc".to_string())
    );
}

#[test]
fn relative_paths_are_rejected() {
    assert_eq!(
        check_read_path(false),
        Err("fs/read_text_file path must be absolute".to_string())
    );
    assert_eq!(
        begin_write(false, true),
        Err("fs/write_text_file path must be absolute".to_string())
    );
}

#[test]
fn file_failures_are_reported() {
    assert_eq!(
        read_text_file("/tmp/none", Err(()), None, None),
        Err("Failed to read /tmp/none".to_string())
    );
    assert_eq!(begin_write(true, false), Ok(WriteStep::Write));
    assert_eq!(after_create_directory("/tmp", DirectoryOutcome::AlreadyExists), Ok(()));
    assert_eq!(
        after_create_directory("/root/x", DirectoryOutcome::Failed),
        Err("Failed to create /root/x".to_string())
    );
    assert_eq!(
        after_write("/root/x/y", false),
        Err("Failed to write /root/x/y".to_string())
    );
}

#[test]
fn permission_defaults_to_cancelled() {
    let delegate = delegate();
    let outcome = delegate
        .request_permission(permission_request())
        .expect("request_permission failed");
    assert!(matches!(outcome, PermissionOutcome::Cancelled));
}

struct Failing;

impl PermissionResolver for Failing {
    fn resolve(
        &self,
        _request: &schema::RequestPermissionRequest,
    ) -> Result<PermissionOutcome, String> {
        Err("no user".to_string())
    }
}

#[test]
fn resolver_failures_are_passed_on() {
    let delegate: LocalAcpDelegate<Failing, ()> = LocalAcpDelegate::new(Failing);
    let outcome = delegate.request_permission(permission_request());
    assert!(matches!(outcome, Err(message) if message == "no user"));
}

#[test]
fn pages_join_to_the_text() {
    let contents = "a\r\nb\n\nd\n";
    let text = slice_lines(contents, Some(1), None);
    assert_eq!(text, "a\nb\n\nd");
    let page = slice_lines(contents, Some(1), Some(3));
    let rest = slice_lines(contents, Some(4), None);
    assert_eq!(format!("{page}\n{rest}"), text);
    assert_eq!(slice_lines(contents, Some(1), Some(4)), text);
    assert_eq!(slice_lines(contents, Some(5), None), "");
}

#[test]
fn polls_leave_the_output_alone() {
    let mut state = TerminalState::new(4);
    state.push_output("ab");
    state.check_exit(ExitPoll::Running);
    state.push_output("cd");
    state.check_exit(ExitPoll::Exited { code: Some(2), signal: None });
    state.push_output("ef");
    state.check_exit(ExitPoll::Exited { code: Some(3), signal: None });
    let answer = state.terminal_output();
    assert_eq!(answer.output, "cdef");
    assert!(answer.truncated);
    assert_eq!(answer.exit_status.unwrap().exit_code, Some(2));
}

#[test]
fn reads_go_step_by_step() {
    assert!(matches!(
        next_read_step::<()>("/a", true, None, None, None),
        ReadProgress::ReadFile
    ));
    assert!(matches!(
        next_read_step::<()>("/a", true, Some(Ok("x\ny".to_string())), Some(2), None),
        ReadProgress::Answered(Ok(text)) if text == "y"
    ));
    assert!(matches!(
        next_read_step("/a", true, Some(Err(())), None, None),
        ReadProgress::Answered(Err(message)) if message == "Failed to read /a"
    ));
    for contents in [None, Some(Ok("x".to_string())), Some(Err(()))] {
        assert!(matches!(
            next_read_step("relative/path.txt", false, contents, None, None),
            ReadProgress::Answered(Err(message))
                if message == "fs/read_text_file path must be absolute"
        ));
    }
}

#[test]
fn writes_go_step_by_step() {
    let made = Some(DirectoryOutcome::Created);
    let failed = Some(DirectoryOutcome::Failed);
    let parent = Some("/d");
    assert!(matches!(
        next_write_step("/d/a", true, parent, None, None),
        WriteProgress::CreateDirectory
    ));
    assert!(matches!(
        next_write_step("/d/a", true, parent, made, None),
        WriteProgress::WriteFile
    ));
    assert!(matches!(
        next_write_step("/d/a", true, parent, made, Some(true)),
        WriteProgress::Answered(Ok(()))
    ));
    assert!(matches!(
        next_write_step("/d/a", true, parent, failed, Some(true)),
        WriteProgress::Answered(Err(message)) if message == "Failed to create /d"
    ));
    assert!(matches!(
        next_write_step("/d/a", true, parent, made, Some(false)),
        WriteProgress::Answered(Err(message)) if message == "Failed to write /d/a"
    ));
    assert!(matches!(
        next_write_step("/", true, None, None, None),
        WriteProgress::WriteFile
    ));
    assert!(matches!(
        next_write_step("a", false, parent, made, Some(true)),
        WriteProgress::Answered(Err(message))
            if message == "fs/write_text_file path must be absolute"
    ));
}
