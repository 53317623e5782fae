use declarative_routeros::errors::ExecutionError;
use declarative_routeros::executor::{
    classify, initial_state, next_action, step, CommandOutcome, ExecAction, ExecEvent, ExecState,
    ExecutionResult,
};

/// Drives the machine over the given events, recording every action the
/// machine asked for along the way.
fn drive(events: Vec<ExecEvent>) -> (ExecState, Vec<ExecAction>) {
    let mut state = initial_state();
    let mut actions: Vec<ExecAction> = Vec::new();
    if let Some(a) = next_action(&state) {
        actions.push(a);
    }
    for event in events {
        state = step(state, event);
        if let Some(a) = next_action(&state) {
            actions.push(a);
        }
    }
    (state, actions)
}

fn happy_run(chunks: Vec<&str>, code: i32) -> Vec<ExecEvent> {
    let mut events = vec![ExecEvent::ChannelOpened, ExecEvent::CommandDispatched];
    for chunk in chunks {
        events.push(ExecEvent::OutputChunk { data: chunk.to_string() });
    }
    events.push(ExecEvent::OutputEnd);
    events.push(ExecEvent::ChannelClosed);
    events.push(ExecEvent::ExitStatus { code });
    events
}

#[test]
fn finished_result_holds_all_chunks_in_order() {
    let (state, _) = drive(happy_run(vec!["interface print\n", "ether1 up\n"], 0));
    match state {
        ExecState::Finished { result } => {
            assert_eq!(result.captured_output, "interface print\nether1 up\n");
            assert_eq!(result.exit_code, 0);
        }
        other => panic!("expected a finished state, got {:?}", other),
    }
}

#[test]
fn status_is_requested_only_after_drain_and_close() {
    let (_, actions) = drive(happy_run(vec!["a", "b"], 0));
    let status_at = actions.iter().position(|a| *a == ExecAction::ReadExitStatus).unwrap();
    let last_read_at = actions
        .iter()
        .rposition(|a| *a == ExecAction::ReadOutput)
        .unwrap();
    let close_at = actions.iter().position(|a| *a == ExecAction::WaitForClose).unwrap();
    assert!(last_read_at < close_at);
    assert!(close_at < status_at);
}

#[test]
fn megabyte_output_is_captured_completely() {
    // 1024 chunks of 1024 characters: one megabyte in all.
    let chunk = "x".repeat(1024);
    let mut events = vec![ExecEvent::ChannelOpened, ExecEvent::CommandDispatched];
    for _ in 0..1024 {
        events.push(ExecEvent::OutputChunk { data: chunk.clone() });
    }
    events.push(ExecEvent::OutputEnd);
    events.push(ExecEvent::ChannelClosed);
    events.push(ExecEvent::ExitStatus { code: 0 });
    let (state, _) = drive(events);
    match state {
        ExecState::Finished { result } => {
            assert_eq!(result.captured_output.len(), 1024 * 1024);
            assert!(result.captured_output.chars().all(|c| c == 'x'));
            assert_eq!(result.exit_code, 0);
        }
        other => panic!("expected a finished state, got {:?}", other),
    }
}

#[test]
fn empty_output_is_captured_as_empty_string() {
    let (state, _) = drive(happy_run(vec![], 0));
    match state {
        ExecState::Finished { result } => {
            assert_eq!(result.captured_output, "");
            assert_eq!(result.exit_code, 0);
        }
        other => panic!("expected a finished state, got {:?}", other),
    }
}

#[test]
fn exit_code_zero_classifies_as_success() {
    let result = ExecutionResult { captured_output: "ok\n".to_string(), exit_code: 0 };
    assert_eq!(classify(result), CommandOutcome::Success { output: "ok\n".to_string() });
}

#[test]
fn exit_code_one_classifies_as_remote_failure_with_code_and_output() {
    let result = ExecutionResult { captured_output: "bad arg\n".to_string(), exit_code: 1 };
    assert_eq!(
        classify(result),
        CommandOutcome::RemoteCommandFailed { output: "bad arg\n".to_string(), exit_code: 1 }
    );
}

#[test]
fn exit_code_127_classifies_as_remote_failure_with_code_and_output() {
    let result = ExecutionResult { captured_output: "no such command\n".to_string(), exit_code: 127 };
    assert_eq!(
        classify(result),
        CommandOutcome::RemoteCommandFailed {
            output: "no such command\n".to_string(),
            exit_code: 127,
        }
    );
}

#[test]
fn same_failing_command_twice_reports_identically() {
    let (first, _) = drive(happy_run(vec!["err\n"], 2));
    let (second, _) = drive(happy_run(vec!["err\n"], 2));
    assert_eq!(first, second);
    match (first, second) {
        (ExecState::Finished { result: r1 }, ExecState::Finished { result: r2 }) => {
            assert_eq!(r1.captured_output, "err\n");
            assert_eq!(r1.exit_code, 2);
            assert_eq!(r1, r2);
        }
        _ => panic!("expected two finished states"),
    }
}

#[test]
fn each_io_failure_event_fails_with_its_own_error() {
    let cases: Vec<(Vec<ExecEvent>, ExecutionError)> = vec![
        (vec![ExecEvent::ChannelOpenFailed], ExecutionError::ChannelOpenFailed),
        (
            vec![ExecEvent::ChannelOpened, ExecEvent::DispatchFailed],
            ExecutionError::DispatchFailed,
        ),
        (
            vec![
                ExecEvent::ChannelOpened,
                ExecEvent::CommandDispatched,
                ExecEvent::OutputReadFailed,
            ],
            ExecutionError::OutputReadFailed,
        ),
        (
            vec![
                ExecEvent::ChannelOpened,
                ExecEvent::CommandDispatched,
                ExecEvent::OutputEnd,
                ExecEvent::CloseFailed,
            ],
            ExecutionError::CloseFailed,
        ),
        (
            vec![
                ExecEvent::ChannelOpened,
                ExecEvent::CommandDispatched,
                ExecEvent::OutputEnd,
                ExecEvent::ChannelClosed,
                ExecEvent::StatusReadFailed,
            ],
            ExecutionError::StatusReadFailed,
        ),
    ];
    for (events, expected) in cases {
        let (state, _) = drive(events);
        assert_eq!(state, ExecState::Failed { error: expected });
        assert_eq!(next_action(&state), None);
    }
}

#[test]
fn execution_error_messages_are_fixed_texts() {
    assert_eq!(
        ExecutionError::ChannelOpenFailed.message(),
        "could not open a command channel on the session"
    );
    assert_eq!(
        ExecutionError::OutputReadFailed.message(),
        "reading the command output failed"
    );
    assert_eq!(
        ExecutionError::StatusReadFailed.message(),
        "retrieving the remote exit status failed"
    );
}
