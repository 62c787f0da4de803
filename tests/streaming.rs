use dock_control::invoker::RuntimeError;
use dock_control::streaming::{
    build_args, exec_args, logs_args, next_action, StreamAction, StreamEvent, StreamKind,
};

fn run_build(lines: &[&str], exit_ok: bool) -> (Vec<(String, String)>, Result<String, RuntimeError>) {
    let mut emitted = Vec::new();
    for l in lines {
        match next_action(StreamKind::Build, StreamEvent::Line(l.to_string())) {
            StreamAction::Emit { channel, line } => emitted.push((channel, line)),
            other => panic!("unexpected {:?}", other),
        }
    }
    assert!(matches!(next_action(StreamKind::Build, StreamEvent::Closed), StreamAction::AwaitExit));
    match next_action(StreamKind::Build, StreamEvent::Exited(exit_ok)) {
        StreamAction::Finish(r) => (emitted, r),
        other => panic!("unexpected {:?}", other),
    }
}

#[test]
fn build_forwards_lines_in_order_and_succeeds_on_zero_exit() {
    let (emitted, r) = run_build(&["Step 1/3", "Step 2/3", "Step 3/3"], true);
    assert_eq!(
        emitted,
        vec![
            ("build-log".to_string(), "Step 1/3".to_string()),
            ("build-log".to_string(), "Step 2/3".to_string()),
            ("build-log".to_string(), "Step 3/3".to_string()),
        ]
    );
    assert_eq!(r.unwrap(), "Build completed successfully");
}

#[test]
fn build_with_failed_exit_emits_the_same_lines_and_fails() {
    let (emitted, r) = run_build(&["Step 1/3", "Step 2/3", "Step 3/3"], false);
    assert_eq!(emitted.len(), 3);
    assert_eq!(emitted[2].1, "Step 3/3");
    let e = r.unwrap_err();
    assert!(matches!(e, RuntimeError::BuildFailed));
    assert_eq!(e.message(), "Build failed");
}

#[test]
fn exec_and_logs_finish_when_output_closes() {
    match next_action(StreamKind::Exec, StreamEvent::Line("hello".to_string())) {
        StreamAction::Emit { channel, line } => {
            assert_eq!(channel, "exec-output");
            assert_eq!(line, "hello");
        }
        other => panic!("unexpected {:?}", other),
    }
    match next_action(StreamKind::Logs, StreamEvent::Line("log".to_string())) {
        StreamAction::Emit { channel, .. } => assert_eq!(channel, "container-log"),
        other => panic!("unexpected {:?}", other),
    }
    assert!(matches!(next_action(StreamKind::Logs, StreamEvent::Closed), StreamAction::Finish(Ok(_))));
    assert!(matches!(next_action(StreamKind::Exec, StreamEvent::Closed), StreamAction::Finish(Ok(_))));
}

#[test]
fn read_failure_ends_the_stream_with_its_message() {
    match next_action(StreamKind::Logs, StreamEvent::ReadFailed("broken pipe".to_string())) {
        StreamAction::Finish(Err(RuntimeError::ReadFailed(m))) => assert_eq!(m, "broken pipe"),
        other => panic!("unexpected {:?}", other),
    }
}

#[test]
fn streaming_arguments() {
    assert_eq!(build_args("./ctx", "app:1"), vec!["build", "-t", "app:1", "./ctx"]);
    assert_eq!(exec_args("web", "ls -la"), vec!["exec", "-i", "web", "sh", "-c", "ls -la"]);
    assert_eq!(logs_args("web"), vec!["logs", "-f", "web"]);
}
