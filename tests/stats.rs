use dock_control::invoker::{ProcessOutput, RuntimeError};
use dock_control::stats_service::{get_all_container_stats, parse_stats_line, stats_args};

fn ok_output(stdout: &str) -> ProcessOutput {
    ProcessOutput { success: true, stdout: stdout.to_string(), stderr: String::new() }
}

#[test]
fn stats_arguments_take_one_snapshot() {
    assert_eq!(stats_args(), vec!["stats", "--no-stream", "--format", "{{json .}}"]);
}

#[test]
fn stats_line_reads_its_members() {
    let s = parse_stats_line(
        r#"{"Name":"web","CPUPerc":"0.15%","MemUsage":"12MiB / 1GiB","MemPerc":"1.17%","PIDs":"3"}"#,
    )
    .unwrap();
    assert_eq!(s.name, "web");
    assert_eq!(s.cpu, "0.15%");
    assert_eq!(s.memory, "12MiB / 1GiB");
    assert_eq!(s.memory_percent, "1.17%");
}

#[test]
fn missing_or_non_text_members_read_as_empty() {
    let s = parse_stats_line(r#"{"Name":"web","CPUPerc":3}"#).unwrap();
    assert_eq!(s.name, "web");
    assert_eq!(s.cpu, "");
    assert_eq!(s.memory, "");
    assert_eq!(s.memory_percent, "");
}

#[test]
fn malformed_stats_line_fails_the_call() {
    assert!(matches!(parse_stats_line("not json"), Err(RuntimeError::Parse)));
    let out = ok_output("{\"Name\":\"a\"}\n{broken\n");
    assert!(matches!(get_all_container_stats(&out), Err(RuntimeError::Parse)));
}

#[test]
fn stats_snapshot_has_one_record_per_line() {
    let out = ok_output(
        "{\"Name\":\"a\",\"CPUPerc\":\"1%\",\"MemUsage\":\"1MiB\",\"MemPerc\":\"0.1%\"}\n{\"Name\":\"b\",\"CPUPerc\":\"2%\",\"MemUsage\":\"2MiB\",\"MemPerc\":\"0.2%\"}\n",
    );
    let all = get_all_container_stats(&out).unwrap();
    assert_eq!(all.len(), 2);
    assert_eq!(all[0].name, "a");
    assert_eq!(all[1].cpu, "2%");
    assert_eq!(get_all_container_stats(&ok_output("")).unwrap().len(), 0);
}

#[test]
fn failed_stats_command_is_query_failed() {
    let out = ProcessOutput { success: false, stdout: String::new(), stderr: "x".to_string() };
    match get_all_container_stats(&out) {
        Err(RuntimeError::QueryFailed(m)) => assert_eq!(m, "Failed to execute docker stats"),
        other => panic!("unexpected {:?}", other),
    }
}
