use dock_control::container_service::{list_containers, list_containers_args, parse_container_line};
use dock_control::image_service::{list_images, list_images_args, parse_image_line};
use dock_control::invoker::{ProcessOutput, RuntimeError};
use dock_control::text::{split_fields, split_lines};

fn ok_output(stdout: &str) -> ProcessOutput {
    ProcessOutput { success: true, stdout: stdout.to_string(), stderr: String::new() }
}

fn failed_output(stderr: &str) -> ProcessOutput {
    ProcessOutput { success: false, stdout: String::new(), stderr: stderr.to_string() }
}

#[test]
fn container_line_parses_all_fields() {
    let c = parse_container_line("abc123|web|nginx:latest|Up 2 minutes");
    assert_eq!(c.id, "abc123");
    assert_eq!(c.name, "web");
    assert_eq!(c.image, "nginx:latest");
    assert_eq!(c.status, "Up 2 minutes");
}

#[test]
fn short_container_line_leaves_missing_fields_empty() {
    let c = parse_container_line("abc123|web");
    assert_eq!(c.id, "abc123");
    assert_eq!(c.name, "web");
    assert_eq!(c.image, "");
    assert_eq!(c.status, "");
    let e = parse_container_line("");
    assert_eq!(e.id, "");
    assert_eq!(e.status, "");
}

#[test]
fn extra_fields_are_ignored() {
    let c = parse_container_line("a|b|c|d|e");
    assert_eq!(c.status, "d");
}

#[test]
fn image_line_parses_all_fields() {
    let m = parse_image_line("sha1|nginx|latest|187MB");
    assert_eq!(m.id, "sha1");
    assert_eq!(m.name, "nginx");
    assert_eq!(m.tag, "latest");
    assert_eq!(m.size, "187MB");
    let short = parse_image_line("sha1|nginx");
    assert_eq!(short.tag, "");
    assert_eq!(short.size, "");
}

#[test]
fn fields_split_on_every_separator() {
    assert_eq!(split_fields("a||b|", '|'), vec!["a", "", "b", ""]);
    assert_eq!(split_fields("", '|'), vec![""]);
    assert_eq!(split_fields("héllo|wörld", '|'), vec!["héllo", "wörld"]);
}

#[test]
fn lines_drop_terminators() {
    assert_eq!(split_lines("a\nb\n"), vec!["a", "b"]);
    assert_eq!(split_lines("a\r\nb"), vec!["a", "b"]);
    assert_eq!(split_lines(""), Vec::<String>::new());
    assert_eq!(split_lines("\n"), vec![""]);
    assert_eq!(split_lines("a\n\nb"), vec!["a", "", "b"]);
}

#[test]
fn container_listing_keeps_runtime_order() {
    let out = ok_output("abc123|web|nginx:latest|Up 2 minutes\ndef456|db|postgres:16|Exited (0) 1 hour ago\n");
    let cs = list_containers(&out).unwrap();
    assert_eq!(cs.len(), 2);
    assert_eq!(cs[0].id, "abc123");
    assert_eq!(cs[1].name, "db");
    assert_eq!(cs[1].status, "Exited (0) 1 hour ago");
}

#[test]
fn failed_container_listing_is_query_failed() {
    let r = list_containers(&failed_output("daemon not running"));
    match r {
        Err(RuntimeError::QueryFailed(m)) => assert_eq!(m, "Failed to fetch containers"),
        other => panic!("unexpected {:?}", other),
    }
}

#[test]
fn image_listing_parses_each_line() {
    let out = ok_output("sha1|nginx|latest|187MB\nsha2|redis|7|40MB\n");
    let ms = list_images(&out).unwrap();
    assert_eq!(ms.len(), 2);
    assert_eq!(ms[1].name, "redis");
    assert_eq!(ms[1].tag, "7");
    assert!(matches!(list_images(&failed_output("x")), Err(RuntimeError::QueryFailed(_))));
}

#[test]
fn listing_formats_use_pipe_fields() {
    assert_eq!(
        list_containers_args(),
        vec!["ps", "-a", "--format", "{{.ID}}|{{.Names}}|{{.Image}}|{{.Status}}"]
    );
    assert_eq!(list_images_args(), vec!["images", "--format", "{{.ID}}|{{.Repository}}|{{.Tag}}|{{.Size}}"]);
}
