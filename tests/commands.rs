use dock_control::container_service::{
    remove_args, remove_container, run_args, run_container, start_args, start_container, stop_args,
    stop_container,
};
use dock_control::ids::id_text;
use dock_control::image_service::{pull_args, pull_image, remove_image, remove_image_args};
use dock_control::invoker::{ProcessOutput, RuntimeError};
use dock_control::system_service::{all_containers_args, get_stats, images_args, running_containers_args};

fn output(success: bool, stdout: &str, stderr: &str) -> ProcessOutput {
    ProcessOutput { success, stdout: stdout.to_string(), stderr: stderr.to_string() }
}

#[test]
fn lifecycle_arguments() {
    assert_eq!(start_args("web"), vec!["start", "web"]);
    assert_eq!(stop_args("web"), vec!["stop", "web"]);
    assert_eq!(remove_args("web"), vec!["rm", "web"]);
    assert_eq!(remove_image_args("nginx"), vec!["rmi", "nginx"]);
}

#[test]
fn successful_commands_report_their_message() {
    let ok = output(true, "web\n", "");
    assert_eq!(start_container(&ok).unwrap(), "Container started");
    assert_eq!(stop_container(&ok).unwrap(), "Container stopped");
    assert_eq!(remove_container(&ok).unwrap(), "Container removed");
    assert_eq!(run_container(&ok).unwrap(), "Container started successfully");
    assert_eq!(pull_image(&ok).unwrap(), "Image pulled successfully");
    assert_eq!(remove_image(&ok).unwrap(), "Image removed");
}

#[test]
fn failed_commands_surface_stderr_verbatim() {
    let bad = output(false, "", "Error: No such container: web\n");
    match start_container(&bad) {
        Err(RuntimeError::CommandFailed(m)) => assert_eq!(m, "Error: No such container: web\n"),
        other => panic!("unexpected {:?}", other),
    }
    let e = remove_image(&bad).unwrap_err();
    assert_eq!(e.message(), "Error: No such container: web\n");
}

#[test]
fn run_arguments_keep_their_order() {
    assert_eq!(
        run_args(
            "nginx".to_string(),
            Some("web".to_string()),
            Some("8080:80".to_string()),
            Some("nginx -g daemon off;".to_string())
        ),
        vec!["run", "-d", "--name", "web", "-p", "8080:80", "nginx", "nginx -g daemon off;"]
    );
    assert_eq!(run_args("nginx".to_string(), None, None, None), vec!["run", "-d", "nginx"]);
    assert_eq!(
        run_args("nginx".to_string(), None, Some("80:80".to_string()), None),
        vec!["run", "-d", "-p", "80:80", "nginx"]
    );
    assert_eq!(
        run_args("alpine".to_string(), Some("a".to_string()), None, Some("sh".to_string())),
        vec!["run", "-d", "--name", "a", "alpine", "sh"]
    );
}

#[test]
fn pull_targets_name_and_tag() {
    assert_eq!(pull_args("nginx", "latest"), vec!["pull", "nginx:latest"]);
    assert_eq!(pull_args("", ""), vec!["pull", ":"]);
}

#[test]
fn system_stats_count_output_lines() {
    assert_eq!(all_containers_args(), vec!["ps", "-a", "-q"]);
    assert_eq!(running_containers_args(), vec!["ps", "-q"]);
    assert_eq!(images_args(), vec!["images", "-q"]);
    let all = output(true, "a1\nb2\nc3\n", "");
    let running = output(true, "a1\nb2\n", "");
    let images = output(true, "i1\ni2\n", "");
    let st = get_stats(&all, &running, &images).unwrap();
    assert_eq!(st.total_containers, 3);
    assert_eq!(st.running_containers, 2);
    assert_eq!(st.total_images, 2);
    let empty = output(true, "", "");
    let st = get_stats(&empty, &empty, &empty).unwrap();
    assert_eq!(st.total_containers, 0);
}

#[test]
fn one_failed_count_query_fails_the_aggregation() {
    let ok = output(true, "a\n", "");
    let bad = output(false, "", "boom");
    match get_stats(&ok, &bad, &ok) {
        Err(RuntimeError::QueryFailed(m)) => assert_eq!(m, "Failed to fetch Docker stats"),
        other => panic!("unexpected {:?}", other),
    }
}

#[test]
fn identifiers_are_decimal_serials() {
    assert_eq!(id_text(0), "0");
    assert_eq!(id_text(7), "7");
    assert_eq!(id_text(1234), "1234");
    assert_eq!(id_text(u64::MAX), "18446744073709551615");
}
