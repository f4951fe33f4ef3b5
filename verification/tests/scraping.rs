use metrics_sidecar::container::ContainerDescriptor;
use metrics_sidecar::exporter::ServiceMetricsExporter;
use metrics_sidecar::scrape::{
    accept, collect_output_lines, exit_status_of, lines_of_chunk, InspectOutcome, LogChunk,
    ScrapeAttempt, StartOutcome,
};

fn container(id: &str, labels: &[(&str, &str)]) -> ContainerDescriptor {
    ContainerDescriptor {
        id: id.to_string(),
        labels: labels
            .iter()
            .map(|(k, v)| (k.to_string(), v.to_string()))
            .collect(),
    }
}

fn stdout(text: &str) -> LogChunk {
    LogChunk::StdOut { message: text.as_bytes().to_vec() }
}

fn strings(lines: &[&str]) -> Vec<String> {
    lines.iter().map(|l| l.to_string()).collect()
}

#[test]
fn label_is_found_by_its_key() {
    let c = container("c1", &[("a", "1"), ("b", "2")]);
    assert_eq!(c.label("b"), Some("2".to_string()));
    assert_eq!(c.label("a"), Some("1".to_string()));
    assert_eq!(c.label("c"), None);
    assert_eq!(c.label(""), None);
}

#[test]
fn first_value_of_a_repeated_key_counts() {
    let c = container("c1", &[("a", "1"), ("a", "2")]);
    assert_eq!(c.label("a"), Some("1".to_string()));
}

#[test]
fn name_comes_from_the_orchestration_label() {
    let c = container("c1", &[("x", "y"), ("com.amazonaws.ecs.container-name", "web1")]);
    assert_eq!(c.display_name(), "web1");
}

#[test]
fn container_without_name_label_is_unknown_service() {
    assert_eq!(container("c1", &[("x", "y")]).display_name(), "unknown-service");
    assert_eq!(container("c1", &[]).display_name(), "unknown-service");
}

#[test]
fn target_comes_from_the_marker_label() {
    let c = container("c1", &[("metrics", "8080/internal/metrics")]);
    assert_eq!(c.scrape_target("metrics"), "8080/internal/metrics");
}

#[test]
fn container_without_marker_value_uses_default_target() {
    assert_eq!(container("c1", &[("other", "1")]).scrape_target("metrics"), "9100/metrics");
    assert_eq!(container("c1", &[]).scrape_target("metrics"), "9100/metrics");
    assert_eq!(container("c1", &[("metrics", "")]).scrape_target("metrics"), "9100/metrics");
}

#[test]
fn query_asks_for_running_containers_with_the_marker() {
    let exporter = ServiceMetricsExporter::new("prometheus.io/scrape".to_string());
    let query = exporter.container_query();
    assert!(!query.all);
    assert!(!query.size);
    assert_eq!(query.label, "prometheus.io/scrape");
}

#[test]
fn command_is_a_silent_curl_on_the_loopback_address() {
    let exporter = ServiceMetricsExporter::new("metrics".to_string());
    let request = exporter.curl_exec_request(&container("abc123", &[("metrics", "8080/m")]));
    assert_eq!(request.container_id, "abc123");
    assert_eq!(request.cmd, strings(&["/bin/curl", "-s", "http://localhost:8080/m"]));
    assert!(request.attach_stdout);
    assert!(!request.attach_stderr);
}

#[test]
fn command_falls_back_to_the_default_target() {
    let exporter = ServiceMetricsExporter::new("metrics".to_string());
    let request = exporter.curl_exec_request(&container("abc123", &[]));
    assert_eq!(request.cmd, strings(&["/bin/curl", "-s", "http://localhost:9100/metrics"]));
}

#[test]
fn standard_output_is_split_into_lines() {
    assert_eq!(lines_of_chunk(&stdout("a 1\nb 2\n")), strings(&["a 1", "b 2", ""]));
}

#[test]
fn invalid_bytes_are_replaced_not_refused() {
    let chunk = LogChunk::StdOut { message: vec![0x66, 0xff, 0x6f, 0x0a, 0xc3, 0xa9] };
    assert_eq!(lines_of_chunk(&chunk), strings(&["f\u{fffd}o", "é"]));
}

#[test]
fn other_streams_have_no_lines() {
    let bytes = b"a 1\nb 2".to_vec();
    assert!(lines_of_chunk(&LogChunk::StdErr { message: bytes.clone() }).is_empty());
    assert!(lines_of_chunk(&LogChunk::StdIn { message: bytes.clone() }).is_empty());
    assert!(lines_of_chunk(&LogChunk::Console { message: bytes }).is_empty());
}

#[test]
fn only_an_attached_start_with_output_yields_lines() {
    assert_eq!(collect_output_lines(&StartOutcome::Failed), None);
    assert_eq!(collect_output_lines(&StartOutcome::Detached), None);
    assert_eq!(collect_output_lines(&StartOutcome::StreamFailed), None);
    assert_eq!(collect_output_lines(&StartOutcome::Attached { chunks: vec![] }), None);
    assert_eq!(
        collect_output_lines(&StartOutcome::Attached { chunks: vec![stdout("up 1")] }),
        Some(strings(&["up 1"]))
    );
}

#[test]
fn only_the_first_chunk_is_read() {
    let start = StartOutcome::Attached { chunks: vec![stdout("a 1\n"), stdout("b 2\n")] };
    assert_eq!(collect_output_lines(&start), Some(strings(&["a 1", ""])));
    let start = StartOutcome::Attached {
        chunks: vec![LogChunk::StdErr { message: b"oops".to_vec() }, stdout("b 2\n")],
    };
    assert_eq!(collect_output_lines(&start), Some(vec![]));
}

#[test]
fn missing_exit_status_counts_as_minus_one() {
    assert_eq!(exit_status_of(&InspectOutcome::Failed), -1);
    assert_eq!(exit_status_of(&InspectOutcome::Inspected { exit_code: None }), -1);
    assert_eq!(exit_status_of(&InspectOutcome::Inspected { exit_code: Some(0) }), 0);
    assert_eq!(exit_status_of(&InspectOutcome::Inspected { exit_code: Some(7) }), 7);
    assert_eq!(exit_status_of(&InspectOutcome::Inspected { exit_code: Some(-1) }), -1);
}

#[test]
fn attempt_counts_only_with_status_zero_and_output() {
    let good = StartOutcome::Attached { chunks: vec![stdout("up 1")] };
    let zero = InspectOutcome::Inspected { exit_code: Some(0) };
    assert_eq!(
        accept(&ScrapeAttempt::Ran { start: good.clone(), inspect: zero.clone() }),
        Some(strings(&["up 1"]))
    );
    assert_eq!(accept(&ScrapeAttempt::CreateFailed), None);
    for inspect in [
        InspectOutcome::Failed,
        InspectOutcome::Inspected { exit_code: None },
        InspectOutcome::Inspected { exit_code: Some(1) },
        InspectOutcome::Inspected { exit_code: Some(-1) },
    ] {
        assert_eq!(accept(&ScrapeAttempt::Ran { start: good.clone(), inspect }), None);
    }
    for start in [
        StartOutcome::Failed,
        StartOutcome::Detached,
        StartOutcome::StreamFailed,
        StartOutcome::Attached { chunks: vec![] },
        StartOutcome::Attached { chunks: vec![LogChunk::StdErr { message: b"x".to_vec() }] },
    ] {
        assert_eq!(accept(&ScrapeAttempt::Ran { start, inspect: zero.clone() }), None);
    }
}
