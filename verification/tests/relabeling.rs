use metrics_sidecar::relabel::{add_service_name_to_metric_line, classify, LineKind};

#[test]
fn comment_line_is_kept() {
    let line = "# HELP http_requests_total The total number of HTTP requests.";
    assert_eq!(add_service_name_to_metric_line(line, "web1"), line);
}

#[test]
fn type_line_with_braces_and_spaces_is_kept() {
    let line = "# TYPE weird{metric} counter";
    assert_eq!(add_service_name_to_metric_line(line, "web1"), line);
}

#[test]
fn indented_comment_is_kept_with_its_indentation() {
    let line = " \t # indented {comment} \r";
    assert_eq!(add_service_name_to_metric_line(line, "web1"), line);
}

#[test]
fn comment_after_unusual_white_space_is_kept() {
    let line = "\u{a0}\u{2003}\u{3000}# far away";
    assert_eq!(add_service_name_to_metric_line(line, "web1"), line);
}

#[test]
fn hash_after_other_text_is_no_comment() {
    assert_eq!(
        add_service_name_to_metric_line("x # y", "web1"),
        "x{container_name=web1} # y"
    );
}

#[test]
fn malformed_line_is_kept() {
    assert_eq!(add_service_name_to_metric_line("foobar", "web1"), "foobar");
}

#[test]
fn empty_line_is_kept() {
    assert_eq!(add_service_name_to_metric_line("", "web1"), "");
}

#[test]
fn tab_separated_line_is_malformed() {
    assert_eq!(add_service_name_to_metric_line("up\t1", "web1"), "up\t1");
    assert_eq!(classify("up\t1"), LineKind::Malformed);
}

#[test]
fn unlabeled_sample_gets_a_label_group() {
    assert_eq!(
        add_service_name_to_metric_line("http_requests_total 5", "web1"),
        "http_requests_total{container_name=web1} 5"
    );
}

#[test]
fn unlabeled_sample_is_split_at_its_first_space() {
    assert_eq!(
        add_service_name_to_metric_line("up 1 1700000000", "db"),
        "up{container_name=db} 1 1700000000"
    );
}

#[test]
fn line_starting_with_a_space_gets_the_group_in_front() {
    assert_eq!(
        add_service_name_to_metric_line(" up 1", "db"),
        "{container_name=db} up 1"
    );
}

#[test]
fn labeled_sample_gets_the_label_first() {
    assert_eq!(
        add_service_name_to_metric_line("http_requests_total{method=\"GET\"} 5", "web1"),
        "http_requests_total{container_name=web1,method=\"GET\"} 5"
    );
}

#[test]
fn labeled_sample_is_split_after_its_first_brace() {
    assert_eq!(
        add_service_name_to_metric_line("a{b=\"{\"} 1", "n"),
        "a{container_name=n,b=\"{\"} 1"
    );
}

#[test]
fn brace_wins_over_space() {
    assert_eq!(
        add_service_name_to_metric_line("a b{c} 1", "n"),
        "a b{container_name=n,c} 1"
    );
}

#[test]
fn empty_label_group_still_gets_a_comma() {
    assert_eq!(
        add_service_name_to_metric_line("up{} 1", "n"),
        "up{container_name=n,} 1"
    );
}

#[test]
fn name_is_written_without_quotes_or_escapes() {
    assert_eq!(
        add_service_name_to_metric_line("up 1", "my \"svc\""),
        "up{container_name=my \"svc\"} 1"
    );
}

#[test]
fn characters_of_several_bytes_are_kept_whole() {
    assert_eq!(
        add_service_name_to_metric_line("température{salle=\"été\"} 21", "météo"),
        "température{container_name=météo,salle=\"été\"} 21"
    );
    assert_eq!(
        add_service_name_to_metric_line("größe 7", "maß"),
        "größe{container_name=maß} 7"
    );
}

#[test]
fn each_kind_is_told_apart() {
    assert_eq!(classify("# TYPE up gauge"), LineKind::Comment);
    assert_eq!(classify("   #"), LineKind::Comment);
    assert_eq!(classify("up{job=\"a\"} 1"), LineKind::Labeled);
    assert_eq!(classify("up 1"), LineKind::Unlabeled);
    assert_eq!(classify("up"), LineKind::Malformed);
    assert_eq!(classify(""), LineKind::Malformed);
    assert_eq!(classify("a#b"), LineKind::Malformed);
}
