use ad4m_cli::detect::{line_has_marker, readiness_marker_text, scan_lines, ReadinessLatch};

const MARKER: &str = "GraphQL server started, Unlock the agent to start holohchain";

#[test]
fn marker_text_is_the_protocol_line() {
    assert_eq!(readiness_marker_text(), MARKER);
}

#[test]
fn marker_is_found_as_substring() {
    assert!(line_has_marker(MARKER));
    assert!(line_has_marker(&format!("[info] {} (pid 42)", MARKER)));
    assert!(!line_has_marker(""));
    assert!(!line_has_marker("GraphQL server started"));
    assert!(!line_has_marker("Unlock the agent"));
}

#[test]
fn latch_fires_once_and_stays_set() {
    let mut latch = ReadinessLatch::new();
    assert!(!latch.observe("booting"));
    assert!(latch.observe(MARKER));
    assert!(!latch.observe(MARKER));
    assert!(!latch.observe("more output"));
    assert!(latch.fired);
}

#[test]
fn scan_prints_every_line_in_order_and_dispatches_once() {
    let lines: Vec<String> = vec![
        "starting".to_string(),
        "loading languages".to_string(),
        format!("{} now", MARKER),
        "post-marker output".to_string(),
        "done".to_string(),
    ];
    let report = scan_lines(&lines);
    assert_eq!(report.printed, lines);
    assert_eq!(report.dispatches, 1);
    assert_eq!(report.dispatch_at, Some(2));
}

#[test]
fn scan_dispatches_at_most_once_with_two_marker_lines() {
    let lines: Vec<String> = vec![
        MARKER.to_string(),
        "between".to_string(),
        MARKER.to_string(),
    ];
    let report = scan_lines(&lines);
    assert_eq!(report.printed, lines);
    assert_eq!(report.dispatches, 1);
    assert_eq!(report.dispatch_at, Some(0));
}

#[test]
fn scan_without_marker_never_dispatches() {
    let lines: Vec<String> = vec![
        "just".to_string(),
        "ordinary".to_string(),
        "logs".to_string(),
    ];
    let report = scan_lines(&lines);
    assert_eq!(report.printed, lines);
    assert_eq!(report.dispatches, 0);
    assert_eq!(report.dispatch_at, None);
}

#[test]
fn scan_of_empty_channel_terminates_quietly() {
    let lines: Vec<String> = Vec::new();
    let report = scan_lines(&lines);
    assert!(report.printed.is_empty());
    assert_eq!(report.dispatches, 0);
    assert_eq!(report.dispatch_at, None);
}
