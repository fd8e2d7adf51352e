use mcp_test_harness_standalone::config::{TestCase, TestSuite};
use mcp_test_harness_standalone::results::{assemble_results, summarize_run, ExecutionMetadata, summarize_suite, TestCaseResult, TestStatus};
use mcp_test_harness_standalone::suite::{finish_suite, SuiteScheduler};

fn result(id: &str, status: TestStatus) -> TestCaseResult {
    TestCaseResult {
        test_id: id.to_string(),
        test_name: "tool".to_string(),
        status,
        execution_time_ms: 1,
        error_message: None,
        response: None,
        validation_results: Vec::new(),
    }
}

fn suite(ids: &[&str]) -> TestSuite {
    TestSuite {
        name: "s".to_string(),
        test_cases: ids
            .iter()
            .map(|id| TestCase {
                id: id.to_string(),
                tool_name: "tool".to_string(),
                input_params: "{}".to_string(),
                enabled: true,
            })
            .collect(),
    }
}

#[test]
fn suite_counts_partition_results() {
    let rs = vec![
        result("a", TestStatus::Passed),
        result("b", TestStatus::Failed),
        result("c", TestStatus::Error),
        result("d", TestStatus::Skipped),
    ];
    let s = summarize_suite("s".to_string(), 6, rs, 40);
    let m = s.suite_summary;
    assert_eq!(m.total_cases, 4);
    assert_eq!(m.passed_cases, 1);
    assert_eq!(m.failed_cases, 2);
    assert_eq!(m.skipped_cases, 1);
    assert_eq!(m.declared_cases, 6);
    assert_eq!(m.execution_time_ms, 40);
    assert_eq!(m.total_cases, m.passed_cases + m.failed_cases + m.skipped_cases);
}

#[test]
fn run_totals_and_success_ratio() {
    let s1 = summarize_suite(
        "one".to_string(),
        2,
        vec![result("a", TestStatus::Passed), result("b", TestStatus::Failed)],
        5,
    );
    let s2 = summarize_suite(
        "two".to_string(),
        3,
        vec![result("c", TestStatus::Passed), result("d", TestStatus::Passed), result("e", TestStatus::Skipped)],
        5,
    );
    let t = summarize_run(&vec![s1, s2], 10);
    assert_eq!(t.total_tests, 5);
    assert_eq!(t.passed_tests, 3);
    assert_eq!(t.failed_tests, 1);
    assert_eq!(t.skipped_tests, 1);
    assert_eq!(t.total_tests, t.passed_tests + t.failed_tests + t.skipped_tests);
    assert_eq!(t.success_ratio(), Some((3, 5)));
    assert!(!t.all_passed());
}

#[test]
fn empty_run_has_zero_rate() {
    let t = summarize_run(&Vec::new(), 0);
    assert_eq!(t.total_tests, 0);
    assert_eq!(t.success_ratio(), None);
    assert!(t.all_passed());
}

#[test]
fn fail_fast_sequential_stops_after_failure() {
    let s = suite(&["A", "B", "C"]);
    let mut sch = SuiteScheduler::new(3, 1, true);
    assert_eq!(sch.next_launch(), Some(0));
    assert_eq!(sch.next_launch(), None);
    sch.complete(0, result("A", TestStatus::Passed));
    assert_eq!(sch.next_launch(), Some(1));
    sch.complete(1, result("B", TestStatus::Failed));
    assert_eq!(sch.next_launch(), None);
    assert!(sch.is_finished());
    let r = finish_suite(&s, sch, 3);
    let ids: Vec<&str> = r.test_case_results.iter().map(|c| c.test_id.as_str()).collect();
    assert_eq!(ids, vec!["A", "B"]);
    assert_eq!(r.suite_summary.total_cases, 2);
    assert_eq!(r.suite_summary.declared_cases, 3);
    assert_eq!(r.suite_summary.failed_cases, 1);
}

#[test]
fn sequential_without_fail_fast_runs_all() {
    let s = suite(&["A", "B", "C"]);
    let mut sch = SuiteScheduler::new(3, 1, false);
    for (i, st) in [TestStatus::Passed, TestStatus::Failed, TestStatus::Passed].iter().enumerate() {
        assert_eq!(sch.next_launch(), Some(i));
        sch.complete(i, result(["A", "B", "C"][i], *st));
    }
    assert!(sch.is_finished());
    let r = finish_suite(&s, sch, 3);
    assert_eq!(r.test_case_results.len(), 3);
    assert_eq!(r.suite_summary.passed_cases, 2);
}

#[test]
fn fail_fast_parallel_keeps_inflight_and_order() {
    let s = suite(&["A", "B", "C"]);
    let mut sch = SuiteScheduler::new(3, 2, true);
    assert_eq!(sch.next_launch(), Some(0));
    assert_eq!(sch.next_launch(), Some(1));
    assert_eq!(sch.next_launch(), None);
    // B finishes first and fails; A is still running.
    sch.complete(1, result("B", TestStatus::Failed));
    assert_eq!(sch.next_launch(), None);
    assert!(!sch.is_finished());
    sch.complete(0, result("A", TestStatus::Passed));
    assert!(sch.is_finished());
    let r = finish_suite(&s, sch, 3);
    let ids: Vec<&str> = r.test_case_results.iter().map(|c| c.test_id.as_str()).collect();
    assert_eq!(ids, vec!["A", "B"]);
}

#[test]
fn parallel_results_in_declared_order() {
    let s = suite(&["A", "B", "C"]);
    let mut sch = SuiteScheduler::new(3, 2, false);
    assert_eq!(sch.next_launch(), Some(0));
    assert_eq!(sch.next_launch(), Some(1));
    sch.complete(1, result("B", TestStatus::Passed));
    assert_eq!(sch.next_launch(), Some(2));
    sch.complete(2, result("C", TestStatus::Passed));
    sch.complete(0, result("A", TestStatus::Passed));
    assert!(sch.is_finished());
    let r = finish_suite(&s, sch, 3);
    let ids: Vec<&str> = r.test_case_results.iter().map(|c| c.test_id.as_str()).collect();
    assert_eq!(ids, vec!["A", "B", "C"]);
}

#[test]
fn empty_suite_is_finished_at_once() {
    let s = suite(&[]);
    let mut sch = SuiteScheduler::new(0, 1, true);
    assert_eq!(sch.next_launch(), None);
    assert!(sch.is_finished());
    let r = finish_suite(&s, sch, 0);
    assert_eq!(r.suite_summary.total_cases, 0);
}

#[test]
fn assembled_report_keeps_suites_and_metadata() {
    let s1 = summarize_suite("one".to_string(), 1, vec![result("a", TestStatus::Error)], 2);
    let meta = ExecutionMetadata {
        start_time: "2024-01-01T00:00:00Z".to_string(),
        end_time: "2024-01-01T00:00:30Z".to_string(),
        execution_environment: "linux_x86_64".to_string(),
        test_harness_version: "0.1.0".to_string(),
        server_info: None,
    };
    let r = assemble_results(vec![s1], 30000, meta);
    assert_eq!(r.suite_results.len(), 1);
    assert_eq!(r.summary.total_tests, 1);
    assert_eq!(r.summary.failed_tests, 1);
    assert_eq!(r.summary.execution_time_ms, 30000);
    assert!(!r.all_passed());
    assert_eq!(r.execution_metadata.end_time, "2024-01-01T00:00:30Z");
}

#[test]
fn fail_fast_parallel_does_not_cancel_started_cases() {
    let s = suite(&["A", "B", "C"]);
    let mut sch = SuiteScheduler::new(3, 2, true);
    assert_eq!(sch.next_launch(), Some(0));
    assert_eq!(sch.next_launch(), Some(1));
    sch.complete(0, result("A", TestStatus::Passed));
    assert_eq!(sch.next_launch(), Some(2));
    sch.complete(2, result("C", TestStatus::Passed));
    sch.complete(1, result("B", TestStatus::Failed));
    assert_eq!(sch.next_launch(), None);
    assert!(sch.is_finished());
    let r = finish_suite(&s, sch, 3);
    let got: Vec<(&str, TestStatus)> =
        r.test_case_results.iter().map(|c| (c.test_id.as_str(), c.status)).collect();
    assert_eq!(got, vec![("A", TestStatus::Passed), ("B", TestStatus::Failed), ("C", TestStatus::Passed)]);
}
