use mcp_test_harness_standalone::benchmark::{benchmark_targets, latency_stats, summarize_benchmark, BenchmarkLoop};
use mcp_test_harness_standalone::config::{TestCase, TestSuite};

#[test]
fn loop_stops_at_iteration_bound() {
    let mut l = BenchmarkLoop::new(3, 60);
    let mut begun = 0;
    while l.begin_iteration(0) {
        begun += 1;
        l.record_success(10);
    }
    assert_eq!(begun, 3);
    let r = l.finish("t".to_string());
    assert_eq!(r.iterations_completed, 3);
    assert_eq!(r.latencies_ms, vec![10, 10, 10]);
}

#[test]
fn loop_stops_at_time_bound() {
    let mut l = BenchmarkLoop::new(100, 2);
    assert!(l.begin_iteration(0));
    assert!(l.begin_iteration(1999));
    assert!(!l.begin_iteration(2000));
    let r = l.finish("t".to_string());
    assert_eq!(r.iterations_completed, 2);
    assert!(r.latencies_ms.is_empty());
    assert_eq!(r.min_time_ms, 0);
    assert_eq!(r.max_time_ms, 0);
    assert_eq!(r.mean_ratio(), None);
    assert_eq!(r.ops_ratio(), None);
}

#[test]
fn failed_iterations_count_without_samples() {
    let mut l = BenchmarkLoop::new(4, 60);
    assert!(l.begin_iteration(0));
    l.record_success(10);
    assert!(l.begin_iteration(5));
    assert!(l.begin_iteration(6));
    l.record_success(30);
    assert!(l.begin_iteration(7));
    l.record_success(20);
    assert!(!l.begin_iteration(8));
    let r = l.finish("echo".to_string());
    assert_eq!(r.test_name, "echo");
    assert_eq!(r.iterations_completed, 4);
    assert_eq!(r.total_time_ms, 60);
    assert_eq!(r.min_time_ms, 10);
    assert_eq!(r.max_time_ms, 30);
    assert_eq!(r.mean_ratio(), Some((60, 3)));
    assert_eq!(r.ops_ratio(), Some((3000, 60)));
}

#[test]
fn zero_latency_gives_zero_throughput() {
    let mut l = BenchmarkLoop::new(1, 60);
    assert!(l.begin_iteration(0));
    l.record_success(0);
    let r = l.finish("z".to_string());
    assert_eq!(r.mean_ratio(), Some((0, 1)));
    assert_eq!(r.ops_ratio(), None);
}

#[test]
fn stats_of_samples() {
    assert_eq!(latency_stats(&vec![5, 2, 9, 2]), (18, 2, 9));
    assert_eq!(latency_stats(&vec![]), (0, 0, 0));
    assert_eq!(latency_stats(&vec![u64::MAX, u64::MAX]), (2 * u64::MAX as u128, u64::MAX, u64::MAX));
}

#[test]
fn benchmark_summary_totals() {
    let mut a = BenchmarkLoop::new(2, 60);
    assert!(a.begin_iteration(0));
    a.record_success(4);
    assert!(a.begin_iteration(1));
    let a = a.finish("a".to_string());
    let mut b = BenchmarkLoop::new(3, 60);
    assert!(b.begin_iteration(0));
    assert!(b.begin_iteration(0));
    let b = b.finish("b".to_string());
    let res = summarize_benchmark(vec![a, b], 60);
    assert_eq!(res.benchmark_summary.total_iterations, 4);
    assert_eq!(res.benchmark_summary.productive_iterations, 2);
    assert_eq!(res.benchmark_summary.duration_seconds, 60);
    assert_eq!(res.detailed_results.len(), 2);
}

#[test]
fn targets_are_enabled_cases_in_order() {
    let mk = |id: &str, enabled: bool| TestCase {
        id: id.to_string(),
        tool_name: "tool".to_string(),
        input_params: "{}".to_string(),
        enabled,
    };
    let suites = vec![
        TestSuite { name: "a".to_string(), test_cases: vec![mk("a0", true), mk("a1", false), mk("a2", true)] },
        TestSuite { name: "b".to_string(), test_cases: vec![] },
        TestSuite { name: "c".to_string(), test_cases: vec![mk("c0", false), mk("c1", true)] },
    ];
    assert_eq!(benchmark_targets(&suites), vec![(0, 0), (0, 2), (2, 1)]);
    assert!(benchmark_targets(&Vec::new()).is_empty());
}
