use mcp_test_harness_standalone::case::{derive_status, finish_case, plan_case, skipped_result, CaseAction, CaseOutcome};
use mcp_test_harness_standalone::config::TestCase;
use mcp_test_harness_standalone::results::{TestStatus, ValidationResult};

fn case(id: &str, enabled: bool) -> TestCase {
    TestCase {
        id: id.to_string(),
        tool_name: "echo".to_string(),
        input_params: "{\"text\":\"hi\"}".to_string(),
        enabled,
    }
}

fn verdict(name: &str, passed: bool) -> ValidationResult {
    ValidationResult { rule_name: name.to_string(), passed, message: String::new() }
}

#[test]
fn disabled_case_is_skipped_without_contact() {
    let c = case("t1", false);
    assert_eq!(plan_case(&c, false), CaseAction::Skip);
    assert_eq!(plan_case(&c, true), CaseAction::Skip);
    let r = skipped_result(&c);
    assert_eq!(r.status, TestStatus::Skipped);
    assert_eq!(r.execution_time_ms, 0);
    assert_eq!(r.test_id, "t1");
    assert_eq!(r.test_name, "echo");
    assert_eq!(r.error_message.as_deref(), Some("Test case disabled"));
    assert!(r.response.is_none());
    assert!(r.validation_results.is_empty());
}

#[test]
fn validation_only_never_calls_server() {
    assert_eq!(plan_case(&case("a", true), true), CaseAction::ValidateDefinition);
    assert_eq!(plan_case(&case("a", true), false), CaseAction::CallServer);
}

#[test]
fn empty_verdicts_pass() {
    assert_eq!(derive_status(&Vec::new()), TestStatus::Passed);
}

#[test]
fn status_follows_verdicts() {
    assert_eq!(derive_status(&vec![verdict("a", true), verdict("b", true)]), TestStatus::Passed);
    assert_eq!(derive_status(&vec![verdict("a", true), verdict("b", false)]), TestStatus::Failed);
}

#[test]
fn validated_case_keeps_response_and_verdicts() {
    let c = case("t2", true);
    let out = CaseOutcome::Validated {
        validation_results: vec![verdict("schema", false)],
        response: Some("{}".to_string()),
    };
    let r = finish_case(&c, out, 12);
    assert_eq!(r.status, TestStatus::Failed);
    assert_eq!(r.execution_time_ms, 12);
    assert_eq!(r.response.as_deref(), Some("{}"));
    assert_eq!(r.validation_results.len(), 1);
    assert!(r.error_message.is_none());
}

#[test]
fn transport_failure_is_error() {
    let c = case("t3", true);
    let r = finish_case(&c, CaseOutcome::TransportFailed { message: "timeout".to_string() }, 7);
    assert_eq!(r.status, TestStatus::Error);
    assert_eq!(r.error_message.as_deref(), Some("timeout"));
    assert_eq!(r.execution_time_ms, 7);
    assert!(r.validation_results.is_empty());
    assert!(r.response.is_none());
}
