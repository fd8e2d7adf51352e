//! Status state machine of a single case.
//!
//! A disabled case is skipped without contacting anything. An enabled case is
//! either validated from its definition alone (validation-only mode) or sent to
//! the server, whose answer is then validated. The caller performs the step
//! that `plan_case` names and hands its outcome to `finish_case`.

use vstd::prelude::*;
use crate::config::TestCase;
use crate::results::{TestCaseResult, TestStatus, ValidationResult};

verus! {

/// The step that executing a case takes.
#[derive(Clone, Copy, Debug, PartialEq, Eq, Structural)]
pub enum CaseAction {
    /// Record the case as skipped; nothing is contacted.
    Skip,
    /// Run the validator on the case definition; the server is not contacted.
    ValidateDefinition,
    /// Send the case's operation and parameters to the server.
    CallServer,
}

/// What came of the step of an enabled case.
#[derive(Clone, Debug)]
pub enum CaseOutcome {
    /// The validator ran; `response` is the server's answer, if one was asked for.
    Validated { validation_results: Vec<ValidationResult>, response: Option<String> },
    /// The call to the server failed (transport or protocol error).
    TransportFailed { message: String },
}

pub open spec fn all_rules_passed(vs: Seq<ValidationResult>) -> bool {
    forall|i: int| 0 <= i < vs.len() ==> #[trigger] vs[i].passed
}

/// Chooses the step for `case`. A disabled case is skipped; validation-only
/// mode never reaches the server.
pub fn plan_case(case: &TestCase, validation_only: bool) -> (r: CaseAction)
    ensures
        !case.enabled ==> r == CaseAction::Skip,
        case.enabled && validation_only ==> r == CaseAction::ValidateDefinition,
        case.enabled && !validation_only ==> r == CaseAction::CallServer,
        validation_only ==> r != CaseAction::CallServer,
{
    if !case.enabled {
        CaseAction::Skip
    } else if validation_only {
        CaseAction::ValidateDefinition
    } else {
        CaseAction::CallServer
    }
}

/// Passed when every rule passed (so also when there is no rule), else Failed.
pub fn derive_status(validation_results: &Vec<ValidationResult>) -> (r: TestStatus)
    ensures
        r == (if all_rules_passed(validation_results@) {
            TestStatus::Passed
        } else {
            TestStatus::Failed
        }),
{
    let mut i: usize = 0;
    while i < validation_results.len()
        invariant
            i <= validation_results@.len(),
            forall|j: int| 0 <= j < i ==> #[trigger] validation_results@[j].passed,
        decreases validation_results@.len() - i,
    {
        if !validation_results[i].passed {
            return TestStatus::Failed;
        }
        i = i + 1;
    }
    TestStatus::Passed
}

/// The record of a disabled case: skipped, zero elapsed time, no response and
/// no verdicts.
pub fn skipped_result(case: &TestCase) -> (r: TestCaseResult)
    ensures
        r.test_id@ == case.id@,
        r.test_name@ == case.tool_name@,
        r.status == TestStatus::Skipped,
        r.execution_time_ms == 0,
        r.error_message matches Some(m) && m@ == "Test case disabled"@,
        r.response is None,
        r.validation_results@.len() == 0,
{
    TestCaseResult {
        test_id: case.id.clone(),
        test_name: case.tool_name.clone(),
        status: TestStatus::Skipped,
        execution_time_ms: 0,
        error_message: Some("Test case disabled".to_owned()),
        response: None,
        validation_results: Vec::new(),
    }
}

/// The record of an enabled case once its step is done. A transport failure
/// gives Error with its message and no verdicts; otherwise the status follows
/// the verdicts.
pub fn finish_case(case: &TestCase, outcome: CaseOutcome, elapsed_ms: u64) -> (r: TestCaseResult)
    ensures
        r.test_id@ == case.id@,
        r.test_name@ == case.tool_name@,
        r.execution_time_ms == elapsed_ms,
        match outcome {
            CaseOutcome::Validated { validation_results, response } => {
                &&& r.status == (if all_rules_passed(validation_results@) {
                    TestStatus::Passed
                } else {
                    TestStatus::Failed
                })
                &&& r.validation_results@ == validation_results@
                &&& r.response == response
                &&& r.error_message is None
            },
            CaseOutcome::TransportFailed { message } => {
                &&& r.status == TestStatus::Error
                &&& r.error_message == Some(message)
                &&& r.response is None
                &&& r.validation_results@.len() == 0
            },
        },
{
    match outcome {
        CaseOutcome::Validated { validation_results, response } => {
            let status = derive_status(&validation_results);
            TestCaseResult {
                test_id: case.id.clone(),
                test_name: case.tool_name.clone(),
                status,
                execution_time_ms: elapsed_ms,
                error_message: None,
                response,
                validation_results,
            }
        },
        CaseOutcome::TransportFailed { message } => TestCaseResult {
            test_id: case.id.clone(),
            test_name: case.tool_name.clone(),
            status: TestStatus::Error,
            execution_time_ms: elapsed_ms,
            error_message: Some(message),
            response: None,
            validation_results: Vec::new(),
        },
    }
}

} // verus!
