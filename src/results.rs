//! Result records of a run and their summaries.

use vstd::prelude::*;

verus! {

/// Outcome of one executed test case.
#[derive(Clone, Copy, Debug, PartialEq, Eq, Structural)]
pub enum TestStatus {
    Passed,
    Failed,
    Skipped,
    Error,
}

/// Severity attached to a detected performance regression.
#[derive(Clone, Copy, Debug, PartialEq, Eq, Structural)]
pub enum AlertSeverity {
    Warning,
    Error,
    Critical,
}

/// Verdict of one validation rule.
#[derive(Clone, Debug)]
pub struct ValidationResult {
    pub rule_name: String,
    pub passed: bool,
    pub message: String,
}

/// Record of one executed case. `response` holds the raw response text.
#[derive(Clone, Debug)]
pub struct TestCaseResult {
    pub test_id: String,
    pub test_name: String,
    pub status: TestStatus,
    pub execution_time_ms: u64,
    pub error_message: Option<String>,
    pub response: Option<String>,
    pub validation_results: Vec<ValidationResult>,
}

/// Counts over the results that a suite produced.
///
/// `total_cases` counts executed cases only; `declared_cases` is the size of
/// the suite as it was configured.
#[derive(Clone, Copy, Debug)]
pub struct SuiteSummary {
    pub total_cases: usize,
    pub passed_cases: usize,
    pub failed_cases: usize,
    pub skipped_cases: usize,
    pub declared_cases: usize,
    pub execution_time_ms: u64,
}

#[derive(Clone, Debug)]
pub struct SuiteResult {
    pub suite_name: String,
    pub test_case_results: Vec<TestCaseResult>,
    pub suite_summary: SuiteSummary,
}

/// Counts over a whole run.
#[derive(Clone, Copy, Debug)]
pub struct TestSummary {
    pub total_tests: usize,
    pub passed_tests: usize,
    pub failed_tests: usize,
    pub skipped_tests: usize,
    pub execution_time_ms: u64,
}

/// A status that counts as a failure: a failed validation or a transport error.
pub open spec fn is_failure(s: TestStatus) -> bool {
    s is Failed || s is Error
}

pub open spec fn num_passed(rs: Seq<TestCaseResult>) -> nat
    decreases rs.len(),
{
    if rs.len() == 0 {
        0
    } else {
        num_passed(rs.drop_last()) + if rs.last().status is Passed { 1nat } else { 0nat }
    }
}

pub open spec fn num_failed(rs: Seq<TestCaseResult>) -> nat
    decreases rs.len(),
{
    if rs.len() == 0 {
        0
    } else {
        num_failed(rs.drop_last()) + if is_failure(rs.last().status) { 1nat } else { 0nat }
    }
}

pub open spec fn num_skipped(rs: Seq<TestCaseResult>) -> nat
    decreases rs.len(),
{
    if rs.len() == 0 {
        0
    } else {
        num_skipped(rs.drop_last()) + if rs.last().status is Skipped { 1nat } else { 0nat }
    }
}

/// Every result is counted exactly once: as passed, as failed or as skipped.
pub proof fn lemma_tally_partition(rs: Seq<TestCaseResult>)
    ensures
        num_passed(rs) + num_failed(rs) + num_skipped(rs) == rs.len(),
    decreases rs.len(),
{
    if rs.len() > 0 {
        lemma_tally_partition(rs.drop_last());
    }
}

impl SuiteSummary {
    /// The counts partition the executed cases.
    pub open spec fn balanced(&self) -> bool {
        self.total_cases == self.passed_cases + self.failed_cases + self.skipped_cases
    }
}

impl TestSummary {
    pub open spec fn balanced(&self) -> bool {
        self.total_tests == self.passed_tests + self.failed_tests + self.skipped_tests
    }

    /// The run has no failed or errored case.
    pub fn all_passed(&self) -> (r: bool)
        ensures
            r == (self.failed_tests == 0),
    {
        self.failed_tests == 0
    }

    /// The success rate as a fraction `(passed, total)`, or `None` when no
    /// test ran (the rate is then zero).
    pub fn success_ratio(&self) -> (r: Option<(usize, usize)>)
        ensures
            self.total_tests == 0 ==> r is None,
            self.total_tests > 0 ==> r == Some((self.passed_tests, self.total_tests)),
    {
        if self.total_tests > 0 {
            Some((self.passed_tests, self.total_tests))
        } else {
            None
        }
    }
}

/// Folds the results of one suite into its summary. The counts come from the
/// result list alone.
pub fn summarize_suite(
    suite_name: String,
    declared_cases: usize,
    test_case_results: Vec<TestCaseResult>,
    execution_time_ms: u64,
) -> (r: SuiteResult)
    ensures
        r.suite_name@ == suite_name@,
        r.test_case_results@ == test_case_results@,
        r.suite_summary.total_cases == test_case_results@.len(),
        r.suite_summary.passed_cases == num_passed(test_case_results@),
        r.suite_summary.failed_cases == num_failed(test_case_results@),
        r.suite_summary.skipped_cases == num_skipped(test_case_results@),
        r.suite_summary.declared_cases == declared_cases,
        r.suite_summary.execution_time_ms == execution_time_ms,
        r.suite_summary.balanced(),
{
    let mut passed: usize = 0;
    let mut failed: usize = 0;
    let mut skipped: usize = 0;
    let mut i: usize = 0;
    while i < test_case_results.len()
        invariant
            i <= test_case_results@.len(),
            passed == num_passed(test_case_results@.take(i as int)),
            failed == num_failed(test_case_results@.take(i as int)),
            skipped == num_skipped(test_case_results@.take(i as int)),
        decreases test_case_results@.len() - i,
    {
        let ghost before = test_case_results@.take(i as int);
        let ghost after = test_case_results@.take(i + 1);
        assert(after.drop_last() == before);
        proof {
            lemma_tally_partition(before);
        }
        match test_case_results[i].status {
            TestStatus::Passed => passed = passed + 1,
            TestStatus::Failed | TestStatus::Error => failed = failed + 1,
            TestStatus::Skipped => skipped = skipped + 1,
        }
        i = i + 1;
    }
    assert(test_case_results@.take(i as int) == test_case_results@);
    proof {
        lemma_tally_partition(test_case_results@);
    }
    SuiteResult {
        suite_name,
        test_case_results,
        suite_summary: SuiteSummary {
            total_cases: i,
            passed_cases: passed,
            failed_cases: failed,
            skipped_cases: skipped,
            declared_cases,
            execution_time_ms,
        },
    }
}

} // verus!

verus! {

/// Descriptor of the server under test. `capabilities` holds JSON text.
#[derive(Clone, Debug)]
pub struct ServerInfo {
    pub server_type: String,
    pub version: Option<String>,
    pub capabilities: Option<String>,
    pub transport: String,
}

/// Observational data stamped once on a finished run.
#[derive(Clone, Debug)]
pub struct ExecutionMetadata {
    pub start_time: String,
    pub end_time: String,
    pub execution_environment: String,
    pub test_harness_version: String,
    pub server_info: Option<ServerInfo>,
}

/// The full report of a run: its summary and the results of every suite in
/// configured order.
#[derive(Clone, Debug)]
pub struct TestResults {
    pub summary: TestSummary,
    pub suite_results: Vec<SuiteResult>,
    pub execution_metadata: ExecutionMetadata,
}

impl TestResults {
    /// The basis of the exit status: no case failed or errored.
    pub fn all_passed(&self) -> (r: bool)
        ensures
            r == (self.summary.failed_tests == 0),
    {
        self.summary.all_passed()
    }
}

pub open spec fn sum_total(ss: Seq<SuiteResult>) -> int
    decreases ss.len(),
{
    if ss.len() == 0 {
        0
    } else {
        sum_total(ss.drop_last()) + ss.last().suite_summary.total_cases
    }
}

pub open spec fn sum_passed(ss: Seq<SuiteResult>) -> int
    decreases ss.len(),
{
    if ss.len() == 0 {
        0
    } else {
        sum_passed(ss.drop_last()) + ss.last().suite_summary.passed_cases
    }
}

pub open spec fn sum_failed(ss: Seq<SuiteResult>) -> int
    decreases ss.len(),
{
    if ss.len() == 0 {
        0
    } else {
        sum_failed(ss.drop_last()) + ss.last().suite_summary.failed_cases
    }
}

pub open spec fn sum_skipped(ss: Seq<SuiteResult>) -> int
    decreases ss.len(),
{
    if ss.len() == 0 {
        0
    } else {
        sum_skipped(ss.drop_last()) + ss.last().suite_summary.skipped_cases
    }
}

pub open spec fn all_balanced(ss: Seq<SuiteResult>) -> bool {
    forall|i: int| 0 <= i < ss.len() ==> (#[trigger] ss[i]).suite_summary.balanced()
}

/// When every suite's counts partition its cases, so do the run's totals.
pub proof fn lemma_run_partition(ss: Seq<SuiteResult>)
    requires
        all_balanced(ss),
    ensures
        sum_total(ss) == sum_passed(ss) + sum_failed(ss) + sum_skipped(ss),
        0 <= sum_passed(ss) <= sum_total(ss),
        0 <= sum_failed(ss) <= sum_total(ss),
        0 <= sum_skipped(ss) <= sum_total(ss),
    decreases ss.len(),
{
    if ss.len() > 0 {
        let t = ss.drop_last();
        assert forall|i: int| 0 <= i < t.len() implies (#[trigger] t[i]).suite_summary.balanced() by {
            assert(t[i] == ss[i]);
        }
        lemma_run_partition(t);
        assert(ss[ss.len() - 1].suite_summary.balanced());
    }
}

/// Folds the suite summaries into the run's summary.
pub fn summarize_run(suite_results: &Vec<SuiteResult>, execution_time_ms: u64) -> (r: TestSummary)
    requires
        all_balanced(suite_results@),
        sum_total(suite_results@) <= usize::MAX,
    ensures
        r.total_tests == sum_total(suite_results@),
        r.passed_tests == sum_passed(suite_results@),
        r.failed_tests == sum_failed(suite_results@),
        r.skipped_tests == sum_skipped(suite_results@),
        r.execution_time_ms == execution_time_ms,
        r.balanced(),
{
    let mut total: usize = 0;
    let mut passed: usize = 0;
    let mut failed: usize = 0;
    let mut skipped: usize = 0;
    let mut i: usize = 0;
    proof {
        lemma_run_partition(suite_results@);
    }
    while i < suite_results.len()
        invariant
            i <= suite_results@.len(),
            all_balanced(suite_results@),
            sum_total(suite_results@) <= usize::MAX,
            total == sum_total(suite_results@.take(i as int)),
            passed == sum_passed(suite_results@.take(i as int)),
            failed == sum_failed(suite_results@.take(i as int)),
            skipped == sum_skipped(suite_results@.take(i as int)),
        decreases suite_results@.len() - i,
    {
        let ghost before = suite_results@.take(i as int);
        let ghost after = suite_results@.take(i + 1);
        assert(after.drop_last() == before);
        proof {
            lemma_sum_prefix(suite_results@, i + 1);
            assert forall|k: int| 0 <= k < after.len() implies (#[trigger] after[k]).suite_summary.balanced() by {
                assert(after[k] == suite_results@[k]);
            }
            lemma_run_partition(after);
        }
        let s = &suite_results[i].suite_summary;
        total = total + s.total_cases;
        passed = passed + s.passed_cases;
        failed = failed + s.failed_cases;
        skipped = skipped + s.skipped_cases;
        i = i + 1;
    }
    assert(suite_results@.take(i as int) == suite_results@);
    TestSummary {
        total_tests: total,
        passed_tests: passed,
        failed_tests: failed,
        skipped_tests: skipped,
        execution_time_ms,
    }
}

/// Totals grow with the prefix taken.
proof fn lemma_sum_prefix(ss: Seq<SuiteResult>, k: int)
    requires
        0 <= k <= ss.len(),
    ensures
        sum_total(ss.take(k)) <= sum_total(ss),
    decreases ss.len(),
{
    if k < ss.len() {
        assert(ss.drop_last().take(k) == ss.take(k));
        lemma_sum_prefix(ss.drop_last(), k);
    } else {
        assert(ss.take(k) == ss);
    }
}

/// The report of a finished run.
pub fn assemble_results(
    suite_results: Vec<SuiteResult>,
    execution_time_ms: u64,
    execution_metadata: ExecutionMetadata,
) -> (r: TestResults)
    requires
        all_balanced(suite_results@),
        sum_total(suite_results@) <= usize::MAX,
    ensures
        r.suite_results@ == suite_results@,
        r.summary.total_tests == sum_total(suite_results@),
        r.summary.passed_tests == sum_passed(suite_results@),
        r.summary.failed_tests == sum_failed(suite_results@),
        r.summary.skipped_tests == sum_skipped(suite_results@),
        r.summary.execution_time_ms == execution_time_ms,
        r.summary.balanced(),
        r.execution_metadata == execution_metadata,
{
    let summary = summarize_run(&suite_results, execution_time_ms);
    TestResults { summary, suite_results, execution_metadata }
}

} // verus!
