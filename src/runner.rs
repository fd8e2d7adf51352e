//! The run orchestrator's own state and decisions.
//!
//! The runner holds the configuration and the execution options. It decides
//! whether a server is needed, how many cases of a suite may run at once, and
//! whether initialization succeeded. Suites are always all executed: fail-fast
//! stops the remaining cases of the current suite only.

use vstd::prelude::*;
use crate::config::{TestCase, TestConfig, TestSuite};
use crate::case::{plan_case, CaseAction};
use crate::results::{ExecutionMetadata, ServerInfo};
use crate::suite::SuiteScheduler;

verus! {

/// Why a run could not begin.
#[derive(Clone, Debug, PartialEq, Eq)]
pub enum RunError {
    /// The server could not be started; the message says why.
    ServerStart(String),
    /// The server started but reported itself unhealthy.
    HealthCheckFailed,
    /// The health check itself could not be performed.
    HealthCheckError(String),
}

/// Maps the answer of the server's health check to the outcome of
/// initialization: only a healthy answer lets the run go on.
pub fn check_health(health: Result<bool, String>) -> (r: Result<(), RunError>)
    ensures
        health == Ok::<bool, String>(true) ==> r is Ok,
        health == Ok::<bool, String>(false) ==> r == Err::<(), RunError>(RunError::HealthCheckFailed),
        health matches Err(m) ==> r == Err::<(), RunError>(RunError::HealthCheckError(m)),
{
    match health {
        Ok(true) => Ok(()),
        Ok(false) => Err(RunError::HealthCheckFailed),
        Err(m) => Err(RunError::HealthCheckError(m)),
    }
}

/// Relies on chrono's `From<SystemTime> for DateTime<Utc>` (which also accepts
/// clocks set before 1970) and `DateTime::to_rfc3339`: the current UTC time as
/// RFC 3339 text. `to_rfc3339` always writes a date of at least four year
/// digits, `T`, `HH:MM:SS` and a `+00:00` offset, so at least 25 characters.
/// Which time it is depends on the clock, so nothing more is stated.
#[verifier::external_body]
fn utc_now_rfc3339() -> (r: String)
    ensures
        r@.len() >= 25,
{
    chrono::DateTime::<chrono::Utc>::from(std::time::SystemTime::now()).to_rfc3339()
}

/// The moment a run began, as RFC 3339 text.
#[derive(Clone, Debug)]
pub struct RunStart {
    pub start_time: String,
}

impl RunStart {
    /// Reads the clock at the start of a run.
    pub fn now() -> (r: RunStart)
        ensures
            r.start_time@.len() >= 25,
    {
        RunStart { start_time: utc_now_rfc3339() }
    }

    /// Stamps a finished run: the clock is read again for its end time; the
    /// other fields are those given.
    pub fn finish(
        self,
        execution_environment: String,
        test_harness_version: String,
        server_info: Option<ServerInfo>,
    ) -> (r: ExecutionMetadata)
        ensures
            r.start_time@ == self.start_time@,
            r.end_time@.len() >= 25,
            r.execution_environment@ == execution_environment@,
            r.test_harness_version@ == test_harness_version@,
            r.server_info == server_info,
    {
        let end_time = utc_now_rfc3339();
        ExecutionMetadata {
            start_time: self.start_time,
            end_time,
            execution_environment,
            test_harness_version,
            server_info,
        }
    }
}

/// Test execution orchestrator.
#[derive(Clone, Debug)]
pub struct TestRunner {
    config: TestConfig,
    output_format: String,
    validation_only: bool,
    generate_baseline: bool,
    comprehensive: bool,
    parallel_execution: usize,
}

impl TestRunner {
    pub closed spec fn spec_config(&self) -> TestConfig {
        self.config
    }

    pub closed spec fn spec_output_format(&self) -> Seq<char> {
        self.output_format@
    }

    /// `(validation_only, generate_baseline, comprehensive, parallel_execution)`
    pub open spec fn options(&self) -> (bool, bool, bool, nat) {
        (
            self.spec_validation_only(),
            self.spec_generate_baseline(),
            self.spec_comprehensive(),
            self.spec_parallel_execution(),
        )
    }

    pub closed spec fn spec_validation_only(&self) -> bool {
        self.validation_only
    }

    pub closed spec fn spec_generate_baseline(&self) -> bool {
        self.generate_baseline
    }

    pub closed spec fn spec_comprehensive(&self) -> bool {
        self.comprehensive
    }

    pub closed spec fn spec_parallel_execution(&self) -> nat {
        self.parallel_execution as nat
    }

    /// A runner with every option off and one case at a time.
    pub fn new(config: TestConfig, output_format: String) -> (r: Result<Self, RunError>)
        ensures
            r matches Ok(t) && {
                &&& t.spec_config() == config
                &&& t.spec_output_format() == output_format@
                &&& !t.spec_validation_only()
                &&& !t.spec_generate_baseline()
                &&& !t.spec_comprehensive()
                &&& t.spec_parallel_execution() == 1
            },
    {
        Ok(TestRunner {
            config,
            output_format,
            validation_only: false,
            generate_baseline: false,
            comprehensive: false,
            parallel_execution: 1,
        })
    }

    /// Sets the command that launches the server, and its working directory
    /// when one is given.
    pub fn set_server_command(&mut self, command: String, working_dir: Option<String>)
        ensures
            final(self).spec_config().server.command == Some(command),
            working_dir is Some ==> final(self).spec_config().server.working_dir == working_dir,
            working_dir is None ==> final(self).spec_config().server.working_dir == old(
                self,
            ).spec_config().server.working_dir,
            final(self).spec_config().global == old(self).spec_config().global,
            final(self).spec_config().test_suites == old(self).spec_config().test_suites,
            final(self).spec_output_format() == old(self).spec_output_format(),
            final(self).spec_validation_only() == old(self).spec_validation_only(),
            final(self).spec_generate_baseline() == old(self).spec_generate_baseline(),
            final(self).spec_comprehensive() == old(self).spec_comprehensive(),
            final(self).spec_parallel_execution() == old(self).spec_parallel_execution(),
    {
        self.config.server.command = Some(command);
        if let Some(dir) = working_dir {
            self.config.server.working_dir = Some(dir);
        }
    }

    pub fn set_validation_only(&mut self, validation_only: bool)
        ensures
            final(self).spec_config() == old(self).spec_config(),
            final(self).spec_output_format() == old(self).spec_output_format(),
            ({
                let o = old(self).options();
                final(self).options() == (validation_only, o.1, o.2, o.3)
            }),
    {
        self.validation_only = validation_only;
    }

    pub fn set_generate_baseline(&mut self, generate_baseline: bool)
        ensures
            final(self).spec_config() == old(self).spec_config(),
            final(self).spec_output_format() == old(self).spec_output_format(),
            ({
                let o = old(self).options();
                final(self).options() == (o.0, generate_baseline, o.2, o.3)
            }),
    {
        self.generate_baseline = generate_baseline;
    }

    pub fn set_comprehensive(&mut self, comprehensive: bool)
        ensures
            final(self).spec_config() == old(self).spec_config(),
            final(self).spec_output_format() == old(self).spec_output_format(),
            ({
                let o = old(self).options();
                final(self).options() == (o.0, o.1, comprehensive, o.3)
            }),
    {
        self.comprehensive = comprehensive;
    }

    pub fn set_parallel_execution(&mut self, parallel: usize)
        ensures
            final(self).spec_config() == old(self).spec_config(),
            final(self).spec_output_format() == old(self).spec_output_format(),
            ({
                let o = old(self).options();
                final(self).options() == (o.0, o.1, o.2, parallel as nat)
            }),
    {
        self.parallel_execution = parallel;
    }

    pub fn config(&self) -> (r: &TestConfig)
        ensures
            *r == self.spec_config(),
    {
        &self.config
    }

    pub fn output_format(&self) -> (r: &String)
        ensures
            r@ == self.spec_output_format(),
    {
        &self.output_format
    }

    /// A server is started for every run but a validation-only one.
    pub fn needs_server(&self) -> (r: bool)
        ensures
            r == !self.spec_validation_only(),
    {
        !self.validation_only
    }

    /// How many cases of a suite may run at once: the configured degree when
    /// it exceeds one, else one (sequential execution).
    pub fn suite_concurrency(&self) -> (r: usize)
        ensures
            r >= 1,
            self.spec_parallel_execution() > 1 ==> r == self.spec_parallel_execution(),
            self.spec_parallel_execution() <= 1 ==> r == 1,
    {
        if self.parallel_execution > 1 {
            self.parallel_execution
        } else {
            1
        }
    }

    /// A fresh scheduler for `suite` under this runner's concurrency and
    /// fail-fast policy.
    pub fn scheduler_for(&self, suite: &TestSuite) -> (r: SuiteScheduler)
        ensures
            r.wf(),
            r.declared() == suite.test_cases@.len(),
            r.max_concurrency() >= 1,
            self.spec_parallel_execution() > 1 ==> r.max_concurrency() == self.spec_parallel_execution(),
            self.spec_parallel_execution() <= 1 ==> r.max_concurrency() == 1,
            r.fail_fast() == self.spec_config().global.fail_fast,
            r.launched() == 0,
            r.in_flight() == 0,
            !r.failure_seen(),
            forall|j: int| 0 <= j < suite.test_cases@.len() ==> #[trigger] r.slots()[j] is None,
    {
        SuiteScheduler::new(suite.test_cases.len(), self.suite_concurrency(), self.config.global.fail_fast)
    }

    /// The step that executing `case` takes under this runner's mode.
    pub fn case_action(&self, case: &TestCase) -> (r: CaseAction)
        ensures
            !case.enabled ==> r == CaseAction::Skip,
            case.enabled && self.spec_validation_only() ==> r == CaseAction::ValidateDefinition,
            case.enabled && !self.spec_validation_only() ==> r == CaseAction::CallServer,
    {
        plan_case(case, self.validation_only)
    }
}

} // verus!
