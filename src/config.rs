//! The configuration that a run executes: server settings, global policy and
//! the ordered suites of cases.

use vstd::prelude::*;

verus! {

/// One operation invocation with fixed input. `input_params` holds the
/// parameters as JSON text; the engine never looks inside it.
#[derive(Clone, Debug)]
pub struct TestCase {
    pub id: String,
    pub tool_name: String,
    pub input_params: String,
    pub enabled: bool,
}

/// A named, ordered group of cases.
#[derive(Clone, Debug)]
pub struct TestSuite {
    pub name: String,
    pub test_cases: Vec<TestCase>,
}

/// How the server under test is launched.
#[derive(Clone, Debug)]
pub struct ServerConfig {
    pub command: Option<String>,
    pub working_dir: Option<String>,
}

/// Policy shared by all suites of a run.
#[derive(Clone, Copy, Debug)]
pub struct GlobalConfig {
    pub fail_fast: bool,
}

#[derive(Clone, Debug)]
pub struct TestConfig {
    pub server: ServerConfig,
    pub global: GlobalConfig,
    pub test_suites: Vec<TestSuite>,
}

impl TestConfig {
    /// A configuration with no server command, fail-fast off and no suites.
    pub fn default_config() -> (r: TestConfig)
        ensures
            r.server.command is None,
            r.server.working_dir is None,
            !r.global.fail_fast,
            r.test_suites@.len() == 0,
    {
        TestConfig {
            server: ServerConfig { command: None, working_dir: None },
            global: GlobalConfig { fail_fast: false },
            test_suites: Vec::new(),
        }
    }
}

} // verus!
