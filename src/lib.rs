//! Execution and aggregation engine of a protocol test harness.
//!
//! The library holds the decisions of a test run: the status of each case,
//! the order and the fail-fast policy of a suite, the folding of results into
//! summaries, and the bounds and statistics of a benchmark loop. Talking to the
//! server, reading the clock and rendering reports happen around it.

use vstd::prelude::*;

pub mod benchmark;
pub mod case;
pub mod config;
pub mod results;
pub mod runner;
pub mod suite;

verus! {

} // verus!
