//! Benchmark loop bounds and latency statistics.
//!
//! A benchmark repeats one case while fewer than `max_iterations` attempts
//! were made and the elapsed time is under the limit. Every attempt counts as
//! an iteration; only attempts that succeeded leave a latency sample.

use vstd::prelude::*;

verus! {

pub open spec fn sum_of(s: Seq<u64>) -> int
    decreases s.len(),
{
    if s.len() == 0 {
        0
    } else {
        sum_of(s.drop_last()) + s.last()
    }
}

/// Smallest sample, or zero when there is none.
pub open spec fn min_of(s: Seq<u64>) -> int
    decreases s.len(),
{
    if s.len() == 0 {
        0
    } else if s.len() == 1 || s.last() <= min_of(s.drop_last()) {
        s.last() as int
    } else {
        min_of(s.drop_last())
    }
}

/// Largest sample, or zero when there is none.
pub open spec fn max_of(s: Seq<u64>) -> int
    decreases s.len(),
{
    if s.len() == 0 {
        0
    } else if s.len() == 1 || s.last() >= max_of(s.drop_last()) {
        s.last() as int
    } else {
        max_of(s.drop_last())
    }
}

/// The extrema bound every sample, and are samples.
pub proof fn lemma_extrema(s: Seq<u64>)
    requires
        s.len() >= 1,
    ensures
        forall|i: int| 0 <= i < s.len() ==> min_of(s) <= #[trigger] s[i] <= max_of(s),
        exists|i: int| 0 <= i < s.len() && s[i] == min_of(s),
        exists|i: int| 0 <= i < s.len() && s[i] == max_of(s),
    decreases s.len(),
{
    if s.len() > 1 {
        lemma_extrema(s.drop_last());
        assert forall|i: int| 0 <= i < s.len() implies min_of(s) <= #[trigger] s[i] <= max_of(s) by {
            if i < s.len() - 1 {
                assert(s.drop_last()[i] == s[i]);
            }
        }
        let a = choose|i: int| 0 <= i < s.len() - 1 && s.drop_last()[i] == min_of(s.drop_last());
        let b = choose|i: int| 0 <= i < s.len() - 1 && s.drop_last()[i] == max_of(s.drop_last());
        assert(s[a] == s.drop_last()[a]);
        assert(s[b] == s.drop_last()[b]);
    } else {
        assert(s[0] == s.last());
    }
}

/// The mean lies between the extrema: `min * n <= sum <= max * n`.
pub proof fn lemma_mean_between_extrema(s: Seq<u64>)
    requires
        s.len() >= 1,
    ensures
        min_of(s) * s.len() <= sum_of(s) <= max_of(s) * s.len(),
        min_of(s) <= max_of(s),
{
    lemma_extrema(s);
    lemma_sum_bounds(s, min_of(s), max_of(s));
    assert(min_of(s) <= s[0] <= max_of(s));
}

proof fn lemma_sum_bounds(s: Seq<u64>, lo: int, hi: int)
    requires
        forall|i: int| 0 <= i < s.len() ==> lo <= #[trigger] s[i] <= hi,
    ensures
        lo * s.len() <= sum_of(s) <= hi * s.len(),
    decreases s.len(),
{
    if s.len() > 0 {
        let t = s.drop_last();
        assert forall|i: int| 0 <= i < t.len() implies lo <= #[trigger] t[i] <= hi by {
            assert(t[i] == s[i]);
        }
        lemma_sum_bounds(t, lo, hi);
        assert(lo <= s[s.len() - 1] <= hi);
        assert(lo * s.len() == lo * t.len() + lo) by (nonlinear_arith)
            requires s.len() == t.len() + 1;
        assert(hi * s.len() == hi * t.len() + hi) by (nonlinear_arith)
            requires s.len() == t.len() + 1;
    }
}

/// Statistics of one benchmarked case, over exact integer milliseconds.
///
/// The mean is `total_time_ms / latencies_ms.len()` and the throughput
/// `1000 / mean` operations per second; both are zero when there is no sample.
#[derive(Clone, Debug)]
pub struct BenchmarkTestResult {
    pub test_name: String,
    /// Attempts made, failed ones included.
    pub iterations_completed: usize,
    /// Latency of each successful attempt, in order.
    pub latencies_ms: Vec<u64>,
    pub total_time_ms: u128,
    pub min_time_ms: u64,
    pub max_time_ms: u64,
}

impl BenchmarkTestResult {
    /// The timing fields are those of the samples.
    pub open spec fn consistent(&self) -> bool {
        &&& self.latencies_ms@.len() <= self.iterations_completed
        &&& self.total_time_ms == sum_of(self.latencies_ms@)
        &&& self.min_time_ms == min_of(self.latencies_ms@)
        &&& self.max_time_ms == max_of(self.latencies_ms@)
    }

    /// With at least one sample the mean lies between the extrema
    /// (`min * n <= total <= max * n`); with none every timing field is zero.
    pub proof fn lemma_timing_bounds(&self)
        requires
            self.consistent(),
        ensures
            self.latencies_ms@.len() >= 1 ==> {
                &&& self.min_time_ms * self.latencies_ms@.len() <= self.total_time_ms
                &&& self.total_time_ms <= self.max_time_ms * self.latencies_ms@.len()
                &&& self.min_time_ms <= self.max_time_ms
            },
            self.latencies_ms@.len() == 0 ==> self.total_time_ms == 0 && self.min_time_ms == 0
                && self.max_time_ms == 0,
    {
        if self.latencies_ms@.len() >= 1 {
            lemma_mean_between_extrema(self.latencies_ms@);
        }
    }

    /// The mean latency as a fraction `(total, samples)`, or `None` when no
    /// attempt succeeded (the mean is then zero).
    pub fn mean_ratio(&self) -> (r: Option<(u128, usize)>)
        ensures
            self.latencies_ms@.len() == 0 ==> r is None,
            self.latencies_ms@.len() > 0 ==> r == Some((self.total_time_ms, self.latencies_ms@.len() as usize)),
    {
        if self.latencies_ms.len() > 0 {
            Some((self.total_time_ms, self.latencies_ms.len()))
        } else {
            None
        }
    }

    /// Throughput `1000 / mean` as a fraction `(1000 * samples, total)`, or
    /// `None` when the mean is zero.
    pub fn ops_ratio(&self) -> (r: Option<(u128, u128)>)
        ensures
            (self.latencies_ms@.len() == 0 || self.total_time_ms == 0) ==> r is None,
            (self.latencies_ms@.len() > 0 && self.total_time_ms > 0) ==> r == Some(
                ((1000 * self.latencies_ms@.len()) as u128, self.total_time_ms),
            ),
    {
        if self.latencies_ms.len() > 0 && self.total_time_ms > 0 {
            let n = self.latencies_ms.len() as u128;
            Some((1000 * n, self.total_time_ms))
        } else {
            None
        }
    }
}

/// State of the loop that benchmarks one case.
pub struct BenchmarkLoop {
    max_iterations: usize,
    duration_limit_ms: u128,
    iterations: usize,
    latencies: Vec<u64>,
}

impl BenchmarkLoop {
    pub closed spec fn max_iterations(&self) -> nat {
        self.max_iterations as nat
    }

    pub closed spec fn duration_limit_ms(&self) -> nat {
        self.duration_limit_ms as nat
    }

    /// Attempts begun so far.
    pub closed spec fn iterations(&self) -> nat {
        self.iterations as nat
    }

    /// Latencies of the attempts that succeeded.
    pub closed spec fn latencies(&self) -> Seq<u64> {
        self.latencies@
    }

    /// Never more attempts than allowed, and at most one sample per attempt.
    pub closed spec fn wf(&self) -> bool {
        self.latencies@.len() <= self.iterations <= self.max_iterations
    }

    /// A loop of at most `max_iterations` attempts within `duration_seconds`.
    pub fn new(max_iterations: usize, duration_seconds: u64) -> (r: Self)
        ensures
            r.wf(),
            r.max_iterations() == max_iterations,
            r.duration_limit_ms() == duration_seconds * 1000,
            r.iterations() == 0,
            r.latencies().len() == 0,
    {
        BenchmarkLoop {
            max_iterations,
            duration_limit_ms: duration_seconds as u128 * 1000,
            iterations: 0,
            latencies: Vec::new(),
        }
    }

    /// Decides, `elapsed_ms` after the loop started, whether another attempt
    /// begins; if so it is counted at once, whatever its outcome.
    pub fn begin_iteration(&mut self, elapsed_ms: u128) -> (r: bool)
        requires
            old(self).wf(),
        ensures
            final(self).wf(),
            r == (old(self).iterations() < old(self).max_iterations() && elapsed_ms
                < old(self).duration_limit_ms()),
            r ==> final(self).iterations() == old(self).iterations() + 1,
            !r ==> final(self).iterations() == old(self).iterations(),
            final(self).latencies() == old(self).latencies(),
            final(self).max_iterations() == old(self).max_iterations(),
            final(self).duration_limit_ms() == old(self).duration_limit_ms(),
    {
        if self.iterations < self.max_iterations && elapsed_ms < self.duration_limit_ms {
            self.iterations = self.iterations + 1;
            true
        } else {
            false
        }
    }

    /// Records the latency of the attempt just begun, which succeeded.
    pub fn record_success(&mut self, latency_ms: u64)
        requires
            old(self).wf(),
            old(self).latencies().len() < old(self).iterations(),
        ensures
            final(self).wf(),
            final(self).latencies() == old(self).latencies().push(latency_ms),
            final(self).iterations() == old(self).iterations(),
            final(self).max_iterations() == old(self).max_iterations(),
            final(self).duration_limit_ms() == old(self).duration_limit_ms(),
    {
        self.latencies.push(latency_ms);
    }

    /// The statistics of the finished loop.
    pub fn finish(self, test_name: String) -> (r: BenchmarkTestResult)
        requires
            self.wf(),
        ensures
            r.test_name@ == test_name@,
            r.iterations_completed == self.iterations(),
            r.iterations_completed <= self.max_iterations(),
            r.latencies_ms@ == self.latencies(),
            r.total_time_ms == sum_of(self.latencies()),
            r.min_time_ms == min_of(self.latencies()),
            r.max_time_ms == max_of(self.latencies()),
            r.consistent(),
    {
        let iterations = self.iterations;
        let latencies = self.latencies;
        let (total, lo, hi) = latency_stats(&latencies);
        BenchmarkTestResult {
            test_name,
            iterations_completed: iterations,
            latencies_ms: latencies,
            total_time_ms: total,
            min_time_ms: lo,
            max_time_ms: hi,
        }
    }
}

/// Sum, minimum and maximum of the samples; zero extrema when there is none.
pub fn latency_stats(samples: &Vec<u64>) -> (r: (u128, u64, u64))
    ensures
        r.0 == sum_of(samples@),
        r.1 == min_of(samples@),
        r.2 == max_of(samples@),
{
    let mut total: u128 = 0;
    let mut lo: u64 = 0;
    let mut hi: u64 = 0;
    let mut i: usize = 0;
    while i < samples.len()
        invariant
            i <= samples@.len(),
            total == sum_of(samples@.take(i as int)),
            lo == min_of(samples@.take(i as int)),
            hi == max_of(samples@.take(i as int)),
            total <= i * 0xffff_ffff_ffff_ffffu128,
        decreases samples@.len() - i,
    {
        let ghost before = samples@.take(i as int);
        let ghost after = samples@.take(i + 1);
        assert(after.drop_last() == before);
        let t = samples[i];
        assert(total + t <= (i + 1) * 0xffff_ffff_ffff_ffffu128) by (nonlinear_arith)
            requires
                total <= i * 0xffff_ffff_ffff_ffffu128,
                t <= 0xffff_ffff_ffff_ffffu64,
        ;
        total = total + t as u128;
        if i == 0 || t <= lo {
            lo = t;
        }
        if i == 0 || t >= hi {
            hi = t;
        }
        i = i + 1;
    }
    assert(samples@.take(i as int) == samples@);
    (total, lo, hi)
}

} // verus!

verus! {

pub open spec fn sum_iterations(rs: Seq<BenchmarkTestResult>) -> int
    decreases rs.len(),
{
    if rs.len() == 0 {
        0
    } else {
        sum_iterations(rs.drop_last()) + rs.last().iterations_completed
    }
}

/// Iterations of the cases that showed a positive throughput.
pub open spec fn sum_productive_iterations(rs: Seq<BenchmarkTestResult>) -> int
    decreases rs.len(),
{
    if rs.len() == 0 {
        0
    } else {
        sum_productive_iterations(rs.drop_last()) + if rs.last().latencies_ms@.len() > 0
            && rs.last().total_time_ms > 0 {
            rs.last().iterations_completed as int
        } else {
            0
        }
    }
}

/// Totals over all benchmarked cases.
#[derive(Clone, Copy, Debug)]
pub struct BenchmarkSummary {
    pub total_iterations: u128,
    /// Iterations of the cases whose throughput is positive.
    pub productive_iterations: u128,
    pub duration_seconds: u64,
}

#[derive(Clone, Debug)]
pub struct BenchmarkResults {
    pub benchmark_summary: BenchmarkSummary,
    pub detailed_results: Vec<BenchmarkTestResult>,
}

proof fn lemma_productive_le(rs: Seq<BenchmarkTestResult>)
    ensures
        0 <= sum_productive_iterations(rs) <= sum_iterations(rs),
        sum_iterations(rs) <= rs.len() * 0xffff_ffff_ffff_ffff,
    decreases rs.len(),
{
    if rs.len() > 0 {
        lemma_productive_le(rs.drop_last());
    }
}

/// Folds the per-case results of a benchmark run into its summary.
pub fn summarize_benchmark(detailed_results: Vec<BenchmarkTestResult>, duration_seconds: u64) -> (r:
    BenchmarkResults)
    ensures
        r.detailed_results@ == detailed_results@,
        r.benchmark_summary.total_iterations == sum_iterations(detailed_results@),
        r.benchmark_summary.productive_iterations == sum_productive_iterations(detailed_results@),
        r.benchmark_summary.duration_seconds == duration_seconds,
{
    let mut total: u128 = 0;
    let mut productive: u128 = 0;
    let mut i: usize = 0;
    while i < detailed_results.len()
        invariant
            i <= detailed_results@.len(),
            total == sum_iterations(detailed_results@.take(i as int)),
            productive == sum_productive_iterations(detailed_results@.take(i as int)),
        decreases detailed_results@.len() - i,
    {
        let ghost before = detailed_results@.take(i as int);
        let ghost after = detailed_results@.take(i + 1);
        assert(after.drop_last() == before);
        proof {
            lemma_productive_le(before);
            assert(i < 0xffff_ffff_ffff_ffffu128);
            assert(total + 0xffff_ffff_ffff_ffffu128 <= (i + 1) * 0xffff_ffff_ffff_ffffu128) by (nonlinear_arith)
                requires
                    total <= i * 0xffff_ffff_ffff_ffffu128,
            ;
        }
        let d = &detailed_results[i];
        total = total + d.iterations_completed as u128;
        if d.latencies_ms.len() > 0 && d.total_time_ms > 0 {
            productive = productive + d.iterations_completed as u128;
        }
        i = i + 1;
    }
    assert(detailed_results@.take(i as int) == detailed_results@);
    BenchmarkResults {
        benchmark_summary: BenchmarkSummary {
            total_iterations: total,
            productive_iterations: productive,
            duration_seconds,
        },
        detailed_results,
    }
}

} // verus!

verus! {

/// Position `(suite, case)` of an enabled case of `suites`.
pub open spec fn is_target(suites: Seq<crate::config::TestSuite>, p: (usize, usize)) -> bool {
    &&& p.0 < suites.len()
    &&& p.1 < suites[p.0 as int].test_cases@.len()
    &&& suites[p.0 as int].test_cases@[p.1 as int].enabled
}

/// Suite order first, then case order.
pub open spec fn precedes(a: (usize, usize), b: (usize, usize)) -> bool {
    a.0 < b.0 || (a.0 == b.0 && a.1 < b.1)
}

/// The cases a benchmark covers: every enabled case of every suite, each once,
/// in suite order and then case order.
pub fn benchmark_targets(suites: &Vec<crate::config::TestSuite>) -> (r: Vec<(usize, usize)>)
    ensures
        forall|k: int| 0 <= k < r@.len() ==> is_target(suites@, #[trigger] r@[k]),
        forall|k: int, l: int| 0 <= k < l < r@.len() ==> precedes(#[trigger] r@[k], #[trigger] r@[l]),
        forall|p: (usize, usize)| is_target(suites@, p) ==> exists|k: int| 0 <= k < r@.len() && #[trigger] r@[k] == p,
{
    let mut r: Vec<(usize, usize)> = Vec::new();
    let mut i: usize = 0;
    while i < suites.len()
        invariant
            i <= suites@.len(),
            forall|k: int| 0 <= k < r@.len() ==> is_target(suites@, #[trigger] r@[k]),
            forall|k: int, l: int| 0 <= k < l < r@.len() ==> precedes(#[trigger] r@[k], #[trigger] r@[l]),
            forall|k: int| 0 <= k < r@.len() ==> (#[trigger] r@[k]).0 < i,
            forall|p: (usize, usize)| is_target(suites@, p) && p.0 < i ==> exists|k: int| 0 <= k < r@.len() && #[trigger] r@[k] == p,
        decreases suites@.len() - i,
    {
        let cases = &suites[i].test_cases;
        let mut j: usize = 0;
        while j < cases.len()
            invariant
                i < suites@.len(),
                *cases == suites@[i as int].test_cases,
                j <= cases@.len(),
                forall|k: int| 0 <= k < r@.len() ==> is_target(suites@, #[trigger] r@[k]),
                forall|k: int, l: int| 0 <= k < l < r@.len() ==> precedes(#[trigger] r@[k], #[trigger] r@[l]),
                forall|k: int| 0 <= k < r@.len() ==> precedes(#[trigger] r@[k], (i, j)),
                forall|p: (usize, usize)| is_target(suites@, p) && (p.0 < i || (p.0 == i && p.1 < j))
                    ==> exists|k: int| 0 <= k < r@.len() && #[trigger] r@[k] == p,
            decreases cases@.len() - j,
        {
            if cases[j].enabled {
                let ghost old_r = r@;
                r.push((i, j));
                proof {
                    assert(r@[old_r.len() as int] == (i, j));
                    assert forall|k: int| 0 <= k < old_r.len() implies r@[k] == old_r[k] by {}
                    assert forall|p: (usize, usize)| is_target(suites@, p) && (p.0 < i || (p.0 == i && p.1 < j + 1))
                        implies exists|k: int| 0 <= k < r@.len() && #[trigger] r@[k] == p by {
                        if p.0 == i && p.1 == j {
                            assert(r@[old_r.len() as int] == p);
                        } else {
                            let k = choose|k: int| 0 <= k < old_r.len() && #[trigger] old_r[k] == p;
                            assert(r@[k] == p);
                        }
                    }
                }
            }
            j = j + 1;
        }
        i = i + 1;
    }
    r
}

} // verus!
