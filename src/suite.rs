//! Scheduling of the cases of one suite.
//!
//! Cases are launched in declared order, at most `max_concurrency` at a time.
//! With fail-fast on, once a failed case has been recorded no further case is
//! launched, while those already launched still complete. Results are kept in
//! a slot per declared case, so they come out in declared order whatever the
//! order of completion. A concurrency of one is sequential execution.

use vstd::prelude::*;
use crate::config::{TestCase, TestSuite};
use crate::results::{is_failure, summarize_suite, num_failed, num_passed, num_skipped, SuiteResult, TestCaseResult};

verus! {

/// Number of filled slots.
pub open spec fn num_done(s: Seq<Option<TestCaseResult>>) -> nat
    decreases s.len(),
{
    if s.len() == 0 {
        0
    } else {
        num_done(s.drop_last()) + if s.last() is Some { 1nat } else { 0nat }
    }
}

/// A slot that holds a failed or errored result.
pub open spec fn slot_failed(o: Option<TestCaseResult>) -> bool {
    match o {
        Some(r) => is_failure(r.status),
        None => false,
    }
}

pub open spec fn any_failed(s: Seq<Option<TestCaseResult>>) -> bool {
    exists|j: int| 0 <= j < s.len() && slot_failed(#[trigger] s[j])
}

proof fn lemma_done_fill(s: Seq<Option<TestCaseResult>>, i: int, v: TestCaseResult)
    requires
        0 <= i < s.len(),
        s[i] is None,
    ensures
        num_done(s.update(i, Some(v))) == num_done(s) + 1,
    decreases s.len(),
{
    let t = s.update(i, Some(v));
    if i == s.len() - 1 {
        assert(t.drop_last() == s.drop_last());
    } else {
        assert(t.drop_last() == s.drop_last().update(i, Some(v)));
        lemma_done_fill(s.drop_last(), i, v);
    }
}

/// Slots from `k` on are empty, so at most `k` slots are filled, and all of the
/// first `k` when exactly `k` are.
proof fn lemma_done_prefix(s: Seq<Option<TestCaseResult>>, k: int)
    requires
        0 <= k <= s.len(),
        forall|j: int| k <= j < s.len() ==> #[trigger] s[j] is None,
    ensures
        num_done(s) <= k,
        num_done(s) == k ==> forall|j: int| 0 <= j < k ==> #[trigger] s[j] is Some,
    decreases s.len(),
{
    if s.len() > 0 {
        if k == s.len() {
            lemma_done_prefix(s.drop_last(), k - 1);
            if num_done(s) == k {
                assert forall|j: int| 0 <= j < k implies #[trigger] s[j] is Some by {
                    if j < k - 1 {
                        assert(s.drop_last()[j] == s[j]);
                    }
                }
            }
        } else {
            lemma_done_prefix(s.drop_last(), k);
            assert forall|j: int| 0 <= j < k implies #[trigger] s[j] is Some || num_done(s) < k by {
                if num_done(s) == k {
                    assert(s.drop_last()[j] == s[j]);
                }
            }
        }
    }
}

pub struct SuiteScheduler {
    declared: usize,
    max_concurrency: usize,
    fail_fast: bool,
    launched: usize,
    in_flight: usize,
    failure_seen: bool,
    slots: Vec<Option<TestCaseResult>>,
}

impl SuiteScheduler {
    /// Number of cases in the suite.
    pub closed spec fn declared(&self) -> nat {
        self.declared as nat
    }

    pub closed spec fn max_concurrency(&self) -> nat {
        self.max_concurrency as nat
    }

    pub closed spec fn fail_fast(&self) -> bool {
        self.fail_fast
    }

    /// Cases `0 .. launched()` have been launched.
    pub closed spec fn launched(&self) -> nat {
        self.launched as nat
    }

    /// Launched cases whose result has not been recorded yet.
    pub closed spec fn in_flight(&self) -> nat {
        self.in_flight as nat
    }

    /// Some recorded result is Failed or Error.
    pub closed spec fn failure_seen(&self) -> bool {
        self.failure_seen
    }

    /// The recorded result of each declared case, if any.
    pub closed spec fn slots(&self) -> Seq<Option<TestCaseResult>> {
        self.slots@
    }

    pub closed spec fn wf(&self) -> bool {
        &&& self.slots@.len() == self.declared
        &&& self.max_concurrency >= 1
        &&& self.launched <= self.declared
        &&& forall|j: int| self.launched <= j < self.declared ==> #[trigger] self.slots@[j] is None
        &&& self.in_flight + num_done(self.slots@) == self.launched
        &&& self.in_flight <= self.max_concurrency
        &&& self.failure_seen == any_failed(self.slots@)
    }

    /// What well-formedness gives a caller: one slot per declared case,
    /// launches within the suite, running cases within the bound, and no
    /// result for a case not yet launched.
    pub proof fn lemma_wf(&self)
        requires
            self.wf(),
        ensures
            self.slots().len() == self.declared(),
            self.launched() <= self.declared(),
            self.in_flight() <= self.launched(),
            self.in_flight() <= self.max_concurrency(),
            self.max_concurrency() >= 1,
            forall|j: int| self.launched() <= j < self.declared() ==> #[trigger] self.slots()[j] is None,
            self.failure_seen() == any_failed(self.slots()),
    {
    }

    /// Another case may be launched now.
    pub open spec fn may_launch(&self) -> bool {
        &&& self.launched() < self.declared()
        &&& self.in_flight() < self.max_concurrency()
        &&& !(self.fail_fast() && self.failure_seen())
    }

    /// A scheduler for a suite of `declared` cases with nothing launched yet.
    pub fn new(declared: usize, max_concurrency: usize, fail_fast: bool) -> (r: Self)
        requires
            max_concurrency >= 1,
        ensures
            r.wf(),
            r.declared() == declared,
            r.max_concurrency() == max_concurrency,
            r.fail_fast() == fail_fast,
            r.launched() == 0,
            r.in_flight() == 0,
            !r.failure_seen(),
            forall|j: int| 0 <= j < declared ==> #[trigger] r.slots()[j] is None,
    {
        let mut slots: Vec<Option<TestCaseResult>> = Vec::new();
        let mut i: usize = 0;
        while i < declared
            invariant
                i <= declared,
                slots@.len() == i,
                forall|j: int| 0 <= j < i ==> #[trigger] slots@[j] is None,
            decreases declared - i,
        {
            slots.push(None);
            i = i + 1;
        }
        proof {
            lemma_done_prefix(slots@, 0);
        }
        SuiteScheduler {
            declared,
            max_concurrency,
            fail_fast,
            launched: 0,
            in_flight: 0,
            failure_seen: false,
            slots,
        }
    }

    /// Launches the next case in declared order, if the concurrency bound and
    /// the fail-fast policy allow it, and returns its index.
    pub fn next_launch(&mut self) -> (r: Option<usize>)
        requires
            old(self).wf(),
        ensures
            final(self).wf(),
            old(self).may_launch() ==> {
                &&& r == Some(old(self).launched() as usize)
                &&& final(self).launched() == old(self).launched() + 1
                &&& final(self).in_flight() == old(self).in_flight() + 1
                &&& final(self).slots() == old(self).slots()
                &&& final(self).failure_seen() == old(self).failure_seen()
            },
            !old(self).may_launch() ==> r is None && *final(self) == *old(self),
            final(self).declared() == old(self).declared(),
            final(self).max_concurrency() == old(self).max_concurrency(),
            final(self).fail_fast() == old(self).fail_fast(),
    {
        if self.launched < self.declared && self.in_flight < self.max_concurrency && !(self.fail_fast
            && self.failure_seen) {
            let index = self.launched;
            self.launched = self.launched + 1;
            self.in_flight = self.in_flight + 1;
            Some(index)
        } else {
            None
        }
    }

    /// Records the result of the launched case `index`.
    pub fn complete(&mut self, index: usize, result: TestCaseResult)
        requires
            old(self).wf(),
            index < old(self).launched(),
            old(self).slots()[index as int] is None,
        ensures
            final(self).wf(),
            final(self).slots() == old(self).slots().update(index as int, Some(result)),
            final(self).launched() == old(self).launched(),
            final(self).in_flight() + 1 == old(self).in_flight(),
            final(self).failure_seen() == (old(self).failure_seen() || is_failure(result.status)),
            final(self).declared() == old(self).declared(),
            final(self).max_concurrency() == old(self).max_concurrency(),
            final(self).fail_fast() == old(self).fail_fast(),
    {
        let ghost before = self.slots@;
        proof {
            lemma_done_fill(before, index as int, result);
            lemma_done_prefix(before, self.launched as int);
        }
        let failed = match result.status {
            crate::results::TestStatus::Failed | crate::results::TestStatus::Error => true,
            _ => false,
        };
        self.slots.set(index, Some(result));
        self.in_flight = self.in_flight - 1;
        self.failure_seen = self.failure_seen || failed;
        proof {
            let after = self.slots@;
            if failed {
                assert(slot_failed(after[index as int]));
            }
            if any_failed(before) {
                let j = choose|j: int| 0 <= j < before.len() && slot_failed(#[trigger] before[j]);
                if j != index {
                    assert(after[j] == before[j]);
                }
            }
            if any_failed(after) {
                let j = choose|j: int| 0 <= j < after.len() && slot_failed(#[trigger] after[j]);
                if j != index {
                    assert(before[j] == after[j]);
                }
            }
        }
    }

    /// No case is running and none may be launched: the suite is over.
    pub fn is_finished(&self) -> (r: bool)
        requires
            self.wf(),
        ensures
            r == (self.in_flight() == 0 && !self.may_launch()),
    {
        self.in_flight == 0 && !(self.launched < self.declared && self.in_flight < self.max_concurrency
            && !(self.fail_fast && self.failure_seen))
    }

    /// The results of all launched cases, in declared order.
    pub fn into_results(self) -> (r: Vec<TestCaseResult>)
        requires
            self.wf(),
            self.in_flight() == 0,
        ensures
            r@.len() == self.launched(),
            forall|j: int| 0 <= j < self.launched() ==> #[trigger] self.slots()[j] == Some(r@[j]),
    {
        proof {
            lemma_done_prefix(self.slots@, self.launched as int);
        }
        let ghost all = self.slots@;
        let launched = self.launched;
        let mut slots = self.slots;
        let mut out: Vec<TestCaseResult> = Vec::new();
        let mut i: usize = 0;
        while i < launched
            invariant
                i <= launched,
                launched <= all.len(),
                slots@ == all.subrange(i as int, all.len() as int),
                out@.len() == i,
                forall|j: int| 0 <= j < launched ==> #[trigger] all[j] is Some,
                forall|j: int| 0 <= j < i ==> #[trigger] all[j] == Some(out@[j]),
            decreases launched - i,
        {
            let slot = slots.remove(0);
            assert(slot == all[i as int]);
            match slot {
                Some(res) => out.push(res),
                None => {
                    assert(false);
                },
            }
            i = i + 1;
            assert(slots@ =~= all.subrange(i as int, all.len() as int));
        }
        out
    }
}


/// The slot holds no result, or the result of case `c`.
pub open spec fn slot_for_case(o: Option<TestCaseResult>, c: TestCase) -> bool {
    match o {
        Some(r) => r.test_id@ == c.id@,
        None => true,
    }
}

/// Closes a suite whose launched cases have all completed: its results in
/// declared order, with their summary. Cases never launched are absent; when
/// nothing more may be launched and fail-fast is off, every case has its result.
pub fn finish_suite(suite: &TestSuite, scheduler: SuiteScheduler, execution_time_ms: u64) -> (r: SuiteResult)
    requires
        scheduler.wf(),
        scheduler.in_flight() == 0,
        scheduler.declared() == suite.test_cases@.len(),
        forall|j: int| 0 <= j < scheduler.declared() ==> slot_for_case(
            #[trigger] scheduler.slots()[j],
            suite.test_cases@[j],
        ),
    ensures
        forall|j: int| 0 <= j < scheduler.launched() ==> (#[trigger] r.test_case_results@[j]).test_id@
            == suite.test_cases@[j].id@,
        !scheduler.may_launch() && !scheduler.fail_fast() ==> r.test_case_results@.len()
            == suite.test_cases@.len(),
        r.suite_name@ == suite.name@,
        r.test_case_results@.len() == scheduler.launched(),
        forall|j: int| 0 <= j < scheduler.launched() ==> #[trigger] scheduler.slots()[j] == Some(r.test_case_results@[j]),
        r.suite_summary.total_cases == scheduler.launched(),
        r.suite_summary.passed_cases == num_passed(r.test_case_results@),
        r.suite_summary.failed_cases == num_failed(r.test_case_results@),
        r.suite_summary.skipped_cases == num_skipped(r.test_case_results@),
        r.suite_summary.declared_cases == suite.test_cases@.len(),
        r.suite_summary.execution_time_ms == execution_time_ms,
        r.suite_summary.balanced(),
{
    proof {
        scheduler.lemma_wf();
    }
    let ghost slots = scheduler.slots();
    let results = scheduler.into_results();
    assert forall|j: int| 0 <= j < scheduler.launched() implies (#[trigger] results@[j]).test_id@
        == suite.test_cases@[j].id@ by {
        assert(slots[j] == Some(results@[j]));
        assert(slot_for_case(slots[j], suite.test_cases@[j]));
    }
    summarize_suite(suite.name.clone(), suite.test_cases.len(), results, execution_time_ms)
}

} // verus!
