//! Folding the stream of job results into the final process exit code.
//!
//! The aggregator is the single consumer of the result channel. In a dry
//! run it suppresses everything and the exit code stays 0. Otherwise each
//! result is reported; on a failing result the policy is either to halt the
//! whole process at once with exit code 1 (halt-on-error), or to remember
//! that failure's status — the last failure observed wins — and keep
//! draining.

use vstd::prelude::*;
use crate::outcome::ExecutionOutcome;
use crate::outcome::JobResult;

verus! {

/// The exit code after observing `outs` in order under the non-halting
/// policy: 0 until a failure is seen, then always the status code of the
/// most recent failure.
pub open spec fn running_exit_code(outs: Seq<ExecutionOutcome>) -> int
    decreases outs.len(),
{
    if outs.len() == 0 {
        0
    } else if outs.last().is_success() {
        running_exit_code(outs.drop_last())
    } else {
        outs.last().status_code()
    }
}

/// The exit code the process reports after draining `outs` without
/// halting: always 0 in a dry run, else the running code.
pub open spec fn exit_code_spec(dry_run: bool, outs: Seq<ExecutionOutcome>) -> int {
    if dry_run {
        0
    } else {
        running_exit_code(outs)
    }
}

/// Whether any observed outcome failed.
pub open spec fn some_failure(outs: Seq<ExecutionOutcome>) -> bool {
    exists|i: int| 0 <= i < outs.len() && !(#[trigger] outs[i]).is_success()
}

/// The outcomes carried by a sequence of results, in the same order.
pub open spec fn outcomes_of(rs: Seq<JobResult>) -> Seq<ExecutionOutcome> {
    rs.map_values(|r: JobResult| r.outcome)
}

/// What the process must do with one observed result.
pub struct Directive {
    /// Log the job and forward its captured output (everything but a dry
    /// run).
    pub report: bool,
    /// Additionally warn: the job failed.
    pub warn: bool,
    /// Halt-on-error fired: terminate the whole process now with exit
    /// code 1, abandoning jobs still in flight.
    pub halt_now: bool,
}

/// The single consumer of job results.
pub struct ResultAggregator {
    dry_run: bool,
    halt_on_error: bool,
    exit_code: i32,
    halted: bool,
    seen: Ghost<Seq<ExecutionOutcome>>,
}

impl ResultAggregator {
    /// Whether this run is a dry run.
    pub closed spec fn dry_run(self) -> bool {
        self.dry_run
    }

    /// Whether the first failure halts the process.
    pub closed spec fn halt_on_error(self) -> bool {
        self.halt_on_error
    }

    /// The outcomes observed so far, in arrival order.
    pub closed spec fn seen(self) -> Seq<ExecutionOutcome> {
        self.seen@
    }

    /// Whether halt-on-error has fired.
    pub closed spec fn halted(self) -> bool {
        self.halted
    }

    /// While the aggregator has not halted, its stored exit code is
    /// exactly the policy's exit code for everything seen so far; it can
    /// only halt under halt-on-error, outside a dry run, on a seen failure.
    pub open spec fn wf(self) -> bool {
        &&& !self.halted() ==> self.exit_code() == exit_code_spec(self.dry_run(), self.seen())
        &&& self.halted() ==> self.halt_on_error() && !self.dry_run() && some_failure(self.seen())
    }

    /// The exit code recorded so far.
    pub closed spec fn exit_code(self) -> int {
        self.exit_code as int
    }

    /// A fresh aggregator: nothing seen, exit code 0.
    pub fn new(dry_run: bool, halt_on_error: bool) -> (agg: ResultAggregator)
        ensures
            agg.wf(),
            agg.dry_run() == dry_run,
            agg.halt_on_error() == halt_on_error,
            agg.seen() == Seq::<ExecutionOutcome>::empty(),
            !agg.halted(),
    {
        ResultAggregator {
            dry_run,
            halt_on_error,
            exit_code: 0,
            halted: false,
            seen: Ghost(Seq::empty()),
        }
    }

    /// Observes one result and says what to do with it: report it unless
    /// this is a dry run, warn if it failed, and halt at once if it failed
    /// under halt-on-error. Otherwise a failure's status code overwrites
    /// the recorded exit code — the last failure wins.
    pub fn observe(&mut self, r: &JobResult) -> (d: Directive)
        requires
            old(self).wf(),
            !old(self).halted(),
        ensures
            final(self).wf(),
            final(self).dry_run() == old(self).dry_run(),
            final(self).halt_on_error() == old(self).halt_on_error(),
            final(self).seen() == old(self).seen().push(r.outcome),
            d.report == !old(self).dry_run(),
            d.warn == (!old(self).dry_run() && !r.outcome.is_success()),
            d.halt_now == (!old(self).dry_run() && !r.outcome.is_success()
                && old(self).halt_on_error()),
            final(self).halted() == d.halt_now,
    {
        let ghost prev = self.seen@;
        self.seen = Ghost(prev.push(r.outcome));
        proof {
            assert(self.seen@.drop_last() =~= prev);
        }
        if self.dry_run {
            Directive { report: false, warn: false, halt_now: false }
        } else if r.outcome.success() {
            Directive { report: true, warn: false, halt_now: false }
        } else if self.halt_on_error {
            self.halted = true;
            proof {
                assert(!self.seen@[prev.len() as int].is_success());
            }
            Directive { report: true, warn: true, halt_now: true }
        } else {
            self.exit_code = match r.outcome.code {
                Some(c) => c,
                None => 127,
            };
            Directive { report: true, warn: true, halt_now: false }
        }
    }

    /// The exit code to terminate with once the result channel has closed.
    pub fn final_exit(&self) -> (c: i32)
        requires
            self.wf(),
            !self.halted(),
        ensures
            c as int == exit_code_spec(self.dry_run(), self.seen()),
    {
        self.exit_code
    }
}

/// The aggregator's whole drain loop over a completed batch of results:
/// observes each in order, stopping early only when halt-on-error fires.
/// Returns the exit code, whether it halted, and how many results it
/// consumed. Under halt-on-error the process exits 1 at the first failure
/// without draining the rest; otherwise every result is consumed and the
/// exit code is the policy's fold over all of them.
pub fn aggregate_all(dry_run: bool, halt_on_error: bool, results: &Vec<JobResult>) -> (r: (
    i32,
    bool,
    usize,
))
    ensures
        r.1 == (!dry_run && halt_on_error && some_failure(outcomes_of(results@))),
        r.1 ==> r.0 == 1 && 0 < r.2 <= results@.len()
            && !outcomes_of(results@)[r.2 - 1].is_success()
            && (forall|j: int| 0 <= j < r.2 - 1
                ==> (#[trigger] outcomes_of(results@)[j]).is_success()),
        !r.1 ==> r.2 == results@.len()
            && r.0 as int == exit_code_spec(dry_run, outcomes_of(results@)),
{
    let mut agg = ResultAggregator::new(dry_run, halt_on_error);
    let n = results.len();
    let mut i: usize = 0;
    while i < n
        invariant
            i <= n,
            n == results@.len(),
            agg.wf(),
            !agg.halted(),
            agg.dry_run() == dry_run,
            agg.halt_on_error() == halt_on_error,
            agg.seen() == outcomes_of(results@.take(i as int)),
            !dry_run && halt_on_error ==> forall|j: int| 0 <= j < i
                ==> (#[trigger] outcomes_of(results@)[j]).is_success(),
        decreases n - i,
    {
        let d = agg.observe(&results[i]);
        proof {
            assert(outcomes_of(results@.take(i as int)).push(results@[i as int].outcome)
                =~= outcomes_of(results@.take(i as int + 1)));
        }
        if d.halt_now {
            proof {
                assert(outcomes_of(results@)[i as int] == results@[i as int].outcome);
            }
            return (1, true, i + 1);
        }
        i = i + 1;
    }
    proof {
        assert(results@.take(n as int) =~= results@);
        if !dry_run && halt_on_error && some_failure(outcomes_of(results@)) {
            let k = choose|k: int| 0 <= k < outcomes_of(results@).len()
                && !(#[trigger] outcomes_of(results@)[k]).is_success();
            assert(outcomes_of(results@)[k].is_success());
        }
    }
    (agg.final_exit(), false, n)
}

/// The non-halting policy never invents a failure: over outcomes that all
/// succeeded the exit code is 0.
pub proof fn lemma_all_success_exit_zero(outs: Seq<ExecutionOutcome>)
    requires
        forall|i: int| 0 <= i < outs.len() ==> (#[trigger] outs[i]).is_success(),
    ensures
        running_exit_code(outs) == 0,
    decreases outs.len(),
{
    if outs.len() > 0 {
        lemma_all_success_exit_zero(outs.drop_last());
    }
}

/// Last failure wins: under the non-halting policy, the exit code equals
/// the status code of the last failing outcome — every earlier failure is
/// overwritten.
pub proof fn lemma_last_failure_wins(outs: Seq<ExecutionOutcome>, k: int)
    requires
        0 <= k < outs.len(),
        !outs[k].is_success(),
        forall|j: int| k < j < outs.len() ==> (#[trigger] outs[j]).is_success(),
    ensures
        running_exit_code(outs) == outs[k].status_code(),
    decreases outs.len(),
{
    if k == outs.len() - 1 {
    } else {
        lemma_last_failure_wins(outs.drop_last(), k);
    }
}

/// A single failing outcome among successes yields exactly that outcome's
/// status code.
pub proof fn lemma_single_failure(outs: Seq<ExecutionOutcome>, k: int)
    requires
        0 <= k < outs.len(),
        !outs[k].is_success(),
        forall|j: int| 0 <= j < outs.len() && j != k
            ==> (#[trigger] outs[j]).is_success(),
    ensures
        running_exit_code(outs) == outs[k].status_code(),
{
    lemma_last_failure_wins(outs, k);
}

} // verus!
