//! The worker pool over the shared queue, as a verified model.
//!
//! Real workers run concurrently; what they do per job is sequential and is
//! captured here. `drain_pool` plays an arbitrary interleaving of pulls
//! against the queue and shows that every queued job is handed out exactly
//! once, in FIFO order, each to exactly one puller. `run_jobs` is the whole
//! pipeline — enqueue, drain, one result per job, aggregate — with the
//! external process's outcome for each job handed in as a value, since the
//! model invokes nothing itself.

use vstd::prelude::*;
use vstd::pervasive::unreached;
use crate::aggregate::aggregate_all;
use crate::aggregate::exit_code_spec;
use crate::aggregate::outcomes_of;
use crate::aggregate::some_failure;
use crate::outcome::dry_run_outcome;
use crate::outcome::Elapsed;
use crate::outcome::ExecutionOutcome;
use crate::outcome::JobResult;
use crate::queue::shared_channel;
use crate::queue::Job;
use crate::queue::PullOutcome;
use crate::queue::SharedJobQueue;

verus! {

/// Assembles the result a worker emits after finishing one job: nothing is
/// altered or lost on the way to the aggregator.
pub fn complete_job(job: Job, elapsed: Elapsed, outcome: ExecutionOutcome) -> (r: JobResult)
    ensures
        r.index == job.index,
        r.job == job.text,
        r.elapsed == elapsed,
        r.outcome == outcome,
{
    JobResult { index: job.index, job: job.text, elapsed, outcome }
}

/// Pulls from a closed queue until it reports `Closed`, attributing the
/// `i`-th successful pull to worker `schedule[i]`. Every queued job is
/// delivered: exactly once, in FIFO order, to exactly one worker — and the
/// drain terminates, so every worker eventually sees `Closed` and can exit.
pub fn drain_pool(q: &mut SharedJobQueue, schedule: &Vec<usize>) -> (d: Vec<(usize, Job)>)
    requires
        old(q).wf(),
        !old(q).is_open(),
        schedule@.len() >= old(q).pending().len(),
    ensures
        final(q).wf(),
        !final(q).is_open(),
        final(q).pending().len() == 0,
        d@.len() == old(q).pending().len(),
        forall|i: int| 0 <= i < d@.len() ==> (#[trigger] d@[i]).1 == old(q).pending()[i]
            && d@[i].0 == schedule@[i],
{
    let ghost pending0 = q.pending();
    let total = q.pending_len();
    let mut d: Vec<(usize, Job)> = Vec::new();
    let mut k: usize = 0;
    proof {
        assert(pending0.skip(0) =~= pending0);
    }
    while q.pending_len() > 0
        invariant
            q.wf(),
            !q.is_open(),
            k == d@.len(),
            k <= total,
            total == pending0.len(),
            q.pending() == pending0.skip(k as int),
            schedule@.len() >= pending0.len(),
            forall|i: int| 0 <= i < k ==> (#[trigger] d@[i]).1 == pending0[i]
                && d@[i].0 == schedule@[i],
        decreases q.pending().len(),
    {
        match q.try_pull() {
            PullOutcome::Pulled(job) => {
                proof {
                    assert(pending0.skip(k as int)[0] == pending0[k as int]);
                    assert(pending0.skip(k as int).drop_first()
                        =~= pending0.skip(k as int + 1));
                }
                d.push((schedule[k], job));
                k = k + 1;
            },
            PullOutcome::Empty => unreached(),
            PullOutcome::Closed => unreached(),
        }
    }
    d
}

/// Among the deliveries of one drain, a given queued job appears at exactly
/// one position, handed to exactly one worker: no job is lost, double-run,
/// or run by two workers.
pub proof fn lemma_each_job_runs_once(
    pending0: Seq<Job>,
    schedule: Seq<usize>,
    d: Seq<(usize, Job)>,
    base: nat,
    k: int,
)
    requires
        d.len() == pending0.len(),
        forall|i: int| 0 <= i < d.len() ==> (#[trigger] d[i]).1 == pending0[i]
            && d[i].0 == schedule[i],
        forall|i: int| 0 <= i < pending0.len()
            ==> (#[trigger] pending0[i]).index as nat == base + i,
        0 <= k < pending0.len(),
    ensures
        d[k].1.index == pending0[k].index,
        d[k].0 == schedule[k],
        forall|i: int| 0 <= i < d.len() && (#[trigger] d[i]).1.index == pending0[k].index
            ==> i == k,
{
    assert forall|i: int| 0 <= i < d.len() && (#[trigger] d[i]).1.index == pending0[k].index
        implies i == k by {
        assert(pending0[i].index as nat == base + i);
        assert(pending0[k].index as nat == base + k);
    }
}

/// How one batch run went.
pub struct BatchReport {
    /// One result per submitted job, in submission order.
    pub results: Vec<JobResult>,
    /// The process exit code the run ends with (1 when halted).
    pub exit_code: i32,
    /// Whether halt-on-error terminated the run early.
    pub halted: bool,
    /// How many results the aggregator consumed before stopping.
    pub processed: usize,
}

/// The whole pipeline on one batch of jobs: enqueue all of them, close the
/// queue, drain it — one result per job, no loss, no duplication — and
/// aggregate. The model invokes no process: outside a dry run, job `i`'s
/// invocation outcome is handed in as `outcomes[i]`; in a dry run every job
/// gets the synthetic success and nothing is captured or reported, so the
/// exit code is 0 for any input.
pub fn run_jobs(
    jobs: Vec<String>,
    outcomes: Vec<ExecutionOutcome>,
    dry_run: bool,
    halt_on_error: bool,
) -> (report: BatchReport)
    requires
        dry_run || outcomes@.len() == jobs@.len(),
    ensures
        report.results@.len() == jobs@.len(),
        forall|i: int| 0 <= i < jobs@.len()
            ==> (#[trigger] report.results@[i]).index as int == i
                && report.results@[i].job@ == jobs@[i]@,
        dry_run ==> forall|i: int| 0 <= i < jobs@.len()
            ==> (#[trigger] report.results@[i]).outcome.is_success()
                && report.results@[i].outcome.stdout@ == Seq::<u8>::empty()
                && report.results@[i].outcome.stderr@ == Seq::<u8>::empty(),
        !dry_run ==> forall|i: int| 0 <= i < jobs@.len()
            ==> (#[trigger] report.results@[i]).outcome == outcomes@[i],
        dry_run ==> report.exit_code == 0 && !report.halted,
        report.halted == (!dry_run && halt_on_error && some_failure(
            outcomes_of(report.results@),
        )),
        report.halted ==> report.exit_code == 1 && report.processed <= jobs@.len(),
        !report.halted ==> report.processed == jobs@.len()
            && report.exit_code as int == exit_code_spec(
                dry_run,
                outcomes_of(report.results@),
            ),
{
    let ghost jobs0 = jobs@;
    let ghost outcomes0 = outcomes@;
    let n = jobs.len();
    let mut q = shared_channel();
    q.enqueue_all(jobs);
    q.close();
    let ghost pending0 = q.pending();
    proof {
        assert(pending0.skip(0) =~= pending0);
        if !dry_run {
            assert(outcomes0.skip(0) =~= outcomes0);
        }
    }
    let mut outcomes = outcomes;
    let mut results: Vec<JobResult> = Vec::new();
    let mut k: usize = 0;
    while q.pending_len() > 0
        invariant
            q.wf(),
            !q.is_open(),
            k == results@.len(),
            k <= n,
            n == pending0.len() == jobs0.len(),
            q.pending() == pending0.skip(k as int),
            forall|i: int| 0 <= i < n ==> (#[trigger] pending0[i]).index as int == i
                && pending0[i].text@ == jobs0[i]@,
            !dry_run ==> outcomes@ == outcomes0.skip(k as int) && outcomes0.len() == n,
            forall|i: int| 0 <= i < k ==> (#[trigger] results@[i]).index as int == i
                && results@[i].job@ == jobs0[i]@,
            dry_run ==> forall|i: int| 0 <= i < k
                ==> (#[trigger] results@[i]).outcome.is_success()
                    && results@[i].outcome.stdout@ == Seq::<u8>::empty()
                    && results@[i].outcome.stderr@ == Seq::<u8>::empty(),
            !dry_run ==> forall|i: int| 0 <= i < k
                ==> (#[trigger] results@[i]).outcome == outcomes0[i],
        decreases q.pending().len(),
    {
        match q.try_pull() {
            PullOutcome::Pulled(job) => {
                proof {
                    assert(pending0.skip(k as int)[0] == pending0[k as int]);
                    assert(pending0.skip(k as int).drop_first()
                        =~= pending0.skip(k as int + 1));
                    if !dry_run {
                        assert(outcomes0.skip(k as int)[0] == outcomes0[k as int]);
                        assert(outcomes0.skip(k as int).drop_first()
                            =~= outcomes0.skip(k as int + 1));
                    }
                }
                let outcome = if dry_run {
                    dry_run_outcome()
                } else {
                    outcomes.remove(0)
                };
                let r = complete_job(job, Elapsed { secs: 0, subsec_nanos: 0 }, outcome);
                results.push(r);
                k = k + 1;
            },
            PullOutcome::Empty => unreached(),
            PullOutcome::Closed => unreached(),
        }
    }
    proof {
        if !dry_run {
            assert(outcomes_of(results@) =~= outcomes0);
        }
    }
    let (exit_code, halted, processed) = aggregate_all(dry_run, halt_on_error, &results);
    BatchReport { results, exit_code, halted, processed }
}

} // verus!
