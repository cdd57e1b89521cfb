//! The result of invoking one job.

use vstd::prelude::*;

verus! {

/// What came out of invoking one job: an exit code (`None` when the process
/// was terminated without an exit code, e.g. by a signal) and the captured
/// output bytes.
pub struct ExecutionOutcome {
    pub code: Option<i32>,
    pub stdout: Vec<u8>,
    pub stderr: Vec<u8>,
}

impl ExecutionOutcome {
    /// An invocation succeeded exactly when it exited with code 0.
    pub open spec fn is_success(self) -> bool {
        self.code == Some(0i32)
    }

    /// The numeric status a failing outcome contributes to the process exit
    /// code: its own code, or 127 when no code is available.
    pub open spec fn status_code(self) -> int {
        match self.code {
            Some(c) => c as int,
            None => 127,
        }
    }

    /// Whether this outcome is a success.
    pub fn success(&self) -> (b: bool)
        ensures
            b == self.is_success(),
    {
        match self.code {
            Some(c) => c == 0,
            None => false,
        }
    }
}

/// The synthetic successful outcome of a dry run: nothing was invoked,
/// nothing was captured.
pub fn dry_run_outcome() -> (o: ExecutionOutcome)
    ensures
        o.is_success(),
        o.code == Some(0i32),
        o.stdout@ == Seq::<u8>::empty(),
        o.stderr@ == Seq::<u8>::empty(),
{
    ExecutionOutcome { code: Some(0), stdout: Vec::new(), stderr: Vec::new() }
}

/// The synthetic failing outcome used when a process could not be created
/// (or, in direct-exec mode, when the job has no program name): a
/// conventional exit code 1 and no output.
pub fn spawn_failure_outcome() -> (o: ExecutionOutcome)
    ensures
        !o.is_success(),
        o.code == Some(1i32),
        o.stdout@ == Seq::<u8>::empty(),
        o.stderr@ == Seq::<u8>::empty(),
{
    ExecutionOutcome { code: Some(1), stdout: Vec::new(), stderr: Vec::new() }
}

/// Folds the result of an attempted spawn into an outcome: the process's own
/// outcome when it could be started, the synthetic failure when it could not.
pub fn resolve_spawn(spawned: Option<ExecutionOutcome>) -> (o: ExecutionOutcome)
    ensures
        spawned is Some ==> o == spawned->0,
        spawned is None ==> !o.is_success() && o.code == Some(1i32)
            && o.stdout@ == Seq::<u8>::empty() && o.stderr@ == Seq::<u8>::empty(),
{
    match spawned {
        Some(o) => o,
        None => spawn_failure_outcome(),
    }
}

/// Wall-clock time one invocation took, split into whole seconds and the
/// sub-second remainder in nanoseconds.
pub struct Elapsed {
    pub secs: u64,
    pub subsec_nanos: u32,
}

/// What one worker hands to the aggregator after finishing one job.
pub struct JobResult {
    /// The position of the job in submission order.
    pub index: usize,
    /// The job's own text.
    pub job: String,
    /// How long the invocation took.
    pub elapsed: Elapsed,
    /// What the invocation produced.
    pub outcome: ExecutionOutcome,
}

} // verus!
