//! The scalar settings the command line hands to the core.

use vstd::prelude::*;

verus! {

/// The most workers a run may be asked for.
pub const MAX_WORKERS: usize = 4096;

/// A requested worker count forced into `1..=MAX_WORKERS`.
pub open spec fn clamped_workers(requested: nat) -> nat {
    if requested == 0 {
        1
    } else if requested > MAX_WORKERS {
        MAX_WORKERS as nat
    } else {
        requested
    }
}

/// Relies on num_cpus::get: the number of logical cores of the host,
/// documented to always be at least 1.
#[verifier::external_body]
fn host_cpus() -> (n: usize)
    ensures
        n >= 1,
{
    num_cpus::get()
}

/// Forces a worker count into the accepted range: whatever count is handed
/// in — a request from the command line or the host's own core count — the
/// pool size is exactly that count clamped to `1..=MAX_WORKERS`.
pub fn clamp_workers(base: usize) -> (n: usize)
    ensures
        n as nat == clamped_workers(base as nat),
        1 <= n <= MAX_WORKERS,
{
    if base == 0 {
        1
    } else if base > MAX_WORKERS {
        MAX_WORKERS
    } else {
        base
    }
}

/// The size of the worker pool: the requested count forced into
/// `1..=MAX_WORKERS`, or, when none was requested, the host's logical core
/// count drawn from `host_cpus` and clamped the same way by
/// `clamp_workers`, which carries the exact contract for any drawn count.
pub fn effective_workers(requested: Option<usize>) -> (n: usize)
    ensures
        1 <= n <= MAX_WORKERS,
        requested is Some ==> n as nat == clamped_workers(requested->0 as nat),
{
    let base = match requested {
        Some(r) => r,
        None => host_cpus(),
    };
    clamp_workers(base)
}

/// How much the run logs.
#[derive(Clone, Copy, Debug, PartialEq, Eq, Structural)]
pub enum LogLevel {
    Error,
    Warn,
    Info,
    Debug,
    Trace,
}

/// The log level selected by the verbosity flags: quiet wins and shows
/// errors only; otherwise each repetition of the verbose flag moves one
/// step from warnings towards full tracing.
pub fn log_level(quiet: bool, verbose: usize) -> (l: LogLevel)
    ensures
        quiet ==> l == LogLevel::Error,
        !quiet && verbose == 0 ==> l == LogLevel::Warn,
        !quiet && verbose == 1 ==> l == LogLevel::Info,
        !quiet && verbose == 2 ==> l == LogLevel::Debug,
        !quiet && verbose >= 3 ==> l == LogLevel::Trace,
{
    if quiet {
        LogLevel::Error
    } else if verbose == 0 {
        LogLevel::Warn
    } else if verbose == 1 {
        LogLevel::Info
    } else if verbose == 2 {
        LogLevel::Debug
    } else {
        LogLevel::Trace
    }
}

/// Where the job strings of one run come from.
#[derive(Clone, Copy, Debug, PartialEq, Eq, Structural)]
pub enum JobSource {
    /// The positional command-line arguments.
    CliArgs,
    /// The file named on the command line, one job per line.
    JobFile,
    /// Standard input, one job per line.
    StandardInput,
}

/// Picks the job source: positional arguments take precedence over a job
/// file, and a job file over standard input.
pub fn select_source(have_cli_jobs: bool, have_file: bool) -> (s: JobSource)
    ensures
        have_cli_jobs ==> s == JobSource::CliArgs,
        !have_cli_jobs && have_file ==> s == JobSource::JobFile,
        !have_cli_jobs && !have_file ==> s == JobSource::StandardInput,
{
    if have_cli_jobs {
        JobSource::CliArgs
    } else if have_file {
        JobSource::JobFile
    } else {
        JobSource::StandardInput
    }
}

/// What one run of the pool needs to know, as plain values.
pub struct Settings {
    /// How many workers to spawn, in `1..=MAX_WORKERS`.
    pub workers: usize,
    /// Invoke nothing; report nothing; exit 0.
    pub dry_run: bool,
    /// Terminate the whole process on the first failing job.
    pub halt_on_error: bool,
    /// The shell to run jobs through, or `None` for direct execution.
    pub shell: Option<String>,
}

impl Settings {
    /// The worker count is within the accepted range.
    pub open spec fn wf(self) -> bool {
        1 <= self.workers <= MAX_WORKERS
    }

    /// Builds the settings of one run, sizing the pool from the request
    /// (or the host's core count) under the cap.
    pub fn new(
        requested_workers: Option<usize>,
        dry_run: bool,
        halt_on_error: bool,
        shell: Option<String>,
    ) -> (s: Settings)
        ensures
            s.wf(),
            requested_workers is Some ==> s.workers as nat == clamped_workers(
                requested_workers->0 as nat,
            ),
            s.dry_run == dry_run,
            s.halt_on_error == halt_on_error,
            s.shell == shell,
    {
        Settings { workers: effective_workers(requested_workers), dry_run, halt_on_error, shell }
    }
}

} // verus!
