//! Verified core of a parallel job runner.
//!
//! A list of command strings is executed across a bounded pool of workers.
//! This crate holds the logic that decides *what* happens: how a job string
//! is turned into an invocation (dry-run, shell, or direct exec), how the
//! shared FIFO queue hands each job to exactly one puller, how a worker turns
//! an invocation's result into a job result, and how the aggregator folds the
//! stream of results into the final process exit code. The surrounding
//! process machinery (threads, process spawning, I/O) performs what these
//! functions decide.

pub mod aggregate;
pub mod outcome;
pub mod plan;
pub mod pool;
pub mod queue;
pub mod settings;
