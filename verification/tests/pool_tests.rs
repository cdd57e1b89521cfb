use parallel_sh::outcome::ExecutionOutcome;
use parallel_sh::pool::drain_pool;
use parallel_sh::pool::run_jobs;
use parallel_sh::queue::shared_channel;

fn outcome(code: Option<i32>) -> ExecutionOutcome {
    ExecutionOutcome { code, stdout: Vec::new(), stderr: Vec::new() }
}

fn job_texts(n: usize) -> Vec<String> {
    (0..n).map(|i| format!("job {i}")).collect()
}

#[test]
fn n_jobs_yield_exactly_n_results() {
    let jobs = job_texts(5);
    let outcomes = (0..5).map(|_| outcome(Some(0))).collect();
    let report = run_jobs(jobs.clone(), outcomes, false, false);
    assert_eq!(report.results.len(), 5);
    for (i, r) in report.results.iter().enumerate() {
        assert_eq!(r.index, i);
        assert_eq!(r.job, jobs[i]);
    }
}

#[test]
fn each_job_is_delivered_to_exactly_one_worker() {
    let schedules = vec![
        vec![0usize, 0, 0, 0, 0, 0],
        vec![0usize, 1, 2, 0, 1, 2],
        vec![3usize, 1, 4, 1, 5, 0],
    ];
    for schedule in schedules {
        let mut q = shared_channel();
        q.enqueue_all(job_texts(6));
        q.close();
        let deliveries = drain_pool(&mut q, &schedule);
        assert_eq!(deliveries.len(), 6);
        for (i, (worker, job)) in deliveries.iter().enumerate() {
            assert_eq!(*worker, schedule[i]);
            assert_eq!(job.index, i);
        }
        let mut indices: Vec<usize> = deliveries.iter().map(|d| d.1.index).collect();
        indices.dedup();
        assert_eq!(indices.len(), 6);
        assert_eq!(q.pending_len(), 0);
    }
}

#[test]
fn dry_run_always_exits_zero_with_no_output() {
    let jobs = vec!["will-fail".to_string(), "".to_string(), "x y z".to_string()];
    let report = run_jobs(jobs, Vec::new(), true, true);
    assert_eq!(report.exit_code, 0);
    assert!(!report.halted);
    assert_eq!(report.results.len(), 3);
    for r in &report.results {
        assert_eq!(r.outcome.code, Some(0));
        assert!(r.outcome.stdout.is_empty());
        assert!(r.outcome.stderr.is_empty());
    }
}

#[test]
fn true_false_true_without_halt_exits_with_false_status() {
    let jobs = vec!["true".to_string(), "false".to_string(), "true".to_string()];
    let outcomes = vec![outcome(Some(0)), outcome(Some(1)), outcome(Some(0))];
    let report = run_jobs(jobs, outcomes, false, false);
    assert!(!report.halted);
    assert_eq!(report.exit_code, 1);
    assert_eq!(report.processed, 3);
}

#[test]
fn shell_exit_three_is_the_final_status() {
    let jobs = vec!["exit 3".to_string()];
    let outcomes = vec![outcome(Some(3))];
    let report = run_jobs(jobs, outcomes, false, false);
    assert!(!report.halted);
    assert_eq!(report.exit_code, 3);
}

#[test]
fn halt_on_error_abandons_the_rest_of_the_batch() {
    let jobs = job_texts(4);
    let outcomes = vec![outcome(Some(0)), outcome(Some(9)), outcome(Some(0)), outcome(Some(0))];
    let report = run_jobs(jobs, outcomes, false, true);
    assert!(report.halted);
    assert_eq!(report.exit_code, 1);
    assert_eq!(report.processed, 2);
    assert_eq!(report.results.len(), 4);
}

#[test]
fn signal_killed_job_reports_127() {
    let jobs = vec!["killed".to_string()];
    let outcomes = vec![outcome(None)];
    let report = run_jobs(jobs, outcomes, false, false);
    assert_eq!(report.exit_code, 127);
}

#[test]
fn empty_batch_exits_zero() {
    let report = run_jobs(Vec::new(), Vec::new(), false, true);
    assert_eq!(report.exit_code, 0);
    assert!(!report.halted);
    assert_eq!(report.results.len(), 0);
}
