use parallel_sh::queue::shared_channel;
use parallel_sh::queue::PullOutcome;

#[test]
fn pull_is_fifo_and_tags_submission_indices() {
    let mut q = shared_channel();
    q.push("first".to_string());
    q.push("second".to_string());
    q.push("third".to_string());
    assert_eq!(q.pending_len(), 3);
    match q.try_pull() {
        PullOutcome::Pulled(job) => {
            assert_eq!(job.index, 0);
            assert_eq!(job.text, "first");
        }
        _ => panic!("a queued job must be pulled"),
    }
    match q.try_pull() {
        PullOutcome::Pulled(job) => {
            assert_eq!(job.index, 1);
            assert_eq!(job.text, "second");
        }
        _ => panic!("a queued job must be pulled"),
    }
    assert_eq!(q.pending_len(), 1);
}

#[test]
fn empty_open_queue_reports_empty_not_closed() {
    let mut q = shared_channel();
    match q.try_pull() {
        PullOutcome::Empty => {}
        _ => panic!("an open empty queue must tell the puller to wait"),
    }
}

#[test]
fn closed_drained_queue_reports_closed_to_every_puller() {
    let mut q = shared_channel();
    q.push("only".to_string());
    q.close();
    match q.try_pull() {
        PullOutcome::Pulled(job) => assert_eq!(job.text, "only"),
        _ => panic!("closing must not drop queued jobs"),
    }
    for _ in 0..3 {
        match q.try_pull() {
            PullOutcome::Closed => {}
            _ => panic!("a drained closed queue must report closed"),
        }
    }
}

#[test]
fn enqueue_all_preserves_order_and_indices() {
    let mut q = shared_channel();
    q.push("zero".to_string());
    q.enqueue_all(vec!["one".to_string(), "two".to_string()]);
    let mut seen = Vec::new();
    loop {
        match q.try_pull() {
            PullOutcome::Pulled(job) => seen.push((job.index, job.text)),
            PullOutcome::Empty => break,
            PullOutcome::Closed => break,
        }
    }
    assert_eq!(
        seen,
        vec![
            (0usize, "zero".to_string()),
            (1usize, "one".to_string()),
            (2usize, "two".to_string()),
        ]
    );
}

#[test]
fn blank_lines_are_queued_verbatim() {
    let mut q = shared_channel();
    q.enqueue_all(vec!["".to_string(), "a".to_string()]);
    match q.try_pull() {
        PullOutcome::Pulled(job) => {
            assert_eq!(job.index, 0);
            assert_eq!(job.text, "");
        }
        _ => panic!("a blank job is still a job"),
    }
}
