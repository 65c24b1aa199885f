use simple_http::threadpool::{Message, ThreadPool};

#[test]
fn pool_test() {
    let mut pool = ThreadPool::new(1);

    pool.add_worker();
    pool.add_worker();

    pool.execute(|| println!("hello"));
    pool.close();
}

#[test]
fn every_task_runs_exactly_once() {
    // Three workers, a hundred counter increments, then shutdown: every task
    // enqueued before shutdown is delivered exactly once, so the counter
    // ends at one hundred; the three termination markers retire the workers.
    let mut pool: ThreadPool<usize> = ThreadPool::new(3);
    for i in 0..100 {
        pool.execute(i);
    }
    pool.close();

    let mut counter: usize = 0;
    let mut seen = [false; 100];
    let mut breaks: usize = 0;
    while pool.queue_len() > 0 && pool.worker_count() > 0 {
        match pool.deliver() {
            Message::Task(i) => {
                assert!(!seen[i], "task delivered twice");
                seen[i] = true;
                counter += 1;
            }
            Message::Break => breaks += 1,
        }
    }
    assert_eq!(counter, 100);
    assert_eq!(breaks, 3);
    assert_eq!(pool.queue_len(), 0);
    assert_eq!(pool.worker_count(), 0);
    assert!(seen.iter().all(|s| *s));
}

#[test]
fn tasks_enqueued_after_shutdown_are_never_run() {
    // The termination markers share the tasks' queue: a task enqueued after
    // them stands behind them, and once every worker has exited nothing can
    // deliver it.
    let mut pool: ThreadPool<&'static str> = ThreadPool::new(1);
    pool.execute("before");
    pool.close();
    pool.execute("after");

    let mut ran = Vec::new();
    while pool.queue_len() > 0 && pool.worker_count() > 0 {
        match pool.deliver() {
            Message::Task(t) => ran.push(t),
            Message::Break => {}
        }
    }
    assert_eq!(ran, vec!["before"]);
    assert_eq!(pool.worker_count(), 0);
    assert_eq!(pool.queue_len(), 1);
}

#[test]
fn tasks_are_delivered_in_submission_order_before_the_markers() {
    let mut pool: ThreadPool<u32> = ThreadPool::new(2);
    pool.execute(10);
    pool.execute(20);
    pool.execute(30);
    pool.close();

    let mut order = Vec::new();
    let mut breaks_seen: usize = 0;
    while pool.queue_len() > 0 && pool.worker_count() > 0 {
        match pool.deliver() {
            Message::Task(t) => {
                assert_eq!(breaks_seen, 0, "a task came after a marker");
                order.push(t);
            }
            Message::Break => breaks_seen += 1,
        }
    }
    assert_eq!(order, vec![10, 20, 30]);
    assert_eq!(breaks_seen, 2);
}
