use worker_pool::pool::{check_size, Pool, PoolCreationError};
use worker_pool::queue::{JobQueue, PoolClosed, Take};
use worker_pool::worker::{is_running, step, WorkerEvent, WorkerState};

type Job = Box<dyn FnOnce(&mut Vec<u32>)>;

fn job(tag: u32) -> Job {
    Box::new(move |trace: &mut Vec<u32>| trace.push(tag))
}

/// Runs one worker against the queue until the queue stops it, recording
/// each executed job in `trace`.
fn drain_with_one_worker(q: &mut JobQueue<Job>, trace: &mut Vec<u32>) {
    let mut state = WorkerState::Idle;
    while is_running(state) {
        match q.take() {
            Take::Job(j) => {
                state = step(state, WorkerEvent::Received);
                j(trace);
                state = step(state, WorkerEvent::Finished);
            }
            Take::Closed => state = step(state, WorkerEvent::QueueClosed),
            Take::Wait => panic!("a closed queue never asks to wait"),
        }
    }
}

#[test]
fn zero_workers_is_refused() {
    assert_eq!(check_size(0), Err(PoolCreationError));
    assert_eq!(check_size(1), Ok(1));
    assert_eq!(check_size(8), Ok(8));
    assert!(Pool::<(), u8>::build((), vec![]).is_err());
}

#[test]
fn every_job_runs_once_in_order() {
    for m in [0u32, 1, 7] {
        let mut q: JobQueue<Job> = JobQueue::new();
        for t in 0..m {
            assert!(q.submit(job(t)).is_ok());
        }
        q.close();
        let mut trace = Vec::new();
        drain_with_one_worker(&mut q, &mut trace);
        assert_eq!(trace, (0..m).collect::<Vec<u32>>());
        assert!(matches!(q.take(), Take::Closed));
    }
}

#[test]
fn submit_after_close_is_refused() {
    let mut q: JobQueue<Job> = JobQueue::new();
    assert!(q.submit(job(1)).is_ok());
    q.close();
    assert_eq!(q.submit(job(2)).err(), Some(PoolClosed));
    assert_eq!(q.len(), 1);
    let mut trace = Vec::new();
    drain_with_one_worker(&mut q, &mut trace);
    assert_eq!(trace, vec![1]);
}

#[test]
fn open_empty_queue_asks_to_wait() {
    let mut q: JobQueue<Job> = JobQueue::new();
    assert!(matches!(q.take(), Take::Wait));
    assert!(!q.is_closed());
    q.close();
    q.close();
    assert!(q.is_closed());
    assert!(matches!(q.take(), Take::Closed));
    assert!(matches!(q.take(), Take::Closed));
}

#[test]
fn faulted_job_does_not_stop_the_worker() {
    let s = step(WorkerState::Idle, WorkerEvent::Received);
    assert_eq!(s, WorkerState::Executing);
    let s = step(s, WorkerEvent::Faulted);
    assert_eq!(s, WorkerState::Idle);
    assert!(is_running(s));
    assert_eq!(step(s, WorkerEvent::Received), WorkerState::Executing);
    assert_eq!(step(s, WorkerEvent::QueueClosed), WorkerState::Terminated);
    assert_eq!(
        step(WorkerState::Terminated, WorkerEvent::Received),
        WorkerState::Terminated
    );
    assert!(!is_running(WorkerState::Terminated));
}

#[test]
fn per_producer_order_is_kept() {
    // Two producers, tags 100.. and 200.., interleaved as the lock admits them.
    let mut q: JobQueue<Job> = JobQueue::new();
    for t in [100, 200, 201, 101, 202, 102] {
        assert!(q.submit(job(t)).is_ok());
    }
    q.close();
    let mut trace = Vec::new();
    drain_with_one_worker(&mut q, &mut trace);
    let first: Vec<u32> = trace.iter().copied().filter(|t| *t < 200).collect();
    let second: Vec<u32> = trace.iter().copied().filter(|t| *t >= 200).collect();
    assert_eq!(first, vec![100, 101, 102]);
    assert_eq!(second, vec![200, 201, 202]);
}

#[test]
fn shutdown_hands_each_handle_out_once() {
    let mut p = Pool::build("sender", vec!['a', 'b', 'c']).ok().unwrap();
    assert_eq!(p.size(), 3);
    assert_eq!(p.sender(), Some(&"sender"));
    let (s, handles) = p.shutdown();
    assert_eq!(s, Some("sender"));
    assert_eq!(handles, vec![(0, 'a'), (1, 'b'), (2, 'c')]);
    assert_eq!(p.sender(), None);
    let (s, handles) = p.shutdown();
    assert_eq!(s, None);
    assert!(handles.is_empty());
    assert_eq!(p.size(), 3);
}

#[test]
fn two_workers_five_increments() {
    let mut q: JobQueue<Job> = JobQueue::new();
    for _ in 0..5 {
        assert!(q.submit(Box::new(|c: &mut Vec<u32>| c[0] += 1)).is_ok());
    }
    q.close();
    let mut counter = vec![0u32];
    let mut states = [WorkerState::Idle, WorkerState::Idle];
    let mut held: [Option<Job>; 2] = [None, None];
    let mut max_busy = 0;
    while states.iter().any(|s| is_running(*s)) {
        // Both workers pick up work before either finishes.
        for w in 0..2 {
            if states[w] == WorkerState::Idle {
                match q.take() {
                    Take::Job(j) => {
                        states[w] = step(states[w], WorkerEvent::Received);
                        held[w] = Some(j);
                    }
                    Take::Closed => states[w] = step(states[w], WorkerEvent::QueueClosed),
                    Take::Wait => {}
                }
            }
        }
        let busy = states.iter().filter(|s| **s == WorkerState::Executing).count();
        max_busy = max_busy.max(busy);
        for w in 0..2 {
            if let Some(j) = held[w].take() {
                j(&mut counter);
                states[w] = step(states[w], WorkerEvent::Finished);
            }
        }
    }
    assert_eq!(counter[0], 5);
    assert_eq!(max_busy, 2);
}

#[test]
fn dispose_right_after_submitting_still_runs_both() {
    let mut q: JobQueue<Job> = JobQueue::new();
    let mut p = Pool::build((), vec![0u8]).ok().unwrap();
    assert!(q.submit(Box::new(|t: &mut Vec<u32>| {
        std::hint::black_box((0..1000).sum::<u32>());
        t.push(1);
    }))
    .is_ok());
    assert!(q.submit(job(2)).is_ok());
    let (sender, handles) = p.shutdown();
    assert!(sender.is_some());
    q.close();
    let mut trace = Vec::new();
    drain_with_one_worker(&mut q, &mut trace);
    assert_eq!(trace, vec![1, 2]);
    assert_eq!(handles, vec![(0, 0u8)]);
}
