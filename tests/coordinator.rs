use rust_backend::error::ConvertError;
use rust_backend::governor::Governor;
use rust_backend::job::{item_sizes, worker_count, Action, Job, Mode, MAX_MEMORY_PER_FILE};
use rust_backend::progress::progress_hundredths;

fn entry(name: &str, bytes: &[u8]) -> (String, Vec<u8>) {
    (name.to_string(), bytes.to_vec())
}

#[test]
fn governor_admits_within_both_gates() {
    let mut g = Governor::new(2, 10);
    assert_eq!(g.memory_bound(), 20);
    let a = g.try_acquire(8).expect("first fits");
    let b = g.try_acquire(12).expect("second fits");
    assert!(g.try_acquire(0).is_none(), "no third slot");
    g.release(a);
    assert!(!g.can_admit(9), "8 + 12 - 8 + 9 > 20");
    assert!(g.can_admit(8));
    g.release(b);
    assert!(g.can_admit(20));
    assert!(!g.can_admit(21));
}

#[test]
fn governor_memory_budget_saturates() {
    let g = Governor::new(3, u64::MAX);
    assert_eq!(g.memory_bound(), u64::MAX);
    assert_eq!(g.slot_bound(), 3);
}

#[test]
fn parallel_job_never_exceeds_concurrency_bound() {
    let mut job = Job::new(vec![5, 5, 5], Mode::Parallel, 2, 100);
    assert_eq!(job.next_action(), Action::Dispatch(0));
    assert_eq!(job.next_action(), Action::Dispatch(1));
    assert_eq!(job.next_action(), Action::Wait);
    assert_eq!(job.on_item_finished(1, Ok(entry("b.png", b"B"))), Some(progress_hundredths(1, 3)));
    assert_eq!(job.next_action(), Action::Dispatch(2));
    assert_eq!(job.next_action(), Action::Wait);
    job.on_item_finished(0, Ok(entry("a.png", b"A")));
    job.on_item_finished(2, Ok(entry("c.png", b"C")));
    assert_eq!(job.next_action(), Action::Done);
    let out = job.finish().expect("all converted");
    assert_eq!(out, vec![entry("a.png", b"A"), entry("b.png", b"B"), entry("c.png", b"C")]);
}

#[test]
fn parallel_job_waits_for_memory() {
    // two slots, but the memory gate holds 2 x 10 bytes: 15 + 15 does not fit
    let mut job = Job::new(vec![15, 15], Mode::Parallel, 2, 10);
    assert_eq!(job.next_action(), Action::Dispatch(0));
    assert_eq!(job.next_action(), Action::Wait);
    job.on_item_finished(0, Ok(entry("a", b"")));
    assert_eq!(job.next_action(), Action::Dispatch(1));
}

#[test]
fn sequential_job_runs_one_at_a_time_in_order() {
    let mut job = Job::new(vec![1, 1, 1], Mode::Sequential, 4, 100);
    for i in 0..3usize {
        assert_eq!(job.next_action(), Action::Dispatch(i));
        assert_eq!(job.next_action(), Action::Wait);
        job.on_item_finished(i, Ok(entry(&format!("{}.avif", i), b"x")));
    }
    assert_eq!(job.next_action(), Action::Done);
    let out = job.finish().unwrap();
    let names: Vec<String> = out.into_iter().map(|e| e.0).collect();
    assert_eq!(names, vec!["0.avif", "1.avif", "2.avif"]);
}

#[test]
fn sequential_format_ignores_concurrency() {
    let mut job = Job::for_format_on(vec![1, 1, 1], "avif", 16);
    assert_eq!(job.mode(), Mode::Sequential);
    assert_eq!(job.next_action(), Action::Dispatch(0));
    assert_eq!(job.next_action(), Action::Wait);
}

#[test]
fn cancel_before_dispatch_gives_cancelled() {
    let mut job = Job::new(vec![1, 2], Mode::Parallel, 2, 100);
    job.request_cancel();
    job.request_cancel();
    assert_eq!(job.next_action(), Action::Done);
    assert_eq!(job.finish(), Err(ConvertError::Cancelled));
}

#[test]
fn cancel_after_dispatch_lets_running_items_finish() {
    let mut job = Job::new(vec![1, 2, 3], Mode::Parallel, 1, 100);
    assert_eq!(job.next_action(), Action::Dispatch(0));
    job.request_cancel();
    assert_eq!(job.next_action(), Action::Wait);
    job.on_item_finished(0, Ok(entry("a", b"a")));
    assert_eq!(job.next_action(), Action::Done);
    assert_eq!(job.finish(), Err(ConvertError::Cancelled));
}

#[test]
fn oversized_item_is_rejected() {
    let mut job = Job::new(vec![11], Mode::Parallel, 1, 10);
    assert_eq!(job.next_action(), Action::Done);
    assert_eq!(job.finish(), Err(ConvertError::ItemTooLarge));
}

#[test]
fn oversized_item_rejected_under_default_budget() {
    let mut job = Job::for_format_on(vec![MAX_MEMORY_PER_FILE + 1], "png", 1);
    assert_eq!(job.next_action(), Action::Done);
    assert_eq!(job.finish(), Err(ConvertError::ItemTooLarge));
}

#[test]
fn first_failure_wins_and_discards_successes() {
    let mut job = Job::new(vec![1, 1, 1], Mode::Parallel, 3, 100);
    for i in 0..3usize {
        assert_eq!(job.next_action(), Action::Dispatch(i));
    }
    job.on_item_finished(0, Ok(entry("a.png", b"a")));
    assert_eq!(job.on_item_finished(1, Err(ConvertError::Decode)), None);
    job.on_item_finished(2, Err(ConvertError::Encode));
    assert_eq!(job.next_action(), Action::Done);
    assert_eq!(job.finish(), Err(ConvertError::Decode));
}

#[test]
fn failure_stops_admission() {
    let mut job = Job::new(vec![1, 1, 1], Mode::Parallel, 1, 100);
    assert_eq!(job.next_action(), Action::Dispatch(0));
    job.on_item_finished(0, Err(ConvertError::TaskFailed));
    assert_eq!(job.next_action(), Action::Done);
    assert_eq!(job.finish(), Err(ConvertError::TaskFailed));
}

#[test]
fn progress_values_rise_to_completion_value() {
    let mut job = Job::new(vec![1, 1, 1], Mode::Parallel, 2, 100);
    let mut seen = vec![job.published()];
    let mut running = Vec::new();
    loop {
        match job.next_action() {
            Action::Dispatch(i) => running.push(i),
            Action::Wait => {
                let i = running.remove(0);
                if let Some(p) = job.on_item_finished(i, Ok(entry("x", b""))) {
                    seen.push(p);
                }
            }
            Action::Done => break,
        }
    }
    assert!(seen.windows(2).all(|w| w[0] <= w[1]));
    assert_eq!(*seen.last().unwrap(), 9000);
    assert_eq!(seen, vec![1000, 3667, 6333, 9000]);
}

#[test]
fn progress_formula_values() {
    assert_eq!(progress_hundredths(0, 3), 1000);
    assert_eq!(progress_hundredths(1, 3), 3667);
    assert_eq!(progress_hundredths(3, 3), 9000);
    assert_eq!(progress_hundredths(0, 0), 1000);
    assert_eq!(progress_hundredths(1, 1), 9000);
}

#[test]
fn worker_count_values() {
    assert_eq!(worker_count(3, 8), 3);
    assert_eq!(worker_count(10, 1), 2);
    assert_eq!(worker_count(10, 4), 4);
    assert_eq!(worker_count(0, 4), 0);
    assert_eq!(worker_count(1, 1), 1);
}

#[test]
fn empty_job_is_done_at_once() {
    let mut job = Job::for_format_on(Vec::new(), "png", 4);
    assert!(job.is_done());
    assert_eq!(job.next_action(), Action::Done);
    assert_eq!(job.finish(), Ok(Vec::new()));
}

#[test]
fn item_sizes_follow_files() {
    let files = vec![entry("a", b"abc"), entry("b", b"")];
    assert_eq!(item_sizes(&files), vec![3, 0]);
}

#[test]
fn job_for_this_machine() {
    let mut job = Job::for_format(vec![1, 2, 3], "webp");
    assert_eq!(job.mode(), Mode::Parallel);
    assert_eq!(job.len(), 3);
    assert_eq!(job.next_action(), Action::Dispatch(0));
    assert_eq!(job.next_action(), Action::Dispatch(1));
    let seq = Job::for_format(vec![1, 2], "avif");
    assert_eq!(seq.mode(), Mode::Sequential);
}

#[test]
fn cancel_on_empty_job_gives_cancelled() {
    let mut job = Job::for_format_on(Vec::new(), "png", 4);
    job.request_cancel();
    assert_eq!(job.next_action(), Action::Done);
    assert_eq!(job.finish(), Err(ConvertError::Cancelled));
}

#[test]
fn cancel_after_all_dispatched_is_not_observed() {
    let mut job = Job::new(vec![1], Mode::Parallel, 1, 100);
    assert_eq!(job.next_action(), Action::Dispatch(0));
    job.request_cancel();
    job.on_item_finished(0, Ok(entry("a.png", b"a")));
    assert_eq!(job.next_action(), Action::Done);
    assert_eq!(job.finish(), Ok(vec![entry("a.png", b"a")]));
}
