use relabuf::{Reason, RelaBufConfig, Released, State, Step};
use std::time::Duration;

const MS: u64 = 1_000_000;
const SEC: u64 = 1_000_000_000;

fn config(backoff: Option<backoff::ExponentialBackoff>) -> RelaBufConfig {
    RelaBufConfig { release_after: 5 * SEC, soft_cap: 3, hard_cap: 5, backoff }
}

fn fixed_backoff() -> backoff::ExponentialBackoff {
    backoff::ExponentialBackoff {
        initial_interval: Duration::from_millis(500),
        current_interval: Duration::from_millis(500),
        randomization_factor: 0.0,
        multiplier: 2.0,
        max_interval: Duration::from_secs(30),
        max_elapsed_time: None,
        ..backoff::ExponentialBackoff::default()
    }
}

fn released<T, E>(step: Step<T, E>) -> Released<T> {
    match step {
        Step::Released(b) => b,
        Step::Failed(_) => panic!("expected a batch, got the terminal error"),
        Step::Receive => panic!("expected a batch, got Receive"),
        Step::Sleep => panic!("expected a batch, got Sleep"),
        Step::Ended => panic!("expected a batch, got Ended"),
    }
}

fn is_receive<T, E>(step: &Step<T, E>) -> bool {
    matches!(step, Step::Receive)
}

fn is_sleep<T, E>(step: &Step<T, E>) -> bool {
    matches!(step, Step::Sleep)
}

#[test]
fn zero_soft_cap_is_rejected() {
    let opts = RelaBufConfig { release_after: SEC, soft_cap: 0, hard_cap: 5, backoff: None };
    assert!(State::<u32, String>::new(opts, 0).is_none());
}

#[test]
fn time_based_release() {
    let mut s: State<u32, String> = State::new(config(None), 0).unwrap();
    assert!(is_receive(&s.step(0)));
    s.add_item(0);
    assert!(is_receive(&s.step(4_900 * MS)));
    assert_eq!(s.is_ready(4_999 * MS), None);
    let b = released(s.step(5 * SEC));
    assert_eq!(b.reason, Reason::Time);
    assert_eq!(b.items, vec![0]);
    assert_eq!(b.elapsed, 5 * SEC);
}

#[test]
fn size_based_release() {
    let mut s: State<u32, String> = State::new(config(None), 0).unwrap();
    for i in 0..3u32 {
        assert!(s.can_receive());
        s.add_item(i);
    }
    assert!(!s.can_receive());
    assert_eq!(s.is_ready(10 * MS), Some(Reason::Size));
    let b = released(s.step(10 * MS));
    assert_eq!(b.reason, Reason::Size);
    assert_eq!(b.items, vec![0, 1, 2]);
    assert_eq!(b.elapsed, 10 * MS);
    assert_eq!(s.is_ready(20 * MS), None);
}

#[test]
fn backpressure_at_hard_cap() {
    let opts = config(None);
    let (tx, rx) = flume::bounded::<u32>(opts.hard_cap);
    for i in 0..5u32 {
        assert!(tx.try_send(i).is_ok());
    }
    assert!(matches!(tx.try_send(5), Err(flume::TrySendError::Full(5))));
    let mut s: State<u32, String> = State::new(opts, 0).unwrap();
    while s.can_receive() {
        s.add_item(rx.try_recv().unwrap());
    }
    assert_eq!(rx.len(), 2);
    assert!(!s.can_receive());
    for i in 5..8u32 {
        assert!(tx.try_send(i).is_ok());
    }
    assert!(matches!(tx.try_send(8), Err(flume::TrySendError::Full(8))));
}

#[test]
fn soft_cap_reached_stops_admission() {
    let mut s: State<u32, String> = State::new(config(Some(fixed_backoff())), 0).unwrap();
    for i in 0..3u32 {
        s.add_item(i);
    }
    let b = released(s.step(0));
    b.return_on_err(&mut s);
    assert!(is_sleep(&s.step(100 * MS)));
}

#[test]
fn return_and_retry_with_backoff() {
    let mut s: State<u32, String> = State::new(config(Some(fixed_backoff())), 0).unwrap();
    for i in 0..3u32 {
        s.add_item(i);
    }
    let b = released(s.step(0));
    assert_eq!(b.reason, Reason::Size);
    b.return_on_err(&mut s);
    assert_eq!(s.is_ready(499 * MS), None);
    let b = released(s.step(500 * MS));
    assert_eq!(b.reason, Reason::Size);
    assert_eq!(b.items, vec![0, 1, 2]);
    assert_eq!(b.elapsed, 500 * MS);
}

#[test]
fn backoff_doubles_on_repeated_returns() {
    let mut s: State<u32, String> = State::new(config(Some(fixed_backoff())), 0).unwrap();
    for i in 0..3u32 {
        s.add_item(i);
    }
    let b = released(s.step(0));
    b.return_on_err(&mut s);
    let b = released(s.step(500 * MS));
    b.return_on_err(&mut s);
    assert_eq!(s.is_ready(1_499 * MS), None);
    assert_eq!(s.is_ready(1_500 * MS), Some(Reason::Size));
}

#[test]
fn confirm_resets_backoff() {
    let mut s: State<u32, String> = State::new(config(Some(fixed_backoff())), 0).unwrap();
    for i in 0..3u32 {
        s.add_item(i);
    }
    let b = released(s.step(0));
    b.return_on_err(&mut s);
    let b = released(s.step(500 * MS));
    assert_eq!(b.items, vec![0, 1, 2]);
    b.confirm(&mut s);
    for i in 3..6u32 {
        s.add_item(i);
    }
    let b = released(s.step(600 * MS));
    assert_eq!(b.items, vec![3, 4, 5]);
    b.return_on_err(&mut s);
    assert_eq!(s.is_ready(1_099 * MS), None);
    let b = released(s.step(1_100 * MS));
    assert_eq!(b.items, vec![3, 4, 5]);
}

#[test]
fn returned_items_follow_new_arrivals() {
    let mut s: State<u32, String> = State::new(config(None), 0).unwrap();
    s.add_item(0);
    s.add_item(1);
    let b = released(s.step(5 * SEC));
    s.add_item(2);
    b.return_on_err(&mut s);
    let b = released(s.step(5 * SEC));
    assert_eq!(b.reason, Reason::Size);
    assert_eq!(b.items, vec![2, 0, 1]);
    assert_eq!(b.elapsed, 0);
}

#[test]
fn return_without_backoff_waits_for_age_only() {
    let mut s: State<u32, String> = State::new(config(None), 0).unwrap();
    s.add_item(7);
    let b = released(s.step(6 * SEC));
    b.return_on_err(&mut s);
    assert_eq!(s.is_ready(6 * SEC), None);
    assert_eq!(s.is_ready(11 * SEC), Some(Reason::Time));
}

#[test]
fn terminal_drain() {
    let mut s: State<u32, String> = State::new(config(None), 0).unwrap();
    s.add_item(0);
    s.add_item(1);
    s.set_err("source closed".to_string());
    assert!(!s.can_receive());
    let b = released(s.step(50 * MS));
    assert_eq!(b.reason, Reason::Term);
    assert_eq!(b.items, vec![0, 1]);
    match s.step(60 * MS) {
        Step::Failed(e) => assert_eq!(e, "source closed"),
        _ => panic!("expected the terminal error"),
    }
}

#[test]
fn buffer_stays_ended_after_the_error() {
    let mut s: State<u32, String> = State::new(config(None), 0).unwrap();
    s.set_err("source closed".to_string());
    assert!(matches!(s.step(0), Step::Failed(_)));
    assert!(!s.can_receive());
    s.set_err("later".to_string());
    assert_eq!(s.is_ready(SEC), Some(Reason::Term));
    assert!(matches!(s.step(SEC), Step::Ended));
    assert!(matches!(s.step(2 * SEC), Step::Ended));
}

#[test]
fn items_returned_after_the_end_are_released() {
    let mut s: State<u32, String> = State::new(config(None), 0).unwrap();
    s.add_item(1);
    let b = released(s.step(5 * SEC));
    s.set_err("source closed".to_string());
    assert!(matches!(s.step(5 * SEC), Step::Failed(_)));
    b.return_on_err(&mut s);
    let b = released(s.step(5 * SEC));
    assert_eq!(b.reason, Reason::Term);
    assert_eq!(b.items, vec![1]);
    assert!(matches!(s.step(5 * SEC), Step::Ended));
}

#[test]
fn oversized_schedule_is_rejected() {
    let mut b = fixed_backoff();
    b.max_interval = Duration::MAX;
    b.max_elapsed_time = Some(Duration::from_secs(900));
    assert!(State::<u32, String>::new(config(Some(b)), 0).is_none());
    let mut b = fixed_backoff();
    b.randomization_factor = 1.5;
    assert!(State::<u32, String>::new(config(Some(b)), 0).is_none());
    let mut b = fixed_backoff();
    b.randomization_factor = -0.5;
    assert!(State::<u32, String>::new(config(Some(b)), 0).is_none());
    let mut b = fixed_backoff();
    b.randomization_factor = 1.0;
    assert!(State::<u32, String>::new(config(Some(b)), 0).is_some());
}

#[test]
fn spent_budget_releases_at_once() {
    let mut b = fixed_backoff();
    b.max_elapsed_time = Some(Duration::ZERO);
    let mut s: State<u32, String> = State::new(config(Some(b)), 0).unwrap();
    for i in 0..3u32 {
        s.add_item(i);
    }
    let start = std::time::Instant::now();
    while start.elapsed() < Duration::from_millis(2) {}
    let b = released(s.step(0));
    b.return_on_err(&mut s);
    assert_eq!(s.is_ready(0), Some(Reason::Size));
}

#[test]
fn first_error_is_kept() {
    let mut s: State<u32, String> = State::new(config(None), 0).unwrap();
    s.set_err("first".to_string());
    s.set_err("second".to_string());
    match s.step(0) {
        Step::Failed(e) => assert_eq!(e, "first"),
        _ => panic!("expected the terminal error"),
    }
}

#[test]
fn terminal_release_waits_out_backoff() {
    let mut s: State<u32, String> = State::new(config(Some(fixed_backoff())), 0).unwrap();
    s.add_item(0);
    let b = released(s.step(5 * SEC));
    b.return_on_err(&mut s);
    s.set_err("gone".to_string());
    assert_eq!(s.is_ready(5 * SEC + 499 * MS), None);
    assert_eq!(s.is_ready(5 * SEC + 500 * MS), Some(Reason::Term));
}

#[test]
fn consume_drains_and_restarts_clock() {
    let mut s: State<u32, String> = State::new(config(None), 1_000).unwrap();
    s.add_item(4);
    s.add_item(5);
    let c = s.consume(3_000);
    assert_eq!(c.items, vec![4, 5]);
    assert_eq!(c.elapsed, 2_000);
    assert_eq!(s.is_ready(3_000 + 5 * SEC - 1), None);
    s.add_item(6);
    assert_eq!(s.is_ready(3_000 + 5 * SEC), Some(Reason::Time));
    let c = s.consume(10);
    assert_eq!(c.elapsed, 0);
}

#[test]
fn items_conserved_over_a_run() {
    let mut s: State<u32, String> = State::new(config(Some(fixed_backoff())), 0).unwrap();
    let mut confirmed: Vec<u32> = Vec::new();
    let mut emitted: Vec<u32> = Vec::new();
    let mut now = 0u64;
    for i in 0..20u32 {
        if s.can_receive() {
            s.add_item(i);
            emitted.push(i);
        }
        now += 300 * MS;
        if let Step::Released(b) = s.step(now) {
            assert!(b.items.len() <= 3);
            if i % 3 == 0 {
                b.return_on_err(&mut s);
            } else {
                confirmed.extend(b.items.iter().copied());
                b.confirm(&mut s);
            }
        }
    }
    let rest = s.consume(now).items;
    confirmed.extend(rest);
    confirmed.sort();
    emitted.sort();
    assert_eq!(confirmed, emitted);
}
