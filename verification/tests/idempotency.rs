use luban_core::idempotency::{Begin, IdempotencyStore, IN_FLIGHT_MAX_AGE};
use std::sync::mpsc::{channel, Receiver, Sender};

type Outcome = Result<u64, String>;

const SECOND: u64 = 1_000_000_000;

fn begin(
    store: &mut IdempotencyStore<u64, Sender<Outcome>>,
    key: &str,
    now: u64,
) -> (Begin<u64>, Receiver<Outcome>) {
    let (tx, rx) = channel();
    (store.begin(key.to_owned(), now, tx), rx)
}

fn complete(
    store: &mut IdempotencyStore<u64, Sender<Outcome>>,
    key: &str,
    result: Outcome,
    now: u64,
) -> usize {
    let done = store.complete(key.to_owned(), result, now);
    let n = done.waiters.len();
    for tx in done.waiters {
        let _ = tx.send(done.result.clone());
    }
    n
}

#[test]
fn idempotency_store_deduplicates_in_flight() {
    let mut store = IdempotencyStore::<u64, Sender<Outcome>>::new(30 * SECOND, 64);
    let key = "k1";

    match begin(&mut store, key, 0).0 {
        Begin::Owner => {}
        _ => panic!("expected owner"),
    }

    let waiter = match begin(&mut store, key, 1) {
        (Begin::Wait, rx) => rx,
        _ => panic!("expected waiter"),
    };

    complete(&mut store, key, Ok(42), 2);

    let got = waiter.recv().expect("waiter dropped").expect("ok");
    assert_eq!(got, 42);

    match begin(&mut store, key, 3).0 {
        Begin::Done(v) => assert_eq!(v, 42),
        _ => panic!("expected done"),
    }
}

#[test]
fn idempotency_store_notifies_multiple_waiters() {
    let mut store = IdempotencyStore::<u64, Sender<Outcome>>::new(30 * SECOND, 64);
    let key = "k1";

    match begin(&mut store, key, 0).0 {
        Begin::Owner => {}
        _ => panic!("expected owner"),
    }

    let waiter1 = match begin(&mut store, key, 1) {
        (Begin::Wait, rx) => rx,
        _ => panic!("expected waiter"),
    };

    let waiter2 = match begin(&mut store, key, 2) {
        (Begin::Wait, rx) => rx,
        _ => panic!("expected waiter"),
    };

    assert_eq!(complete(&mut store, key, Ok(42), 3), 2);

    let got1 = waiter1.recv().expect("waiter dropped").expect("ok");
    let got2 = waiter2.recv().expect("waiter dropped").expect("ok");
    assert_eq!(got1, 42);
    assert_eq!(got2, 42);
}

#[test]
fn waiters_come_back_in_registration_order() {
    let mut store = IdempotencyStore::<u64, u32>::new(SECOND, 8);
    assert!(matches!(store.begin("k".to_owned(), 0, 100), Begin::Owner));
    assert!(matches!(store.begin("k".to_owned(), 1, 101), Begin::Wait));
    assert!(matches!(store.begin("other".to_owned(), 1, 200), Begin::Owner));
    assert!(matches!(store.begin("k".to_owned(), 2, 102), Begin::Wait));
    assert!(matches!(store.begin("k".to_owned(), 3, 103), Begin::Wait));
    let done = store.complete("k".to_owned(), Err("boom".to_owned()), 4);
    assert_eq!(done.waiters, vec![101, 102, 103]);
    assert_eq!(done.result, Err("boom".to_owned()));
    let nothing = store.complete("k".to_owned(), Ok(1), 5);
    assert_eq!(nothing.waiters, Vec::<u32>::new());
    assert_eq!(nothing.result, Ok(1));
}

#[test]
fn success_is_cached_until_the_ttl_runs_out() {
    let mut store = IdempotencyStore::<u64, ()>::new(30 * SECOND, 64);
    assert!(matches!(store.begin("k".to_owned(), 10, ()), Begin::Owner));
    store.complete("k".to_owned(), Ok(7), 20);
    assert!(matches!(store.begin("k".to_owned(), 20, ()), Begin::Done(7)));
    assert!(matches!(store.begin("k".to_owned(), 20 + 30 * SECOND - 1, ()), Begin::Done(7)));
    // At the expiry itself the value is gone, and the caller is a new owner.
    assert!(matches!(store.begin("k".to_owned(), 20 + 30 * SECOND, ()), Begin::Owner));
    assert_eq!(store.len(), 1);
}

#[test]
fn failure_is_not_cached() {
    let mut store = IdempotencyStore::<u64, ()>::new(30 * SECOND, 64);
    assert!(matches!(store.begin("k".to_owned(), 0, ()), Begin::Owner));
    store.complete("k".to_owned(), Err("failed".to_owned()), 1);
    assert_eq!(store.len(), 0);
    assert!(matches!(store.begin("k".to_owned(), 2, ()), Begin::Owner));
}

#[test]
fn abandoned_owner_is_replaced() {
    assert_eq!(IN_FLIGHT_MAX_AGE, 60 * SECOND);
    let mut store = IdempotencyStore::<u64, u8>::new(30 * SECOND, 64);
    assert!(matches!(store.begin("k".to_owned(), 5, 0), Begin::Owner));
    assert!(matches!(store.begin("k".to_owned(), 5 + 60 * SECOND - 1, 1), Begin::Wait));
    assert!(matches!(store.begin("k".to_owned(), 5 + 60 * SECOND, 2), Begin::Owner));
    // The waiter of the abandoned owner went with it.
    let done = store.complete("k".to_owned(), Ok(1), 6 + 60 * SECOND);
    assert_eq!(done.waiters, Vec::<u8>::new());
}

#[test]
fn a_clock_that_steps_back_keeps_the_owner() {
    let mut store = IdempotencyStore::<u64, u8>::new(30 * SECOND, 64);
    assert!(matches!(store.begin("k".to_owned(), 100 * SECOND, 0), Begin::Owner));
    assert!(matches!(store.begin("k".to_owned(), 0, 1), Begin::Wait));
}

#[test]
fn sweep_runs_beyond_max_entries() {
    let mut store = IdempotencyStore::<u64, ()>::new(10, 2);
    for (i, key) in ["a", "b", "c"].iter().enumerate() {
        assert!(matches!(store.begin(key.to_string(), i as u64, ()), Begin::Owner));
        store.complete(key.to_string(), Ok(i as u64), i as u64);
    }
    // Nothing has expired at time 2, so the sweep keeps all three.
    assert_eq!(store.len(), 3);
    // At time 11 the values of a and b have expired (0 + 10, 1 + 10); the sweep
    // after this completion takes them.
    store.complete("d".to_owned(), Ok(9), 11);
    assert_eq!(store.len(), 2);
    assert!(matches!(store.begin("c".to_owned(), 11, ()), Begin::Done(2)));
    assert!(matches!(store.begin("d".to_owned(), 11, ()), Begin::Done(9)));
    // Below the bound nothing is swept by a completion: expired values stay
    // until the next begin.
    let mut small = IdempotencyStore::<u64, ()>::new(0, 64);
    small.complete("z".to_owned(), Ok(1), 5);
    assert_eq!(small.len(), 1);
    assert!(matches!(small.begin("z".to_owned(), 5, ()), Begin::Owner));
}
