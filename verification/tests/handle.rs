use std::cell::Cell;
use std::fmt;
use std::time::Duration;

use async_lock::lock::is_starved;
use async_lock::lock::shown_if;
use async_lock::lock::STARVED_AFTER_NANOS;
use async_lock::model::Op;
use async_lock::model::Wake;
use async_lock::Acquire;
use async_lock::Lock;
use async_lock::LockGuard;
use async_lock::Step;
use event_listener::EventListener;

const SOON: Duration = Duration::from_millis(2000);
const NEVER: Duration = Duration::from_millis(50);
const LONG: u64 = STARVED_AFTER_NANOS + 1;

const FREE: u64 = 0;
const HELD: u64 = 1;
const HANDOFF: u64 = 2;
const SLOT: u64 = 4;
const LEN: u64 = 1 << 34;
const HEAD: u64 = 1 << 40;

/// Advances a request that is expected to have to wait.
fn must_wait<T>(request: &mut Acquire<T>, waited_nanos: u64) -> EventListener {
    match request.advance(waited_nanos) {
        Step::Acquired(_) => panic!("the lock was not to be had"),
        Step::Wait(listener) => listener,
    }
}

/// Advances a request that is expected to be granted.
fn must_get<T>(request: &mut Acquire<T>, waited_nanos: u64) -> LockGuard<T> {
    match request.advance(waited_nanos) {
        Step::Acquired(guard) => guard,
        Step::Wait(_) => panic!("the lock was to be had"),
    }
}

#[test]
fn try_lock_gives_the_value() {
    let lock = Lock::new(10);
    let guard = lock.try_lock();
    assert!(guard.is_some());
    assert_eq!(*guard.unwrap(), 10);
}

#[test]
fn try_lock_is_refused_exactly_while_a_guard_lives() {
    let lock = Lock::new(10);
    let other = lock.clone();
    for _ in 0..3 {
        let guard = lock.try_lock().unwrap();
        assert!(lock.try_lock().is_none());
        assert!(other.try_lock().is_none());
        assert!(LockGuard::source(&guard).try_lock().is_none());
        guard.release();
        let guard = other.try_lock();
        assert!(guard.is_some());
        guard.unwrap().release();
    }
}

#[test]
fn a_guard_that_is_not_released_keeps_the_lock() {
    let lock = Lock::new(());
    {
        let _guard = lock.try_lock().unwrap();
    }
    assert!(lock.try_lock().is_none());
}

#[test]
fn release_tells_what_it_found_and_whom_it_woke() {
    let lock = Lock::new(());
    let guard = lock.try_lock().unwrap();
    assert_eq!(guard.release(), (Ok(HELD), Wake::One));
    let guard = lock.try_lock().unwrap();
    let mut queued = lock.lock();
    let _listener = must_wait(&mut queued, LONG);
    assert_eq!(guard.release(), (Ok(HELD + SLOT + LEN), Wake::One));
    assert!(lock.try_lock().is_none());
    must_get(&mut queued, LONG).release();
}

#[test]
fn a_request_on_a_free_lock_is_granted_at_once() {
    let lock = Lock::new('a');
    let mut request = lock.lock();
    let guard = must_get(&mut request, 0);
    assert_eq!(*guard, 'a');
    assert!(lock.try_lock().is_none());
}

#[test]
fn a_request_can_be_used_again_after_it_was_granted() {
    let lock = Lock::new(());
    let mut request = lock.lock();
    must_get(&mut request, 0).release();
    let guard = must_get(&mut request, 0);
    let waiting = must_wait(&mut request, 0);
    guard.release();
    assert!(waiting.wait_timeout(SOON));
    must_get(&mut request, 0).release();
}

#[test]
fn a_waiting_request_is_woken_by_the_release() {
    let lock = Lock::new(0u8);
    let guard = lock.try_lock().unwrap();
    let mut request = lock.lock();
    let listener = must_wait(&mut request, 0);
    guard.release();
    assert!(listener.wait_timeout(SOON));
    let guard = must_get(&mut request, 0);
    assert_eq!(*guard, 0);
}

#[test]
fn a_release_wakes_one_waiter_at_a_time() {
    let lock = Lock::new(());
    let guard = lock.try_lock().unwrap();
    let mut first = lock.lock();
    let mut second = lock.lock();
    let first_listener = must_wait(&mut first, 0);
    let second_listener = must_wait(&mut second, 0);
    guard.release();
    assert!(first_listener.wait_timeout(SOON));
    assert!(!second_listener.wait_timeout(NEVER));
    let guard = must_get(&mut first, 0);
    let second_listener = must_wait(&mut second, 0);
    guard.release();
    assert!(second_listener.wait_timeout(SOON));
    must_get(&mut second, 0).release();
}

#[test]
fn a_release_without_waiters_wakes_no_later_one() {
    let lock = Lock::new(());
    lock.try_lock().unwrap().release();
    let guard = lock.try_lock().unwrap();
    let mut request = lock.lock();
    let listener = must_wait(&mut request, 0);
    assert!(!listener.wait_timeout(NEVER));
    guard.release();
}

#[test]
fn a_wake_that_is_dropped_goes_to_the_next_waiter() {
    let lock = Lock::new(());
    let guard = lock.try_lock().unwrap();
    let mut first = lock.lock();
    let mut second = lock.lock();
    let first_listener = must_wait(&mut first, 0);
    let second_listener = must_wait(&mut second, 0);
    guard.release();
    drop(first_listener);
    first.withdraw();
    assert!(second_listener.wait_timeout(SOON));
    must_get(&mut second, 0).release();
}

#[test]
fn a_woken_request_that_gives_up_wakes_the_next_waiter() {
    let lock = Lock::new(());
    let guard = lock.try_lock().unwrap();
    let mut first = lock.lock();
    let mut second = lock.lock();
    let first_listener = must_wait(&mut first, 0);
    let second_listener = must_wait(&mut second, 0);
    guard.release();
    // `first` takes the wake and then gives up without another attempt.
    assert!(first_listener.wait_timeout(SOON));
    assert_eq!(first.withdraw(), (None, Wake::One));
    assert!(second_listener.wait_timeout(SOON));
    must_get(&mut second, 0).release();
}

#[test]
fn a_request_that_never_asked_wakes_nobody_when_it_gives_up() {
    let lock = Lock::new(());
    let guard = lock.try_lock().unwrap();
    let mut waiter = lock.lock();
    let listener = must_wait(&mut waiter, 0);
    assert_eq!(lock.lock().withdraw(), (None, Wake::Nobody));
    assert!(!listener.wait_timeout(NEVER));
    guard.release();
    must_get(&mut waiter, 0).release();
}

#[test]
fn a_request_that_was_granted_wakes_nobody_when_it_gives_up() {
    let lock = Lock::new(());
    let mut request = lock.lock();
    let guard = must_get(&mut request, 0);
    assert_eq!(request.withdraw(), (None, Wake::Nobody));
    guard.release();
}

#[test]
fn a_guard_outlives_the_handles_it_came_from() {
    let lock = Lock::new(String::from("kept"));
    let spare = lock.clone();
    let guard = {
        let clone = lock.clone();
        let guard = clone.try_lock().unwrap();
        drop(clone);
        guard
    };
    drop(lock);
    assert_eq!(*guard, "kept");
    assert!(spare.try_lock().is_none());
    let again = LockGuard::source(&guard).clone();
    guard.release();
    let guard = again.try_lock().unwrap();
    assert_eq!(*guard, "kept");
    guard.release();
    assert!(spare.try_lock().is_some());
}

#[test]
fn a_guard_from_a_request_outlives_the_request() {
    let lock = Lock::new(7);
    let guard = {
        let mut request = lock.clone().lock();
        let guard = must_get(&mut request, 0);
        request.withdraw();
        guard
    };
    assert_eq!(*guard, 7);
    assert!(lock.try_lock().is_none());
    guard.release();
    assert!(lock.try_lock().is_some());
}

#[test]
fn ten_tasks_increment_a_shared_integer() {
    let lock = Lock::new(Cell::new(0));
    let mut requests: Vec<Acquire<Cell<i32>>> = Vec::new();
    let mut listeners: Vec<Option<EventListener>> = Vec::new();
    for _ in 0..10 {
        requests.push(lock.clone().lock());
        listeners.push(None);
    }
    // The first task gets the lock; the others find it held and go to sleep.
    let mut held = None;
    for i in 0..10 {
        match requests[i].advance(0) {
            Step::Acquired(guard) => {
                assert_eq!(i, 0);
                held = Some(guard);
            },
            Step::Wait(listener) => listeners[i] = Some(listener),
        }
    }
    let mut done = 0;
    while let Some(guard) = held.take() {
        guard.set(guard.get() + 1);
        done += 1;
        guard.release();
        // The release woke the task that has waited longest: it runs next.
        for i in 0..10 {
            if let Some(listener) = listeners[i].take() {
                assert!(listener.wait_timeout(SOON));
                held = Some(must_get(&mut requests[i], 0));
                break;
            }
        }
    }
    assert_eq!(done, 10);
    assert_eq!(lock.try_lock().unwrap().get(), 10);
}

#[test]
fn render_shows_the_value_of_a_free_lock() {
    let lock = Lock::new(10);
    assert_eq!(lock.render().unwrap(), "Lock { data: 10 }");
    assert_eq!(lock.render(), Some(format!("Lock {{ data: {:?} }}", 10)));
    assert!(lock.try_lock().is_some());
}

#[test]
fn render_shows_a_held_lock_as_locked() {
    let lock = Lock::new(10);
    let guard = lock.try_lock().unwrap();
    assert_eq!(lock.render().unwrap(), "Lock { data: <locked> }");
    assert_eq!(LockGuard::source(&guard).render().unwrap(), "Lock { data: <locked> }");
    guard.release();
    assert_eq!(lock.render().unwrap(), "Lock { data: 10 }");
}

#[test]
fn render_quotes_text_as_debug_does() {
    let lock = Lock::new("a \"b\"");
    assert_eq!(lock.render().unwrap(), "Lock { data: \"a \\\"b\\\"\" }");
}

struct Mute;

impl fmt::Debug for Mute {
    fn fmt(&self, _: &mut fmt::Formatter<'_>) -> fmt::Result {
        Err(fmt::Error)
    }
}

#[test]
fn render_gives_nothing_where_the_value_cannot_be_shown() {
    let lock = Lock::new(Mute);
    assert_eq!(lock.render(), None);
    // The look has given the lock back.
    let guard = lock.try_lock().unwrap();
    assert_eq!(lock.render().unwrap(), "Lock { data: <locked> }");
    guard.release();
}

#[test]
fn render_wakes_a_waiter_that_came_during_the_look() {
    let lock = Lock::new(1);
    let guard = lock.try_lock().unwrap();
    let mut request = lock.lock();
    let listener = must_wait(&mut request, 0);
    guard.release();
    assert!(listener.wait_timeout(SOON));
    assert_eq!(lock.render().unwrap(), "Lock { data: 1 }");
    must_get(&mut request, 0).release();
}

#[test]
fn shown_if_shows_the_text_it_is_given() {
    assert_eq!(shown_if(Some(String::from("x"))).unwrap(), "Lock { data: x }");
    assert_eq!(shown_if(Some(String::new())).unwrap(), "Lock { data:  }");
    assert_eq!(shown_if(None), None);
}

#[test]
fn default_and_from_make_free_locks() {
    let lock: Lock<u32> = Lock::default();
    assert_eq!(*lock.try_lock().unwrap(), 0);
    let lock: Lock<&str> = Lock::from("x");
    assert_eq!(*lock.try_lock().unwrap(), "x");
    let lock: Lock<u8> = 3.into();
    assert_eq!(*lock.try_lock().unwrap(), 3);
}

#[test]
fn the_threshold_is_half_a_millisecond() {
    assert_eq!(STARVED_AFTER_NANOS, 500_000);
    assert!(!is_starved(0));
    assert!(!is_starved(500_000));
    assert!(is_starved(500_001));
    assert!(is_starved(u64::MAX));
}

#[test]
fn a_starved_request_is_served_before_a_newcomer() {
    let lock = Lock::new(());
    let guard = lock.try_lock().unwrap();
    let mut starved = lock.lock();
    let starved_listener = must_wait(&mut starved, LONG);
    // The lock goes to the starved request, not to whoever asks next.
    guard.release();
    assert!(lock.try_lock().is_none());
    let mut newcomer = lock.lock();
    let newcomer_listener = must_wait(&mut newcomer, 0);
    assert!(starved_listener.wait_timeout(SOON));
    assert!(!newcomer_listener.wait_timeout(NEVER));
    let guard = must_get(&mut starved, LONG);
    assert!(lock.try_lock().is_none());
    let newcomer_listener = must_wait(&mut newcomer, 0);
    guard.release();
    assert!(newcomer_listener.wait_timeout(SOON));
    must_get(&mut newcomer, 0).release();
    assert!(lock.try_lock().is_some());
}

#[test]
fn starved_requests_are_served_in_the_order_they_queued() {
    let lock = Lock::new(Cell::new(0));
    let guard = lock.try_lock().unwrap();
    let mut requests = vec![lock.lock(), lock.lock(), lock.lock()];
    let mut listeners = Vec::new();
    for request in requests.iter_mut() {
        listeners.push(must_wait(request, LONG));
    }
    guard.release();
    for (turn, listener) in listeners.into_iter().enumerate() {
        // Those behind cannot collect the lock; the first in line is woken and can.
        assert!(lock.try_lock().is_none());
        assert!(listener.wait_timeout(SOON));
        let guard = must_get(&mut requests[turn], LONG);
        assert_eq!(guard.get(), turn);
        guard.set(turn + 1);
        guard.release();
    }
    assert_eq!(lock.try_lock().unwrap().get(), 3);
}

#[test]
fn a_wake_that_reaches_the_wrong_waiter_is_passed_on() {
    let lock = Lock::new(());
    let guard = lock.try_lock().unwrap();
    let mut contender = lock.lock();
    let mut queued = lock.lock();
    let contender_listener = must_wait(&mut contender, 0);
    let queued_listener = must_wait(&mut queued, LONG);
    // The release hands the lock to `queued`, but wakes `contender`, who has waited
    // longer. It finds the lock on its way to another and wakes one in its place.
    guard.release();
    assert!(contender_listener.wait_timeout(SOON));
    let contender_listener = must_wait(&mut contender, 0);
    assert!(queued_listener.wait_timeout(SOON));
    let guard = must_get(&mut queued, LONG);
    assert!(!contender_listener.wait_timeout(NEVER));
    let contender_listener = must_wait(&mut contender, 0);
    guard.release();
    assert!(contender_listener.wait_timeout(SOON));
    must_get(&mut contender, 0).release();
}

#[test]
fn a_request_that_is_not_starved_stays_out_of_the_queue() {
    let lock = Lock::new(());
    let guard = lock.try_lock().unwrap();
    let mut request = lock.lock();
    let listener = must_wait(&mut request, STARVED_AFTER_NANOS);
    assert_eq!(guard.release(), (Ok(HELD), Wake::One));
    // The lock is free for anyone.
    let barger = lock.try_lock().unwrap();
    assert!(listener.wait_timeout(SOON));
    let listener = must_wait(&mut request, STARVED_AFTER_NANOS);
    barger.release();
    assert!(listener.wait_timeout(SOON));
    must_get(&mut request, STARVED_AFTER_NANOS).release();
}

#[test]
fn withdrawing_a_queued_request_gives_its_place_up() {
    let lock = Lock::new(());
    let guard = lock.try_lock().unwrap();
    let mut first = lock.lock();
    let mut second = lock.lock();
    let first_listener = must_wait(&mut first, LONG);
    let second_listener = must_wait(&mut second, LONG);
    drop(first_listener);
    assert_eq!(first.withdraw(), (Some((Op::Cancel(0), Ok(HELD + 3 * SLOT + 2 * LEN))), Wake::Nobody));
    assert_eq!(guard.release(), (Ok(HELD + SLOT + LEN + HEAD), Wake::One));
    assert!(second_listener.wait_timeout(SOON));
    must_get(&mut second, LONG).release();
    assert!(lock.try_lock().is_some());
}

#[test]
fn withdrawing_the_designated_request_passes_the_lock_on() {
    let lock = Lock::new(());
    let guard = lock.try_lock().unwrap();
    let mut first = lock.lock();
    let mut second = lock.lock();
    let first_listener = must_wait(&mut first, LONG);
    let second_listener = must_wait(&mut second, LONG);
    guard.release();
    // The lock is now on its way to `first`, which gives up instead.
    assert!(first_listener.wait_timeout(SOON));
    assert_eq!(
        first.withdraw(),
        (Some((Op::Cancel(0), Ok(HELD + HANDOFF + 3 * SLOT + 2 * LEN))), Wake::One),
    );
    assert!(lock.try_lock().is_none());
    assert!(second_listener.wait_timeout(SOON));
    must_get(&mut second, LONG).release();
    assert!(lock.try_lock().is_some());
}

#[test]
fn withdrawing_the_only_designated_request_frees_the_lock() {
    let lock = Lock::new(());
    let guard = lock.try_lock().unwrap();
    let mut queued = lock.lock();
    let queued_listener = must_wait(&mut queued, LONG);
    let mut contender = lock.lock();
    let contender_listener = must_wait(&mut contender, 0);
    guard.release();
    assert!(lock.try_lock().is_none());
    assert!(queued_listener.wait_timeout(SOON));
    assert_eq!(queued.withdraw(), (Some((Op::Cancel(0), Ok(HELD + HANDOFF + SLOT + LEN))), Wake::One));
    assert!(contender_listener.wait_timeout(SOON));
    must_get(&mut contender, 0).release();
}

#[test]
fn withdrawing_twice_finds_no_ticket() {
    let lock = Lock::new(());
    let guard = lock.try_lock().unwrap();
    let mut queued = lock.lock();
    let listener = must_wait(&mut queued, LONG);
    drop(listener);
    queued.withdraw();
    assert_eq!(guard.release(), (Ok(HELD), Wake::One));
    assert_eq!(lock.try_lock().unwrap().release(), (Ok(HELD), Wake::One));
    assert!(lock.render().is_some());
    assert_eq!(FREE, 0);
}

#[test]
fn a_request_keeps_its_ticket_while_it_waits() {
    let lock = Lock::new(());
    let guard = lock.try_lock().unwrap();
    let mut request = lock.lock();
    let _ = must_wait(&mut request, LONG);
    let _ = must_wait(&mut request, 0);
    let listener = must_wait(&mut request, LONG);
    assert_eq!(guard.release(), (Ok(HELD + SLOT + LEN), Wake::One));
    assert!(lock.try_lock().is_none());
    assert!(listener.wait_timeout(SOON));
    must_get(&mut request, 0).release();
}
