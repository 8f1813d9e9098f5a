//! The lock handle, the guard, and a request for the lock in progress.

use vstd::prelude::*;
use std::sync::Arc;
use std::sync::atomic::AtomicU64;
use event_listener::Event;
use event_listener::EventListener;
use crate::cell::update;
use crate::course::act;
use crate::course::after_act;
use crate::course::after_step;
use crate::course::enters;
use crate::course::rank;
use crate::course::resumed;
use crate::course::word_of;
use crate::course::Act;
use crate::course::Phase;
use crate::event::listen;
use crate::event::new_event;
use crate::event::notify_one;
use crate::model::entries;
use crate::model::Op;
use crate::model::Wake;
use crate::text::debug_text;
use crate::text::show;
use crate::text::shown;
use crate::word::applicable;
use crate::word::view;
use crate::word::wake_after;
use crate::word::FRESH;

verus! {

/// A request that has waited longer than this many nanoseconds joins the fair queue.
pub const STARVED_AFTER_NANOS: u64 = 500_000;

/// What all handles and guards of one lock share.
struct Shared<T> {
    /// The state of the lock.
    word: AtomicU64,
    /// The requests that wait for the lock.
    waiters: Event,
    /// The value that the lock protects.
    data: T,
}

/// A handle to a lock. Cloning it gives another handle to the same lock.
pub struct Lock<T>(Arc<Shared<T>>);

/// Proof of exclusive access to the value behind a lock. The lock stays held until
/// the guard is given back with [`LockGuard::release`].
pub struct LockGuard<T>(Lock<T>);

/// A request for a lock, from the first attempt until it is granted or given up with
/// [`Acquire::withdraw`].
pub struct Acquire<T> {
    lock: Lock<T>,
    /// Where the request stands: `Away` before its first attempt and after it was
    /// granted, `Asleep` after it was told to wait.
    phase: Phase,
    /// The place of the request in the fair queue, once it has joined it.
    ticket: Option<u32>,
}

/// Where a request stands after it was advanced.
pub enum Step<T> {
    /// The lock was acquired.
    Acquired(LockGuard<T>),
    /// The lock was not to be had. The listener was registered before the last
    /// attempt: wait for it, then advance the request again.
    Wait(EventListener),
}

/// Whether a request that has waited for `waited_nanos` nanoseconds is starved.
pub open spec fn starved(waited_nanos: u64) -> bool {
    waited_nanos > STARVED_AFTER_NANOS
}

/// What it is to have tried `op` on a lock: `found` holds the word that the atomic
/// step found, inside `Ok` where the operation took effect on it and inside `Err`
/// where it did not, and `woke` names whom the lock in that state has woken after
/// the operation.
pub open spec fn performed(op: Op, found: Result<u64, u64>, woke: Wake) -> bool {
    &&& found is Ok <==> applicable(op, word_of(found))
    &&& woke == view(word_of(found)).wake(op)
}

/// Whom a request without a ticket has woken when it is withdrawn: one waiter in its
/// place if it was told to wait, as it may have used up a wake; nobody otherwise.
pub open spec fn parting_of(phase: Phase) -> Wake {
    match phase {
        Phase::Asleep => Wake::One,
        Phase::Woken => Wake::One,
        _ => Wake::Nobody,
    }
}

/// What it is for a request to have been withdrawn: with a ticket, `Cancel` of the
/// ticket was tried; without one nothing was tried, and one waiter was woken if the
/// request had been told to wait.
pub open spec fn withdrawn(
    phase: Phase,
    ticket: Option<u32>,
    tried: Option<(Op, Result<u64, u64>)>,
    woke: Wake,
) -> bool {
    match ticket {
        Some(t) => tried matches Some((op, found)) && op == Op::Cancel(t) && performed(op, found, woke),
        None => tried is None && woke == parting_of(phase),
    }
}

/// Whether a request that has waited for `waited_nanos` nanoseconds is starved.
pub fn is_starved(waited_nanos: u64) -> (b: bool)
    ensures
        b == starved(waited_nanos),
{
    waited_nanos > STARVED_AFTER_NANOS
}

/// Whom a request without a ticket wakes when it is withdrawn.
pub fn parting(phase: Phase) -> (woke: Wake)
    ensures
        woke == parting_of(phase),
{
    match phase {
        Phase::Asleep => Wake::One,
        Phase::Woken => Wake::One,
        _ => Wake::Nobody,
    }
}

/// The text of a lock that could be looked into, from the text of its value if the
/// value gave one.
pub fn shown_if(text: Option<String>) -> (shows: Option<String>)
    ensures
        match text {
            Some(t) => shows matches Some(s) && s@ == shown(Some(t@)),
            None => shows is None,
        },
{
    match text {
        Some(t) => Some(show(Some(t.as_str()))),
        None => None,
    }
}

impl<T> Clone for Lock<T> {
    /// Another handle to the same lock.
    fn clone(&self) -> (other: Lock<T>)
        ensures
            other == *self,
    {
        Lock(self.0.clone())
    }
}

impl<T> Lock<T> {
    /// The value that the lock protects. The state of the lock is not part of it:
    /// that sits in an atomic cell, of which no contract can speak.
    pub closed spec fn data(&self) -> T {
        self.0.data
    }

    /// Makes a lock around `data`. The lock is free.
    pub fn new(data: T) -> (lock: Lock<T>)
        ensures
            lock.data() == data,
    {
        Lock(Arc::new(Shared { word: AtomicU64::new(FRESH), waiters: new_event(), data }))
    }

    /// Takes the lock if it is free, without waiting. Gives nothing while the lock is
    /// held or handed over. One atomic step on the word of the lock decides which:
    /// it tries `Op::Acquire`, and what it found goes to `guard_if`.
    pub fn try_lock(&self) -> (guard: Option<LockGuard<T>>)
        ensures
            guard matches Some(g) ==> g.lock() == *self,
    {
        self.guard_if(Op::Acquire, update(&self.0.word, Op::Acquire))
    }

    /// The guard that an attempt earns: `op` is an operation that enters the critical
    /// section, and `found` is what the atomic step for it came back with. A guard
    /// where the attempt took effect, none where it did not. Kept inside the crate,
    /// as a guard is to be had for an attempt that took effect and for nothing else.
    pub(crate) fn guard_if(&self, op: Op, found: Result<u64, u64>) -> (guard: Option<LockGuard<T>>)
        requires
            entries(op) == 1,
            found is Ok <==> applicable(op, word_of(found)),
        ensures
            guard is Some <==> found is Ok,
            guard matches Some(g) ==> g.lock() == *self,
    {
        match found {
            Ok(_) => Some(LockGuard(self.clone())),
            Err(_) => None,
        }
    }

    /// Starts a request for the lock. Nothing is tried until the request is advanced.
    pub fn lock(&self) -> (request: Acquire<T>)
        ensures
            request.lock() == *self,
            request.phase() == Phase::Away,
            request.ticket() is None,
    {
        Acquire { lock: self.clone(), phase: Phase::Away, ticket: None }
    }

    /// Tries `op` on the lock, then wakes whom the lock, as the step found it, has
    /// woken after `op`. Gives back what the atomic step found and whom it woke.
    pub(crate) fn perform(&self, op: Op) -> (done: (Result<u64, u64>, Wake))
        requires
            entries(op) <= 0,
        ensures
            performed(op, done.0, done.1),
    {
        let found = update(&self.0.word, op);
        let whom = match found {
            Ok(prev) => wake_after(op, prev),
            Err(prev) => wake_after(op, prev),
        };
        self.wake(whom);
        (found, whom)
    }

    /// Wakes whom `whom` names: one waiter, the one that has waited longest, or
    /// nobody.
    fn wake(&self, whom: Wake) {
        match whom {
            Wake::Nobody => {},
            Wake::One => notify_one(&self.0.waiters),
        }
    }
}

impl<T: std::fmt::Debug> Lock<T> {
    /// Shows the lock for diagnostics, without waiting: with its value where the lock
    /// could be taken for the moment of the look, as locked where it is held. Gives
    /// nothing where the `Debug` impl of the value reports an error.
    pub fn render(&self) -> (shows: Option<String>)
        ensures
            shows matches Some(s) ==> s@ == shown(None) || exists|text: Seq<char>| s@ == shown(Some(text)),
    {
        match self.try_lock() {
            None => Some(show(None)),
            Some(guard) => {
                let text = debug_text(&*guard);
                guard.release();
                shown_if(text)
            },
        }
    }
}

impl<T: Default> Default for Lock<T> {
    /// A lock around the default value of `T`.
    fn default() -> (lock: Lock<T>)
        ensures
            T::default.ensures((), lock.data()),
    {
        Lock::new(T::default())
    }
}

impl<T> From<T> for Lock<T> {
    /// A lock around `data`.
    fn from(data: T) -> (lock: Lock<T>)
        ensures
            lock.data() == data,
    {
        Lock::new(data)
    }
}

impl<T> vstd::std_specs::convert::FromSpecImpl<T> for Lock<T> {
    /// Two locks made from one value are two locks: no function of the value says
    /// which lock `from` gives, only what it protects.
    open spec fn obeys_from_spec() -> bool {
        false
    }

    open spec fn from_spec(data: T) -> Lock<T> {
        arbitrary()
    }
}

impl<T> std::ops::Deref for LockGuard<T> {
    type Target = T;

    /// The value that the lock protects.
    fn deref(&self) -> (data: &T)
        ensures
            *data == self.lock().data(),
    {
        &self.0.0.data
    }
}

impl<T> LockGuard<T> {
    /// The lock that the guard holds.
    pub closed spec fn lock(&self) -> Lock<T> {
        self.0
    }

    /// A handle to the lock that the guard came from.
    pub fn source(guard: &LockGuard<T>) -> (lock: &Lock<T>)
        ensures
            *lock == guard.lock(),
    {
        &guard.0
    }

    /// Gives the lock up, then wakes one waiter: the release frees the lock or, where
    /// tickets wait, hands it to the first ticket of the fair queue. Gives back the
    /// word that the release found and whom it woke.
    pub fn release(self) -> (done: (Result<u64, u64>, Wake))
        ensures
            performed(Op::Release, done.0, done.1),
            done.1 == Wake::One,
    {
        self.0.perform(Op::Release)
    }
}

impl<T> Acquire<T> {
    /// The lock that is asked for.
    pub closed spec fn lock(&self) -> Lock<T> {
        self.lock
    }

    /// Where the request stands.
    pub closed spec fn phase(&self) -> Phase {
        self.phase
    }

    /// The ticket that the request holds in the fair queue, if it has joined it.
    pub closed spec fn ticket(&self) -> Option<u32> {
        self.ticket
    }

    /// The request is between two rounds: it has not tried yet or was granted, or
    /// it was told to wait.
    pub open spec fn rests(&self) -> bool {
        self.phase() == Phase::Away || self.phase() == Phase::Asleep
    }

    /// Takes the request through one round, which begins where
    /// [`resumed`](crate::course::resumed) says. In each phase it does what
    /// [`act`](crate::course::act) names and goes on from where
    /// [`after_step`](crate::course::after_step) or
    /// [`after_act`](crate::course::after_act) says, until there is a guard or a
    /// listener to hand to the caller: it tries; where that fails it joins the fair
    /// queue if `waited_nanos` nanoseconds of waiting have starved it; it registers a
    /// listener and tries once more; and where that fails although the lock is to be
    /// had by another, it wakes one waiter in its place.
    pub fn advance(&mut self, waited_nanos: u64) -> (step: Step<T>)
        ensures
            final(self).rests(),
            final(self).lock() == old(self).lock(),
            match step {
                Step::Acquired(guard) => {
                    &&& guard.lock() == old(self).lock()
                    &&& final(self).phase() == Phase::Away
                    &&& final(self).ticket() is None
                },
                Step::Wait(_) => {
                    &&& final(self).phase() == Phase::Asleep
                    &&& match old(self).ticket() {
                        Some(t) => final(self).ticket() == Some(t),
                        None => final(self).ticket() is Some ==> starved(waited_nanos),
                    }
                },
            },
    {
        let starving = is_starved(waited_nanos);
        self.phase = resumed(self.phase);
        let mut listener: Option<EventListener> = None;
        let mut guard: Option<LockGuard<T>> = None;
        loop
            invariant
                self.lock == old(self).lock,
                starving == starved(waited_nanos),
                self.phase != Phase::Leaving,
                !(self.phase is Waking),
                listener is Some <==> self.phase == Phase::Listening || self.phase == Phase::Passing
                    || self.phase == Phase::Asleep || self.phase == Phase::Settling,
                guard is Some <==> self.phase == Phase::Settling || self.phase == Phase::Holding,
                guard matches Some(g) ==> g.lock() == self.lock && self.ticket is None,
                match old(self).ticket {
                    Some(t) => self.ticket == Some(t) || guard is Some,
                    None => self.ticket is Some ==> starving,
                },
            decreases rank(self.phase),
        {
            match act(self.phase, self.ticket, starving) {
                Act::Try(op) => {
                    let found = update(&self.lock.0.word, op);
                    if enters(op) {
                        guard = self.lock.guard_if(op, found);
                    }
                    let next = after_step(self.phase, self.ticket, starving, found);
                    self.phase = next.0;
                    self.ticket = next.1;
                },
                Act::Listen => {
                    listener = Some(listen(&self.lock.0.waiters));
                    let next = after_act(self.phase, self.ticket, starving);
                    self.phase = next.0;
                    self.ticket = next.1;
                },
                Act::Notify => {
                    self.lock.wake(Wake::One);
                    let next = after_act(self.phase, self.ticket, starving);
                    self.phase = next.0;
                    self.ticket = next.1;
                },
                Act::Unlisten => {
                    listener = None;
                    let next = after_act(self.phase, self.ticket, starving);
                    self.phase = next.0;
                    self.ticket = next.1;
                },
                Act::Sleep => {
                    return Step::Wait(listener.unwrap());
                },
                Act::Enter => {
                    self.phase = Phase::Away;
                    return Step::Acquired(guard.unwrap());
                },
            }
        }
    }

    /// Gives the request up. A ticket in the fair queue is taken out; where the lock
    /// was to be had at that time, one waiter is woken, as the lock may have been on
    /// its way to the ticket, or the wake that its holder used up was meant for
    /// another. A request without a ticket that was told to wait may have used up a
    /// wake too: it wakes one waiter in its place. Gives back the operation that was
    /// tried with what it found, if the request had a ticket to withdraw, and whom it
    /// woke.
    pub fn withdraw(self) -> (done: (Option<(Op, Result<u64, u64>)>, Wake))
        ensures
            withdrawn(self.phase(), self.ticket(), done.0, done.1),
    {
        match self.ticket {
            Some(t) => {
                let (found, woke) = self.lock.perform(Op::Cancel(t));
                (Some((Op::Cancel(t), found)), woke)
            },
            None => {
                let woke = parting(self.phase);
                self.lock.wake(woke);
                (None, woke)
            },
        }
    }
}

} // verus!
