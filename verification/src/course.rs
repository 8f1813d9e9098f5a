//! The course of a request: where it stands, what it does next, and where that
//! leaves it.
//!
//! A request tries for the lock. Where that fails it may join the fair queue; then it
//! registers a listener and tries once more, so that a release between the two
//! attempts finds the listener. Where the second attempt fails although the lock is
//! to be had by another, it wakes one waiter in its place; then it sleeps.

use vstd::prelude::*;
use crate::model::entries;
use crate::model::Op;
use crate::model::Wake;
use crate::word::decode;
use crate::word::next_ticket;
use crate::word::view;

verus! {

/// Where a task stands.
#[derive(Clone, Copy, Debug, PartialEq, Eq)]
pub enum Phase {
    /// It does not ask for the lock, or is about to make the first attempt of a
    /// request.
    Away,
    /// Its first attempt failed. It may join the fair queue, and will register.
    Joining,
    /// It has asked to join the fair queue. It is about to register.
    Registering,
    /// Its listener is registered. It is about to try again.
    Listening,
    /// Its second attempt failed although the lock is to be had by another. It is
    /// about to wake one waiter, and will then sleep.
    Passing,
    /// It sleeps until its listener is notified.
    Asleep,
    /// It has stopped sleeping, because its listener was notified or of its own
    /// accord, and the listener is gone. It is about to try again.
    Woken,
    /// It got the lock on its second attempt and is about to drop its listener.
    Settling,
    /// It holds a guard.
    Holding,
    /// It gave up after it had to wait, and has no listener any more. It is about to
    /// withdraw its ticket, or to wake a waiter in its place.
    Leaving,
    /// It released the lock or withdrew, and is about to wake whom that names.
    Waking(Wake),
}

/// What a request does next.
#[derive(Clone, Copy, Debug, PartialEq, Eq)]
pub enum Act {
    /// Try this operation on the lock, in one atomic step.
    Try(Op),
    /// Register a listener.
    Listen,
    /// Wake one waiter.
    Notify,
    /// Drop the listener.
    Unlisten,
    /// Hand the listener to the caller, to wait for.
    Sleep,
    /// Hand the guard to the caller.
    Enter,
}

/// The operation by which a request tries to get the lock: in open contention
/// without a ticket, by collecting the handed-over lock with one.
pub open spec fn attempt_of(ticket: Option<u32>) -> Op {
    match ticket {
        None => Op::Acquire,
        Some(t) => Op::Claim(t),
    }
}

/// Where a request stands when its next round begins: a request that was told to
/// wait has stopped sleeping, and any other starts anew.
pub open spec fn resumed_of(phase: Phase) -> Phase {
    match phase {
        Phase::Asleep => Phase::Woken,
        _ => Phase::Away,
    }
}

/// What a request does next: in `phase`, with `ticket`, `starved` or not.
pub open spec fn act_of(phase: Phase, ticket: Option<u32>, starved: bool) -> Act {
    match phase {
        Phase::Away => Act::Try(attempt_of(ticket)),
        Phase::Woken => Act::Try(attempt_of(ticket)),
        Phase::Joining => if ticket is None && starved { Act::Try(Op::Enqueue) } else { Act::Listen },
        Phase::Registering => Act::Listen,
        Phase::Listening => Act::Try(attempt_of(ticket)),
        Phase::Passing => Act::Notify,
        Phase::Settling => Act::Unlisten,
        Phase::Holding => Act::Enter,
        _ => Act::Sleep,
    }
}

/// Where a request stands, and with which ticket, after it did what [`act_of`] names.
/// For an atomic step, `took` says whether the operation took effect, `given` is the
/// ticket that the lock had next to hand out, and `open` says whether the lock was
/// to be had: free, or on its way to a ticket.
pub open spec fn landing(
    phase: Phase,
    ticket: Option<u32>,
    starved: bool,
    took: bool,
    given: u32,
    open: bool,
) -> (Phase, Option<u32>) {
    match phase {
        Phase::Away => if took { (Phase::Holding, None) } else { (Phase::Joining, ticket) },
        Phase::Woken => if took { (Phase::Holding, None) } else { (Phase::Joining, ticket) },
        Phase::Joining => if ticket is None && starved {
            (Phase::Registering, if took { Some(given) } else { None })
        } else {
            (Phase::Listening, ticket)
        },
        Phase::Registering => (Phase::Listening, ticket),
        Phase::Listening => if took {
            (Phase::Settling, None)
        } else if open {
            (Phase::Passing, ticket)
        } else {
            (Phase::Asleep, ticket)
        },
        Phase::Passing => (Phase::Asleep, ticket),
        Phase::Settling => (Phase::Holding, ticket),
        _ => (phase, ticket),
    }
}

/// How many acts at most lie between a phase and the end of the round: the hand-over
/// of a listener or of a guard to the caller.
pub open spec fn rank(phase: Phase) -> nat {
    match phase {
        Phase::Away => 7,
        Phase::Woken => 7,
        Phase::Joining => 6,
        Phase::Registering => 5,
        Phase::Listening => 4,
        Phase::Passing => 3,
        Phase::Settling => 2,
        Phase::Holding => 1,
        _ => 0,
    }
}

/// A request sleeps only after an attempt that follows its registration. It comes
/// to sleep from the second attempt, where that failed and the lock was not to be
/// had, or from waking one waiter in its place, where the lock was; it comes to the
/// second attempt from registering and from nowhere else; and it wakes one in its
/// place only after a second attempt that failed.
pub proof fn law_sleeps_after_second_attempt(
    phase: Phase,
    ticket: Option<u32>,
    starved: bool,
    took: bool,
    given: u32,
    open: bool,
)
    requires
        act_of(phase, ticket, starved) != Act::Sleep,
        act_of(phase, ticket, starved) != Act::Enter,
    ensures
        act_of(Phase::Listening, ticket, starved) == Act::Try(attempt_of(ticket)),
        landing(phase, ticket, starved, took, given, open).0 == Phase::Asleep ==> (phase == Phase::Listening
            && !took && !open) || phase == Phase::Passing,
        landing(phase, ticket, starved, took, given, open).0 == Phase::Passing ==> phase == Phase::Listening
            && !took && open,
        landing(phase, ticket, starved, took, given, open).0 == Phase::Listening ==> act_of(
            phase,
            ticket,
            starved,
        ) == Act::Listen,
        act_of(phase, ticket, starved) == Act::Listen ==> landing(phase, ticket, starved, took, given, open).0
            == Phase::Listening,
{
}

/// Whether the atomic step that came back with `found` took effect.
pub open spec fn took(found: Result<u64, u64>) -> bool {
    found is Ok
}

/// The word that the atomic step found.
pub open spec fn word_of(found: Result<u64, u64>) -> u64 {
    match found {
        Ok(prev) => prev,
        Err(prev) => prev,
    }
}

/// The operation by which a request with this ticket, or with none, tries to get
/// the lock.
pub fn attempt(ticket: Option<u32>) -> (op: Op)
    ensures
        op == attempt_of(ticket),
{
    match ticket {
        None => Op::Acquire,
        Some(t) => Op::Claim(t),
    }
}

/// Where a request stands when its next round begins.
pub fn resumed(phase: Phase) -> (next: Phase)
    ensures
        next == resumed_of(phase),
{
    match phase {
        Phase::Asleep => Phase::Woken,
        _ => Phase::Away,
    }
}

/// Whether `op` is an operation that enters the critical section.
pub fn enters(op: Op) -> (b: bool)
    ensures
        b == (entries(op) == 1),
{
    match op {
        Op::Acquire => true,
        Op::Claim(_) => true,
        _ => false,
    }
}

/// What a request does next.
pub fn act(phase: Phase, ticket: Option<u32>, starved: bool) -> (a: Act)
    ensures
        a == act_of(phase, ticket, starved),
{
    match phase {
        Phase::Away => Act::Try(attempt(ticket)),
        Phase::Woken => Act::Try(attempt(ticket)),
        Phase::Joining => if ticket.is_none() && starved { Act::Try(Op::Enqueue) } else { Act::Listen },
        Phase::Registering => Act::Listen,
        Phase::Listening => Act::Try(attempt(ticket)),
        Phase::Passing => Act::Notify,
        Phase::Settling => Act::Unlisten,
        Phase::Holding => Act::Enter,
        _ => Act::Sleep,
    }
}

/// Where a request stands after an atomic step that came back with `found`.
pub fn after_step(phase: Phase, ticket: Option<u32>, starved: bool, found: Result<u64, u64>) -> (next: (
    Phase,
    Option<u32>,
))
    ensures
        next == landing(
            phase,
            ticket,
            starved,
            took(found),
            view(word_of(found)).next as u32,
            view(word_of(found)).open(),
        ),
        act_of(phase, ticket, starved) != Act::Sleep && act_of(phase, ticket, starved) != Act::Enter ==> rank(
            next.0,
        ) < rank(phase),
{
    let (took, prev) = match found {
        Ok(prev) => (true, prev),
        Err(prev) => (false, prev),
    };
    let f = decode(prev);
    let open = !f.held || f.handoff;
    after(phase, ticket, starved, took, next_ticket(prev), open)
}

/// Where a request stands after an act that is no atomic step.
pub fn after_act(phase: Phase, ticket: Option<u32>, starved: bool) -> (next: (Phase, Option<u32>))
    ensures
        next == landing(phase, ticket, starved, false, 0, false),
        act_of(phase, ticket, starved) != Act::Sleep && act_of(phase, ticket, starved) != Act::Enter ==> rank(
            next.0,
        ) < rank(phase),
{
    after(phase, ticket, starved, false, 0, false)
}

/// Where a request stands after it did what [`act`] names.
pub fn after(phase: Phase, ticket: Option<u32>, starved: bool, took: bool, given: u32, open: bool) -> (next: (
    Phase,
    Option<u32>,
))
    ensures
        next == landing(phase, ticket, starved, took, given, open),
        act_of(phase, ticket, starved) != Act::Sleep && act_of(phase, ticket, starved) != Act::Enter ==> rank(
            next.0,
        ) < rank(phase),
{
    match phase {
        Phase::Away => if took { (Phase::Holding, None) } else { (Phase::Joining, ticket) },
        Phase::Woken => if took { (Phase::Holding, None) } else { (Phase::Joining, ticket) },
        Phase::Joining => if ticket.is_none() && starved {
            (Phase::Registering, if took { Some(given) } else { None })
        } else {
            (Phase::Listening, ticket)
        },
        Phase::Registering => (Phase::Listening, ticket),
        Phase::Listening => if took {
            (Phase::Settling, None)
        } else if open {
            (Phase::Passing, ticket)
        } else {
            (Phase::Asleep, ticket)
        },
        Phase::Passing => (Phase::Asleep, ticket),
        Phase::Settling => (Phase::Holding, ticket),
        _ => (phase, ticket),
    }
}

} // verus!
