//! The lock as a mathematical object: its states, the operations that change it,
//! and what always holds of it.

use vstd::prelude::*;

verus! {

/// The fair queue never spans more than this many consecutive ticket numbers.
pub const WINDOW: u32 = 32;

/// Ticket numbers stay below this bound. Numbering starts over whenever the queue
/// drains; until then, once the numbers are used up, nobody can join.
pub const TICKET_LIMIT: u32 = 0x100_0000;

/// An atomic operation on the lock.
#[derive(Clone, Copy, Debug, PartialEq, Eq)]
pub enum Op {
    /// Take the lock in open contention.
    Acquire,
    /// Join the fair queue and be given the next ticket.
    Enqueue,
    /// Collect the lock that was handed to the holder of this ticket.
    Claim(u32),
    /// Leave the fair queue without having been served.
    Cancel(u32),
    /// Give the lock up.
    Release,
}

/// Whom to wake after an operation was tried.
#[derive(Clone, Copy, Debug, PartialEq, Eq)]
pub enum Wake {
    /// Nobody: the operation gave no waiter a chance.
    Nobody,
    /// One waiter: the lock is free, or on its way to a ticket.
    One,
}

/// The state of a lock.
///
/// `held` is true from an acquisition to the matching release, and stays true while
/// the lock is handed over. `handoff` is true while the lock belongs to the first
/// ticket of the queue and that waiter has not collected it yet. `waiting` holds the
/// tickets in the queue, served in increasing order. `next` is the ticket that the
/// next `Enqueue` hands out.
#[verifier::ext_equal]
pub struct LockModel {
    pub held: bool,
    pub handoff: bool,
    pub waiting: Set<nat>,
    pub next: nat,
}

impl LockModel {
    /// A lock that was just made: free, with an empty queue.
    pub open spec fn fresh() -> LockModel {
        LockModel { held: false, handoff: false, waiting: Set::empty(), next: 0 }
    }

    /// Nobody waits in the fair queue.
    pub open spec fn idle(self) -> bool {
        forall|t: nat| !self.waiting.contains(t)
    }

    /// `t` waits in the queue and no ticket before it does.
    pub open spec fn is_first(self, t: nat) -> bool {
        self.waiting.contains(t) && forall|u: nat| self.waiting.contains(u) ==> t <= u
    }

    /// The queue can take one more ticket.
    pub open spec fn room(self) -> bool {
        self.next < TICKET_LIMIT && forall|u: nat| self.waiting.contains(u) ==> self.next - u < WINDOW
    }

    /// The lock is to be had by someone: it is free, or on its way to a ticket.
    pub open spec fn open(self) -> bool {
        !self.held || self.handoff
    }

    /// The number of live guards: one while the lock is held and not in transit.
    pub open spec fn guards(self) -> int {
        if self.held && !self.handoff { 1 } else { 0 }
    }

    /// What holds of every state that a lock can reach.
    pub open spec fn inv(self) -> bool {
        &&& self.handoff ==> self.held && !self.idle()
        &&& !self.idle() ==> self.held
        &&& self.idle() ==> self.next == 0
        &&& self.next <= TICKET_LIMIT
        &&& forall|u: nat| self.waiting.contains(u) ==> u < self.next && self.next - u <= WINDOW
    }

    /// Whether `op` takes effect in this state.
    pub open spec fn enabled(self, op: Op) -> bool {
        match op {
            Op::Acquire => !self.held,
            Op::Enqueue => self.held && self.room(),
            Op::Claim(t) => self.handoff && self.is_first(t as nat),
            Op::Cancel(t) => self.waiting.contains(t as nat),
            Op::Release => self.held && !self.handoff,
        }
    }

    /// The queue after ticket `t` left it, with the numbering started over if it drained.
    pub open spec fn without(self, t: nat) -> LockModel {
        let rest = self.waiting.remove(t);
        LockModel {
            waiting: rest,
            next: if (forall|u: nat| !rest.contains(u)) { 0 } else { self.next },
            ..self
        }
    }

    /// The state after `op` took effect. Meaningful where `op` is enabled.
    pub open spec fn step(self, op: Op) -> LockModel {
        match op {
            Op::Acquire => LockModel { held: true, ..self },
            Op::Enqueue => LockModel {
                waiting: self.waiting.insert(self.next),
                next: self.next + 1,
                ..self
            },
            Op::Claim(t) => LockModel { handoff: false, ..self.without(t as nat) },
            Op::Cancel(t) => {
                let rest = self.without(t as nat);
                if self.handoff && rest.idle() {
                    LockModel { held: false, handoff: false, ..rest }
                } else {
                    rest
                }
            },
            Op::Release => if self.idle() {
                LockModel { held: false, ..self }
            } else {
                LockModel { handoff: true, ..self }
            },
        }
    }

    /// The state after `op` was tried: changed where it is enabled, the same where not.
    pub open spec fn attempt(self, op: Op) -> LockModel {
        if self.enabled(op) { self.step(op) } else { self }
    }

    /// The state after each of `ops` was tried in turn.
    pub open spec fn run(self, ops: Seq<Op>) -> LockModel
        decreases ops.len(),
    {
        if ops.len() == 0 {
            self
        } else {
            self.run(ops.drop_last()).attempt(ops.last())
        }
    }

    /// The critical sections entered and not yet left while each of `ops` was tried
    /// in turn: the count goes up with every acquisition that takes effect and down
    /// with every release that does.
    pub open spec fn inside(self, ops: Seq<Op>) -> int
        decreases ops.len(),
    {
        if ops.len() == 0 {
            0
        } else {
            let before = self.run(ops.drop_last());
            self.inside(ops.drop_last()) + if before.enabled(ops.last()) {
                entries(ops.last())
            } else {
                0
            }
        }
    }

    /// The tickets that wait in front of `t`.
    pub open spec fn ahead(self, t: nat) -> Set<nat> {
        Set::new(|u: nat| self.waiting.contains(u) && u < t)
    }

    /// Whom to wake after `op` was tried in this state. A release wakes one waiter:
    /// it frees the lock or hands it over. A ticket that is withdrawn while the lock
    /// is to be had wakes one waiter: the lock may have been on its way to that
    /// ticket, or the wake that its holder used up was meant for another.
    pub open spec fn wake(self, op: Op) -> Wake {
        match op {
            Op::Release => Wake::One,
            Op::Cancel(_) => if self.open() { Wake::One } else { Wake::Nobody },
            _ => Wake::Nobody,
        }
    }
}

/// By how much `op` changes the number of critical sections that are entered.
pub open spec fn entries(op: Op) -> int {
    match op {
        Op::Acquire => 1,
        Op::Claim(_) => 1,
        Op::Release => -1,
        _ => 0,
    }
}

/// Whether `op` is how the holder of ticket `t` leaves the queue.
pub open spec fn leaves(op: Op, t: nat) -> bool {
    match op {
        Op::Claim(u) => u == t,
        Op::Cancel(u) => u == t,
        _ => false,
    }
}

/// Whether `op` is the collection of the lock by one of the tickets in `front`.
pub open spec fn collects_from(op: Op, front: Set<nat>) -> bool {
    match op {
        Op::Claim(u) => front.contains(u as nat),
        _ => false,
    }
}

/// Every operation keeps a reachable state reachable.
pub proof fn lemma_step_keeps_inv(m: LockModel, op: Op)
    requires
        m.inv(),
        m.enabled(op),
    ensures
        m.step(op).inv(),
{
    let n = m.step(op);
    match op {
        Op::Enqueue => {
            assert(n.waiting.contains(m.next));
        },
        Op::Claim(t) => {
            assert(n.waiting == m.without(t as nat).waiting);
        },
        Op::Release => {
            assert(n.waiting == m.waiting);
        },
        _ => {},
    }
}

/// An operation that takes effect changes the number of live guards by what it
/// enters or leaves.
pub proof fn law_guards_follow_entries(m: LockModel, op: Op)
    requires
        m.inv(),
        m.enabled(op),
    ensures
        m.step(op).guards() == m.guards() + entries(op),
{
}

/// Mutual exclusion. However operations on a fresh lock interleave, the number of
/// critical sections entered and not yet left is the number of live guards, and that
/// is never more than one.
pub proof fn law_mutual_exclusion(ops: Seq<Op>)
    ensures
        LockModel::fresh().run(ops).inv(),
        LockModel::fresh().inside(ops) == LockModel::fresh().run(ops).guards(),
        0 <= LockModel::fresh().inside(ops) <= 1,
    decreases ops.len(),
{
    if ops.len() > 0 {
        law_mutual_exclusion(ops.drop_last());
        let before = LockModel::fresh().run(ops.drop_last());
        if before.enabled(ops.last()) {
            lemma_step_keeps_inv(before, ops.last());
        }
    }
}

/// An attempt in open contention is refused exactly while a guard is live or the lock
/// is on its way to a waiter of the fair queue.
pub proof fn law_refused_while_held(m: LockModel)
    requires
        m.inv(),
    ensures
        !m.enabled(Op::Acquire) <==> m.guards() == 1 || m.handoff,
        m.enabled(Op::Acquire) ==> m.idle(),
{
}

/// An attempt for the lock takes effect only where the lock is to be had.
pub proof fn law_granted_where_open(m: LockModel, op: Op)
    requires
        m.enabled(op),
        entries(op) == 1,
    ensures
        m.open(),
{
}

/// Nobody overtakes a waiter of the fair queue. While ticket `t` waits, the only
/// operation that can grant the lock is the collection of it by the first ticket of
/// the queue, which is `t` or a ticket in front of it; a request that joins the queue
/// is put behind `t`; and `t` keeps its place until it is served or withdraws, with
/// no ticket in front of it that was not there before.
pub proof fn law_no_overtaking(m: LockModel, t: nat, op: Op)
    requires
        m.inv(),
        m.waiting.contains(t),
        m.enabled(op),
    ensures
        op != Op::Acquire,
        op matches Op::Claim(u) ==> u <= t && m.is_first(u as nat),
        op == Op::Enqueue ==> t < m.next && m.step(op).waiting.contains(m.next),
        !leaves(op, t) ==> m.step(op).waiting.contains(t),
        m.step(op).ahead(t).subset_of(m.ahead(t)),
        forall|u: nat| m.ahead(t).contains(u) ==> t - u < WINDOW,
        op matches Op::Claim(u) ==> !m.step(op).ahead(t).contains(u as nat),
{
}

/// A release hands the lock to the head of the queue. Where tickets wait, the lock
/// stays held through the release, the first ticket can collect it, and nothing else
/// can get it.
pub proof fn law_release_serves_the_first(m: LockModel, t: u32, other: Op)
    requires
        m.inv(),
        m.enabled(Op::Release),
        m.is_first(t as nat),
    ensures
        m.step(Op::Release).held,
        m.step(Op::Release).enabled(Op::Claim(t)),
        m.step(Op::Release).enabled(other) && entries(other) == 1 ==> other == Op::Claim(t),
{
}

/// A designated waiter that withdraws gives the lock up. Where the lock was on its
/// way to ticket `t` and `t` withdraws, the lock is free if nobody else waits, and on
/// its way to the ticket that is now first otherwise.
pub proof fn law_cancel_passes_the_lock_on(m: LockModel, t: u32, next: u32)
    requires
        m.inv(),
        m.handoff,
        m.is_first(t as nat),
    ensures
        m.step(Op::Cancel(t)).inv(),
        m.step(Op::Cancel(t)).idle() ==> m.step(Op::Cancel(t)).enabled(Op::Acquire),
        m.step(Op::Cancel(t)).is_first(next as nat) ==> m.step(Op::Cancel(t)).enabled(Op::Claim(next)),
{
    lemma_step_keeps_inv(m, Op::Cancel(t));
}

/// Nobody overtakes a waiter of the fair queue, over any number of steps. While ticket
/// `t` waits and neither collects the lock nor withdraws, whatever else is tried in
/// whatever order, `t` keeps its place,
/// the lock is never free, and every critical section that is entered is entered by a
/// ticket that waited in front of `t` from the start and has left the queue since. As
/// fewer than `WINDOW` tickets can wait in front of `t`, that many grants at most
/// come before its own.
pub proof fn law_bounded_wait(m: LockModel, t: nat, ops: Seq<Op>)
    requires
        m.inv(),
        m.waiting.contains(t),
        forall|i: int| 0 <= i < ops.len() ==> !leaves(#[trigger] ops[i], t),
    ensures
        m.run(ops).inv(),
        m.run(ops).held,
        m.run(ops).waiting.contains(t),
        m.run(ops).ahead(t).subset_of(m.ahead(t)),
        forall|i: int|
            0 <= i < ops.len() && (#[trigger] m.run(ops.take(i))).enabled(ops[i]) && entries(ops[i]) == 1
                ==> collects_from(ops[i], m.ahead(t).difference(m.run(ops).ahead(t))),
    decreases ops.len(),
{
    if ops.len() > 0 {
        let head = ops.drop_last();
        let op = ops.last();
        law_bounded_wait(m, t, head);
        let before = m.run(head);
        if before.enabled(op) {
            lemma_step_keeps_inv(before, op);
        }
        assert forall|i: int|
            0 <= i < ops.len() && (#[trigger] m.run(ops.take(i))).enabled(ops[i]) && entries(ops[i]) == 1
            implies collects_from(ops[i], m.ahead(t).difference(m.run(ops).ahead(t))) by {
            if i < head.len() {
                assert(ops.take(i) =~= head.take(i));
            }
        }
    }
}

/// No chance is given in silence. Where an operation makes an attempt possible that
/// was not possible before it, it has a waiter woken.
pub proof fn law_chance_is_announced(m: LockModel, op: Op, waiter: Op)
    requires
        m.inv(),
        m.enabled(op),
        !m.enabled(waiter),
        m.step(op).enabled(waiter),
        waiter == Op::Acquire || waiter is Claim,
    ensures
        m.wake(op) == Wake::One,
{
    let n = m.step(op);
    if let Op::Claim(w) = waiter {
        if op == Op::Enqueue {
            assert forall|x: nat| m.waiting.contains(x) implies w <= x by {
                assert(n.waiting.contains(x));
            }
        }
    }
}

} // verus!
