//! Tasks that share a lock, step by step.
//!
//! Each task follows the course of a request as [`crate::course`] lays it down: a
//! step of a task is what `act_of` names for its phase, and leaves the task where
//! `landing` says. A task that holds the lock releases it, a task that gives up
//! withdraws, and both change the lock first and wake a waiter second. The steps of
//! different tasks interleave in any order. Of the event no more is taken for
//! granted than this: waking one listener notifies one that is registered, unless
//! one is notified already; a notification without a listener is lost; and a
//! listener that is dropped while notified may pass its notification on or take it
//! along.

use vstd::prelude::*;
use crate::course::act_of;
use crate::course::attempt_of;
use crate::course::landing;
use crate::course::Act;
use crate::course::Phase;
use crate::model::entries;
use crate::model::lemma_step_keeps_inv;
use crate::model::LockModel;
use crate::model::Op;
use crate::model::Wake;

verus! {

/// One task.
pub struct Task {
    pub phase: Phase,
    /// Its ticket in the fair queue, once it has joined it.
    pub ticket: Option<u32>,
    /// Whether it has a listener registered.
    pub listens: bool,
    /// Whether its listener was notified.
    pub notified: bool,
}

/// The lock and the tasks that share it.
pub struct System {
    pub lock: LockModel,
    pub tasks: Seq<Task>,
}

impl Task {
    /// The operation by which the task tries for the lock.
    pub open spec fn wants(self) -> Op {
        attempt_of(self.ticket)
    }

    /// The task sleeps and nothing has notified its listener.
    pub open spec fn sleeps_unnotified(self) -> bool {
        self.phase == Phase::Asleep && !self.notified
    }

    /// The task is in the critical section.
    pub open spec fn inside(self) -> bool {
        self.phase == Phase::Settling || self.phase == Phase::Holding
    }

    /// The task stands for a chance that is on its way to the waiters: it is about to
    /// wake one, or its listener is notified, or it is awake after it had to wait and
    /// has yet to try again, to wake another, or to withdraw.
    pub open spec fn heralds(self) -> bool {
        ||| self.phase == Phase::Waking(Wake::One)
        ||| self.listens && self.notified
        ||| self.phase == Phase::Woken
        ||| self.phase == Phase::Joining
        ||| self.phase == Phase::Registering
        ||| self.phase == Phase::Listening
        ||| self.phase == Phase::Passing
        ||| self.phase == Phase::Leaving
    }

    /// The task with its listener dropped.
    pub open spec fn unregistered(self) -> Task {
        Task { listens: false, notified: false, ..self }
    }

    /// The task with its listener notified.
    pub open spec fn roused(self) -> Task {
        Task { notified: true, ..self }
    }

    /// The listener fits the phase: a task has one from the time it registers until
    /// it has stopped sleeping or has settled in the critical section.
    pub open spec fn wf(self) -> bool {
        &&& !self.listens ==> !self.notified
        &&& self.listens <==> self.phase == Phase::Listening || self.phase == Phase::Passing || self.phase
            == Phase::Asleep || self.phase == Phase::Settling
    }
}

/// `post` is `pre` after one listener was woken: nothing changes where a listener is
/// notified already or none is registered, and one of the registered listeners is
/// notified otherwise.
pub open spec fn one_woken(pre: Seq<Task>, post: Seq<Task>) -> bool {
    if exists|j: int| 0 <= j < pre.len() && pre[j].listens && pre[j].notified {
        post == pre
    } else if exists|j: int| 0 <= j < pre.len() && pre[j].listens {
        exists|j: int| 0 <= j < pre.len() && pre[j].listens && post == pre.update(j, pre[j].roused())
    } else {
        post == pre
    }
}

/// `post` is `pre` after the waiters named by `whom` were woken.
pub open spec fn woken(pre: Seq<Task>, post: Seq<Task>, whom: Wake) -> bool {
    match whom {
        Wake::Nobody => post == pre,
        Wake::One => one_woken(pre, post),
    }
}

/// `post` is `pre` after task `i` dropped its listener: a notification that the
/// listener had received is lost with it, or goes to another listener.
pub open spec fn dropped(pre: Seq<Task>, post: Seq<Task>, i: int) -> bool {
    let left = pre.update(i, pre[i].unregistered());
    post == left || (pre[i].notified && one_woken(left, post))
}

impl System {
    /// A fresh lock and `n` tasks that do not ask for it.
    pub open spec fn start(n: nat) -> System {
        System {
            lock: LockModel::fresh(),
            tasks: Seq::new(n, |i: int| Task { phase: Phase::Away, ticket: None, listens: false, notified: false }),
        }
    }

    /// A task sleeps and nothing has notified its listener.
    pub open spec fn sleeper(self) -> bool {
        exists|i: int| 0 <= i < self.tasks.len() && (#[trigger] self.tasks[i]).sleeps_unnotified()
    }

    /// A chance is on its way to the waiters.
    pub open spec fn announced(self) -> bool {
        exists|j: int| 0 <= j < self.tasks.len() && (#[trigger] self.tasks[j]).heralds()
    }

    /// No wakeup is lost: where a task sleeps unnotified while the lock is to be had,
    /// a chance is on its way.
    pub open spec fn no_lost_wakeup(self) -> bool {
        self.lock.open() && self.sleeper() ==> self.announced()
    }

    /// At most one task is in the critical section, and the lock is held for it.
    pub open spec fn exclusive(self) -> bool {
        &&& forall|i: int, j: int|
            0 <= i < self.tasks.len() && 0 <= j < self.tasks.len() && (#[trigger] self.tasks[i]).inside() && (
            #[trigger] self.tasks[j]).inside() ==> i == j
        &&& forall|i: int|
            0 <= i < self.tasks.len() && (#[trigger] self.tasks[i]).inside() ==> self.lock.held
                && !self.lock.handoff
    }

    /// What holds of every state that the tasks can reach.
    pub open spec fn sound(self) -> bool {
        &&& self.lock.inv()
        &&& forall|i: int| 0 <= i < self.tasks.len() ==> (#[trigger] self.tasks[i]).wf()
        &&& self.exclusive()
        &&& self.no_lost_wakeup()
    }

    /// Task `i`, on the round of a request, does what `act_of` names for its phase
    /// and is left where `landing` says.
    pub open spec fn acted(self, post: System, i: int, starved: bool) -> bool {
        let me = self.tasks[i];
        let act = act_of(me.phase, me.ticket, starved);
        let took = match act {
            Act::Try(op) => self.lock.enabled(op),
            _ => false,
        };
        let there = landing(me.phase, me.ticket, starved, took, self.lock.next as u32, self.lock.open());
        let moved = Task { phase: there.0, ticket: there.1, ..me };
        match act {
            Act::Try(op) => post.lock == self.lock.attempt(op) && post.tasks == self.tasks.update(i, moved),
            Act::Listen => post.lock == self.lock && post.tasks == self.tasks.update(
                i,
                Task { listens: true, notified: false, ..moved },
            ),
            Act::Notify => post.lock == self.lock && one_woken(self.tasks.update(i, moved), post.tasks),
            Act::Unlisten => post.lock == self.lock && dropped(self.tasks.update(i, moved), post.tasks, i),
            _ => false,
        }
    }

    /// Task `i` takes one step from `self` to `post`.
    pub open spec fn next(self, post: System, i: int) -> bool {
        let me = self.tasks[i];
        &&& 0 <= i < self.tasks.len()
        &&& match me.phase {
            Phase::Asleep => {
                &&& post.lock == self.lock
                &&& {
                    ||| dropped(self.tasks.update(i, Task { phase: Phase::Woken, ..me }), post.tasks, i)
                    ||| dropped(self.tasks.update(i, Task { phase: Phase::Leaving, ..me }), post.tasks, i)
                }
            },
            Phase::Holding => {
                &&& post.lock == self.lock.attempt(Op::Release)
                &&& post.tasks == self.tasks.update(
                    i,
                    Task { phase: Phase::Waking(self.lock.wake(Op::Release)), ..me },
                )
            },
            Phase::Leaving => match me.ticket {
                Some(t) => {
                    &&& post.lock == self.lock.attempt(Op::Cancel(t))
                    &&& post.tasks == self.tasks.update(
                        i,
                        Task { phase: Phase::Waking(self.lock.wake(Op::Cancel(t))), ticket: None, ..me },
                    )
                },
                None => {
                    &&& post.lock == self.lock
                    &&& post.tasks == self.tasks.update(i, Task { phase: Phase::Waking(Wake::One), ..me })
                },
            },
            Phase::Waking(whom) => {
                &&& post.lock == self.lock
                &&& woken(self.tasks.update(i, Task { phase: Phase::Away, ..me }), post.tasks, whom)
            },
            Phase::Woken => {
                ||| self.acted(post, i, true)
                ||| self.acted(post, i, false)
                ||| {
                    &&& post.lock == self.lock
                    &&& post.tasks == self.tasks.update(i, Task { phase: Phase::Leaving, ..me })
                }
            },
            _ => self.acted(post, i, true) || self.acted(post, i, false),
        }
    }
}

/// Waking one listener changes nothing but the notified mark of at most one
/// listener, and leaves a notified listener wherever there is a listener.
proof fn lemma_one_woken(pre: Seq<Task>, post: Seq<Task>)
    requires
        one_woken(pre, post),
    ensures
        post.len() == pre.len(),
        forall|j: int|
            0 <= j < pre.len() ==> #[trigger] post[j] == pre[j] || (pre[j].listens && post[j] == pre[j].roused()),
        (exists|j: int| 0 <= j < pre.len() && pre[j].listens) ==> exists|j: int|
            0 <= j < post.len() && post[j].listens && post[j].notified,
{
    if exists|j: int| 0 <= j < pre.len() && pre[j].listens && pre[j].notified {
    } else if exists|j: int| 0 <= j < pre.len() && pre[j].listens {
        let j = choose|j: int| 0 <= j < pre.len() && pre[j].listens && post == pre.update(j, pre[j].roused());
        assert(post[j].listens && post[j].notified);
    } else {
    }
}

/// A step that leaves the lock alone and changes one task keeps the state sound,
/// provided the task goes to sleep only where the lock is not to be had, and stays
/// a herald where it was one and the lock is to be had.
proof fn lemma_quiet_step(s: System, post: System, i: int, after: Task)
    requires
        s.sound(),
        0 <= i < s.tasks.len(),
        post.lock == s.lock,
        post.tasks == s.tasks.update(i, after),
        after.wf(),
        after.inside() ==> s.tasks[i].inside(),
        after.sleeps_unnotified() ==> !s.lock.open(),
        s.tasks[i].heralds() ==> after.heralds() || !s.lock.open(),
    ensures
        post.sound(),
{
    if post.lock.open() && post.sleeper() {
        let x = choose|x: int| 0 <= x < post.tasks.len() && (#[trigger] post.tasks[x]).sleeps_unnotified();
        assert(s.tasks[x].sleeps_unnotified());
        let j = choose|j: int| 0 <= j < s.tasks.len() && (#[trigger] s.tasks[j]).heralds();
        assert(post.tasks[j].heralds());
    }
}

/// A step that tries `op` on the lock and changes one task keeps the state sound,
/// provided the task is in the critical section exactly where the operation enters
/// it, and is a herald wherever the step leaves the lock to be had.
proof fn lemma_lock_step(s: System, post: System, i: int, op: Op, after: Task)
    requires
        s.sound(),
        0 <= i < s.tasks.len(),
        post.lock == s.lock.attempt(op),
        post.tasks == s.tasks.update(i, after),
        after.wf(),
        after.inside() <==> s.lock.enabled(op) && entries(op) == 1,
        s.tasks[i].inside() <==> op == Op::Release,
        post.lock.open() ==> after.heralds(),
    ensures
        post.sound(),
{
    if s.lock.enabled(op) {
        lemma_step_keeps_inv(s.lock, op);
    }
    if post.lock.open() && post.sleeper() {
        assert(post.tasks[i].heralds());
    }
}

/// A step in which one task moves on and a listener may be woken keeps the state
/// sound, provided a listener is woken wherever the task ends up asleep or stops
/// being a herald while the lock is to be had.
proof fn lemma_waking_step(s: System, post: System, i: int, after: Task)
    requires
        s.sound(),
        0 <= i < s.tasks.len(),
        post.lock == s.lock,
        after.wf(),
        after.inside() ==> s.tasks[i].inside(),
        post.tasks == s.tasks.update(i, after) || one_woken(s.tasks.update(i, after), post.tasks),
        s.lock.open() && !after.heralds() && (after.sleeps_unnotified() || s.tasks[i].heralds()) ==> one_woken(
            s.tasks.update(i, after),
            post.tasks,
        ),
    ensures
        post.sound(),
{
    let base = s.tasks.update(i, after);
    if post.tasks != base {
        lemma_one_woken(base, post.tasks);
    }
    if post.lock.open() && post.sleeper() {
        let x = choose|x: int| 0 <= x < post.tasks.len() && (#[trigger] post.tasks[x]).sleeps_unnotified();
        assert(base[x].listens);
        if after.heralds() {
            assert(post.tasks[i].heralds());
        } else if one_woken(base, post.tasks) {
            lemma_one_woken(base, post.tasks);
            let k = choose|k: int| 0 <= k < post.tasks.len() && post.tasks[k].listens && post.tasks[k].notified;
            assert(post.tasks[k].heralds());
        } else {
            assert(s.tasks[x].sleeps_unnotified());
            let j = choose|j: int| 0 <= j < s.tasks.len() && (#[trigger] s.tasks[j]).heralds();
            assert(post.tasks[j].heralds());
        }
    }
}

/// The step in which task `i` drops its listener and moves on to `phase`.
proof fn lemma_drop_step(s: System, post: System, i: int, phase: Phase)
    requires
        s.sound(),
        0 <= i < s.tasks.len(),
        s.tasks[i].phase == Phase::Asleep || s.tasks[i].phase == Phase::Settling,
        s.tasks[i].phase == Phase::Asleep ==> phase == Phase::Woken || phase == Phase::Leaving,
        s.tasks[i].phase == Phase::Settling ==> phase == Phase::Holding,
        post.lock == s.lock,
        dropped(s.tasks.update(i, Task { phase: phase, ..s.tasks[i] }), post.tasks, i),
    ensures
        post.sound(),
{
    let me = s.tasks[i];
    let after = Task { phase: phase, ..me }.unregistered();
    let moved = s.tasks.update(i, Task { phase: phase, ..me });
    assert(moved.update(i, moved[i].unregistered()) =~= s.tasks.update(i, after));
    assert(me.wf());
    if me.inside() {
        assert(!s.lock.open());
    }
    lemma_waking_step(s, post, i, after);
}

/// A step on the round of a request keeps the state sound.
proof fn lemma_acted(s: System, post: System, i: int, starved: bool)
    requires
        s.sound(),
        0 <= i < s.tasks.len(),
        s.acted(post, i, starved),
    ensures
        post.sound(),
{
    let me = s.tasks[i];
    assert(me.wf());
    let act = act_of(me.phase, me.ticket, starved);
    let took = match act {
        Act::Try(op) => s.lock.enabled(op),
        _ => false,
    };
    let there = landing(me.phase, me.ticket, starved, took, s.lock.next as u32, s.lock.open());
    let moved = Task { phase: there.0, ticket: there.1, ..me };
    match act {
        Act::Try(op) => {
            if took {
                lemma_step_keeps_inv(s.lock, op);
            }
            lemma_lock_step(s, post, i, op, moved);
        },
        Act::Listen => {
            lemma_quiet_step(s, post, i, Task { listens: true, notified: false, ..moved });
        },
        Act::Notify => {
            lemma_waking_step(s, post, i, moved);
        },
        Act::Unlisten => {
            lemma_drop_step(s, post, i, Phase::Holding);
        },
        _ => {},
    }
}

/// Before any task has moved, the state is sound.
pub proof fn law_start_is_sound(n: nat)
    ensures
        System::start(n).sound(),
{
}

/// Every step of every task keeps the state sound.
pub proof fn law_step_keeps_sound(s: System, post: System, i: int)
    requires
        s.sound(),
        s.next(post, i),
    ensures
        post.sound(),
{
    let me = s.tasks[i];
    assert(me.wf());
    match me.phase {
        Phase::Asleep => {
            if dropped(s.tasks.update(i, Task { phase: Phase::Woken, ..me }), post.tasks, i) {
                lemma_drop_step(s, post, i, Phase::Woken);
            } else {
                lemma_drop_step(s, post, i, Phase::Leaving);
            }
        },
        Phase::Holding => {
            assert(me.inside());
            lemma_lock_step(s, post, i, Op::Release, Task { phase: Phase::Waking(s.lock.wake(Op::Release)), ..me });
        },
        Phase::Leaving => {
            match me.ticket {
                Some(t) => {
                    if s.lock.enabled(Op::Cancel(t)) {
                        lemma_step_keeps_inv(s.lock, Op::Cancel(t));
                    }
                    lemma_lock_step(
                        s,
                        post,
                        i,
                        Op::Cancel(t),
                        Task { phase: Phase::Waking(s.lock.wake(Op::Cancel(t))), ticket: None, ..me },
                    );
                },
                None => {
                    lemma_quiet_step(s, post, i, Task { phase: Phase::Waking(Wake::One), ..me });
                },
            }
        },
        Phase::Waking(whom) => {
            lemma_waking_step(s, post, i, Task { phase: Phase::Away, ..me });
        },
        Phase::Woken => {
            if s.acted(post, i, true) {
                lemma_acted(s, post, i, true);
            } else if s.acted(post, i, false) {
                lemma_acted(s, post, i, false);
            } else {
                lemma_quiet_step(s, post, i, Task { phase: Phase::Leaving, ..me });
            }
        },
        _ => {
            if s.acted(post, i, true) {
                lemma_acted(s, post, i, true);
            } else {
                lemma_acted(s, post, i, false);
            }
        },
    }
}

/// `states` is a course of the system: it starts with a fresh lock and `n` idle
/// tasks, and each state comes from the one before it by one step of some task.
pub open spec fn course(n: nat, states: Seq<System>) -> bool {
    &&& states.len() > 0
    &&& states[0] == System::start(n)
    &&& forall|k: int| 0 <= k < states.len() - 1 ==> moves(#[trigger] states[k], states[k + 1])
}

/// Some task takes one step from `pre` to `post`.
pub open spec fn moves(pre: System, post: System) -> bool {
    exists|i: int| #[trigger] pre.next(post, i)
}

/// No wakeup is lost and no two tasks are in the critical section together, in any
/// state of any course of the system.
pub proof fn law_no_lost_wakeup(n: nat, states: Seq<System>, k: int)
    requires
        course(n, states),
        0 <= k < states.len(),
    ensures
        states[k].sound(),
        states[k].no_lost_wakeup(),
        states[k].exclusive(),
    decreases k,
{
    if k > 0 {
        law_no_lost_wakeup(n, states, k - 1);
        assert(moves(states[k - 1], states[k - 1 + 1]));
        let i = choose|i: int| #[trigger] states[k - 1].next(states[k], i);
        law_step_keeps_sound(states[k - 1], states[k], i);
    }
}

/// A task whose attempt would take effect waits for a lock that is to be had: so
/// it does not sleep unnotified unless a chance is on its way.
pub proof fn law_sleeper_is_served(s: System, i: int)
    requires
        s.sound(),
        0 <= i < s.tasks.len(),
        s.tasks[i].sleeps_unnotified(),
        s.lock.enabled(s.tasks[i].wants()),
    ensures
        s.announced(),
{
}

} // verus!
