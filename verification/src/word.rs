//! The state of a lock packed into one 64-bit word, and the operations on it.
//!
//! From the lowest bit up, a word holds: whether the lock is held (1 bit), whether it
//! is being handed over (1 bit), the slots of the fair queue (32 bits, the lowest for
//! the ticket `head`), the number of slots in use (6 bits), and `head`, the lowest
//! ticket that the slots speak of (24 bits). A slot is set while its ticket waits and
//! cleared when the ticket is served or withdrawn.

use vstd::prelude::*;
use crate::model::LockModel;
use crate::model::Op;
use crate::model::Wake;
use crate::model::WINDOW;
use crate::model::TICKET_LIMIT;

verus! {

/// The word of a lock that was just made.
pub const FRESH: u64 = 0;

/// The parts of a lock word.
#[derive(Clone, Copy)]
pub struct Fields {
    pub held: bool,
    pub handoff: bool,
    pub live: u32,
    pub len: u32,
    pub head: u32,
}

/// Whether slot `i` of `live` is set.
pub open spec fn slot(live: u32, i: u32) -> bool {
    (live >> i) & 1 == 1
}

impl Fields {
    /// Ticket `t` waits in the queue.
    pub open spec fn queued(self, t: nat) -> bool {
        self.head <= t < self.head + self.len && slot(self.live, (t - self.head) as u32)
    }

    /// The parts fit together: the slots in use stay inside the window, the first of
    /// them is set, the slots that are not in use are cleared, an empty queue starts at
    /// ticket 0, and the queue is only in use while the lock is held.
    pub open spec fn wf(self) -> bool {
        &&& self.len <= WINDOW
        &&& self.head + self.len <= TICKET_LIMIT
        &&& self.len > 0 ==> slot(self.live, 0) && self.held
        &&& self.len < WINDOW ==> self.live >> self.len == 0
        &&& self.len == 0 ==> self.head == 0
        &&& self.handoff ==> self.held && self.len > 0
    }

    /// The lock state that the parts stand for.
    pub open spec fn model(self) -> LockModel {
        LockModel {
            held: self.held,
            handoff: self.handoff,
            waiting: Set::new(|t: nat| self.queued(t)),
            next: (self.head + self.len) as nat,
        }
    }
}

/// The parts of the word `w`.
pub open spec fn decode_spec(w: u64) -> Fields {
    Fields {
        held: w % 2 == 1,
        handoff: (w / 2) % 2 == 1,
        live: ((w / 4) % 0x1_0000_0000) as u32,
        len: ((w / 0x4_0000_0000) % 64) as u32,
        head: (w / 0x100_0000_0000) as u32,
    }
}

/// `w` is the word of a lock in some reachable state.
pub open spec fn valid(w: u64) -> bool {
    decode_spec(w).wf()
}

/// The lock state that the word `w` stands for.
pub open spec fn view(w: u64) -> LockModel {
    decode_spec(w).model()
}

/// `op` takes effect on a lock whose word is `w`.
pub open spec fn applicable(op: Op, w: u64) -> bool {
    valid(w) && view(w).enabled(op)
}

proof fn lemma_slot_shift(live: u32, j: u32)
    by (bit_vector)
    requires
        j < 31,
    ensures
        slot(live >> 1, j) == slot(live, (j + 1) as u32),
{
}

proof fn lemma_slot_low(live: u32)
    by (bit_vector)
    ensures
        slot(live, 0) == (live & 1 == 1),
        live & 1 == 0 || live & 1 == 1,
{
}

proof fn lemma_slot_set(live: u32, i: u32, j: u32)
    by (bit_vector)
    requires
        i < 32,
        j < 32,
    ensures
        slot(live | (1u32 << i), j) == (j == i || slot(live, j)),
{
}

proof fn lemma_slot_clear(live: u32, i: u32, j: u32)
    by (bit_vector)
    requires
        i < 32,
        j < 32,
    ensures
        slot(live & !(1u32 << i), j) == (j != i && slot(live, j)),
{
}

proof fn lemma_unused_shift(live: u32, len: u32)
    by (bit_vector)
    requires
        0 < len <= 32,
        len < 32 ==> live >> len == 0,
    ensures
        (live >> 1) >> ((len - 1) as u32) == 0,
{
}

proof fn lemma_unused_set(live: u32, len: u32)
    by (bit_vector)
    requires
        len < 32,
        live >> len == 0,
    ensures
        len + 1 < 32 ==> (live | (1u32 << len)) >> ((len + 1) as u32) == 0,
{
}

proof fn lemma_unused_clear(live: u32, len: u32, i: u32)
    by (bit_vector)
    requires
        len < 32,
        i < 32,
        live >> len == 0,
    ensures
        (live & !(1u32 << i)) >> len == 0,
{
}

proof fn lemma_unused_slot(live: u32, len: u32, i: u32)
    by (bit_vector)
    requires
        len <= i < 32,
        live >> len == 0,
    ensures
        !slot(live, i),
{
}

proof fn lemma_same_slots(a: u32, b: u32)
    by (bit_vector)
    requires
        slot(a, 0) == slot(b, 0),
        slot(a, 1) == slot(b, 1),
        slot(a, 2) == slot(b, 2),
        slot(a, 3) == slot(b, 3),
        slot(a, 4) == slot(b, 4),
        slot(a, 5) == slot(b, 5),
        slot(a, 6) == slot(b, 6),
        slot(a, 7) == slot(b, 7),
        slot(a, 8) == slot(b, 8),
        slot(a, 9) == slot(b, 9),
        slot(a, 10) == slot(b, 10),
        slot(a, 11) == slot(b, 11),
        slot(a, 12) == slot(b, 12),
        slot(a, 13) == slot(b, 13),
        slot(a, 14) == slot(b, 14),
        slot(a, 15) == slot(b, 15),
        slot(a, 16) == slot(b, 16),
        slot(a, 17) == slot(b, 17),
        slot(a, 18) == slot(b, 18),
        slot(a, 19) == slot(b, 19),
        slot(a, 20) == slot(b, 20),
        slot(a, 21) == slot(b, 21),
        slot(a, 22) == slot(b, 22),
        slot(a, 23) == slot(b, 23),
        slot(a, 24) == slot(b, 24),
        slot(a, 25) == slot(b, 25),
        slot(a, 26) == slot(b, 26),
        slot(a, 27) == slot(b, 27),
        slot(a, 28) == slot(b, 28),
        slot(a, 29) == slot(b, 29),
        slot(a, 30) == slot(b, 30),
        slot(a, 31) == slot(b, 31),
    ensures
        a == b,
{
}

/// What the parts of a well-formed word say of the lock state.
pub proof fn lemma_fields_model(f: Fields)
    requires
        f.wf(),
    ensures
        f.model().inv(),
        f.model().idle() <==> f.len == 0,
        f.len > 0 ==> f.model().is_first(f.head as nat),
        forall|t: nat| f.model().is_first(t) ==> t == f.head,
        f.model().room() <==> f.len < WINDOW && f.head + f.len < TICKET_LIMIT,
{
    if f.len > 0 {
        assert(f.model().waiting.contains(f.head as nat));
    }
}

proof fn lemma_packed(a: u64, b: u64, live: u64, len: u64, head: u64, w: u64)
    by (bit_vector)
    requires
        a <= 1,
        b == 0 || b == 2,
        live <= 0xffff_ffff,
        len < 64,
        head < 0x100_0000,
        w == a + b + 4 * live + 0x4_0000_0000 * len + 0x100_0000_0000 * head,
    ensures
        w % 2 == a,
        (w / 2) % 2 == b / 2,
        (w / 4) % 0x1_0000_0000 == live,
        (w / 0x4_0000_0000) % 64 == len,
        w / 0x100_0000_0000 == head,
{
}

/// Splits a word into its parts.
pub fn decode(w: u64) -> (f: Fields)
    ensures
        f == decode_spec(w),
{
    Fields {
        held: w % 2 == 1,
        handoff: (w / 2) % 2 == 1,
        live: ((w / 4) % 0x1_0000_0000) as u32,
        len: ((w / 0x4_0000_0000) % 64) as u32,
        head: (w / 0x100_0000_0000) as u32,
    }
}

/// Packs the parts into a word.
pub fn encode(f: Fields) -> (w: u64)
    requires
        f.len < 64,
        f.head < 0x100_0000,
    ensures
        decode_spec(w) == f,
{
    let a: u64 = if f.held { 1 } else { 0 };
    let b: u64 = if f.handoff { 2 } else { 0 };
    let live: u64 = f.live as u64;
    let len: u64 = f.len as u64;
    let head: u64 = f.head as u64;
    let w: u64 = a + b + 4 * live + 0x4_0000_0000 * len + 0x100_0000_0000 * head;
    proof {
        lemma_packed(a, b, live, len, head, w);
    }
    w
}

/// Whether the parts fit together.
fn well_formed(f: Fields) -> (b: bool)
    ensures
        b == f.wf(),
{
    proof {
        lemma_slot_low(f.live);
    }
    f.len <= WINDOW && f.head <= TICKET_LIMIT - f.len
        && (f.len == 0 || (f.live & 1 == 1 && f.held))
        && (f.len >= WINDOW || f.live >> f.len == 0)
        && (f.len > 0 || f.head == 0)
        && (!f.handoff || (f.held && f.len > 0))
}

/// Drops the cleared slots at the front of the queue, and starts the numbering over
/// where no slot is left.
fn settle(f: Fields) -> (g: Fields)
    requires
        f.len <= WINDOW,
        f.head + f.len <= TICKET_LIMIT,
        f.len < WINDOW ==> f.live >> f.len == 0,
    ensures
        g.held == f.held,
        g.handoff == f.handoff,
        forall|t: nat| g.queued(t) == f.queued(t),
        g.len <= WINDOW,
        g.len > 0 ==> slot(g.live, 0) && g.head + g.len == f.head + f.len,
        g.len < WINDOW ==> g.live >> g.len == 0,
        g.len == 0 ==> g.head == 0,
{
    let mut g = f;
    while g.len > 0 && g.live & 1 == 0
        invariant
            g.held == f.held,
            g.handoff == f.handoff,
            g.len <= WINDOW,
            g.head + g.len == f.head + f.len,
            f.head + f.len <= TICKET_LIMIT,
            g.len < WINDOW ==> g.live >> g.len == 0,
            forall|t: nat| g.queued(t) == f.queued(t),
        decreases g.len,
    {
        let ghost before = g;
        g = Fields { live: g.live >> 1, head: g.head + 1, len: g.len - 1, ..g };
        proof {
            lemma_slot_low(before.live);
            lemma_unused_shift(before.live, before.len);
            assert forall|t: nat| g.queued(t) == before.queued(t) by {
                if before.head < t < before.head + before.len {
                    lemma_slot_shift(before.live, (t - g.head) as u32);
                }
            }
        }
    }
    proof {
        lemma_slot_low(g.live);
    }
    if g.len == 0 {
        g = Fields { head: 0, ..g };
    }
    g
}

/// Tries `op` on the word `w`: the word after it where it takes effect, nothing where
/// it does not (or where `w` is no word of a lock).
pub fn apply(op: Op, w: u64) -> (r: Option<u64>)
    ensures
        match r {
            Some(after) => applicable(op, w) && valid(after) && view(after) == view(w).step(op),
            None => !applicable(op, w),
        },
{
    let f = decode(w);
    if !well_formed(f) {
        return None;
    }
    proof {
        lemma_fields_model(f);
    }
    match op {
        Op::Acquire => {
            if f.held {
                return None;
            }
            let g = Fields { held: true, ..f };
            let after = encode(g);
            Some(after)
        },
        Op::Enqueue => {
            if !f.held || f.len >= WINDOW || f.head + f.len >= TICKET_LIMIT {
                return None;
            }
            let g = Fields { live: f.live | (1u32 << f.len), len: f.len + 1, ..f };
            let after = encode(g);
            proof {
                assert forall|t: nat| g.queued(t) == (f.queued(t) || t == f.head + f.len) by {
                    if f.head <= t < f.head + f.len + 1 {
                        lemma_slot_set(f.live, f.len, (t - f.head) as u32);
                    }
                }
                lemma_slot_set(f.live, f.len, 0);
                lemma_unused_set(f.live, f.len);
            }
            Some(after)
        },
        Op::Claim(t) => {
            if !f.handoff || t != f.head {
                return None;
            }
            let cleared = Fields { handoff: false, live: f.live & !1u32, ..f };
            proof {
                assert(1u32 << 0u32 == 1u32) by (bit_vector);
                if f.len < WINDOW {
                    lemma_unused_clear(f.live, f.len, 0);
                }
            }
            let g = settle(cleared);
            let after = encode(g);
            proof {
                lemma_left(f, cleared, g, t);
            }
            Some(after)
        },
        Op::Cancel(t) => {
            if t < f.head || t - f.head >= f.len || (f.live >> (t - f.head)) & 1 != 1 {
                return None;
            }
            let cleared = Fields { live: f.live & !(1u32 << (t - f.head)), ..f };
            proof {
                if f.len < WINDOW {
                    lemma_unused_clear(f.live, f.len, (t - f.head) as u32);
                }
            }
            let rest = settle(cleared);
            let g = if f.handoff && rest.len == 0 {
                Fields { held: false, handoff: false, ..rest }
            } else {
                rest
            };
            let after = encode(g);
            proof {
                lemma_left(f, cleared, rest, t);
            }
            Some(after)
        },
        Op::Release => {
            if !f.held || f.handoff {
                return None;
            }
            let g = if f.len == 0 {
                Fields { held: false, ..f }
            } else {
                Fields { handoff: true, ..f }
            };
            let after = encode(g);
            Some(after)
        },
    }
}

/// Whom to wake after `op` was tried on a lock whose word was `prev`.
pub fn wake_after(op: Op, prev: u64) -> (r: Wake)
    ensures
        r == view(prev).wake(op),
{
    match op {
        Op::Release => Wake::One,
        Op::Cancel(_) => {
            let f = decode(prev);
            if !f.held || f.handoff { Wake::One } else { Wake::Nobody }
        },
        _ => Wake::Nobody,
    }
}

/// The ticket that an `Enqueue` on the word `w` hands out.
pub fn next_ticket(w: u64) -> (t: u32)
    ensures
        t == view(w).next,
{
    let f = decode(w);
    f.head + f.len
}

/// The word of a lock that was just made stands for a fresh lock.
pub proof fn lemma_fresh_word()
    ensures
        valid(FRESH),
        view(FRESH) == LockModel::fresh(),
{
    assert(0u32 >> 0u32 == 0u32) by (bit_vector);
}

/// A lock state has one word: two words of locks that stand for the same state are
/// the same word. So the state that [`apply`] promises says which word it returns.
pub proof fn lemma_one_word(a: u64, b: u64)
    requires
        valid(a),
        valid(b),
        view(a) == view(b),
    ensures
        a == b,
{
    lemma_same_fields(decode_spec(a), decode_spec(b));
    lemma_same_parts(a, b);
}

/// Words with the same parts are the same word.
proof fn lemma_same_parts(a: u64, b: u64)
    requires
        decode_spec(a) == decode_spec(b),
    ensures
        a == b,
{
    lemma_unpacked(a);
    lemma_unpacked(b);
}

proof fn lemma_unpacked(w: u64)
    by (bit_vector)
    ensures
        w == w % 2 + 2 * ((w / 2) % 2) + 4 * ((w / 4) % 0x1_0000_0000) + 0x4_0000_0000 * ((w
            / 0x4_0000_0000) % 64) + 0x100_0000_0000 * (w / 0x100_0000_0000),
        (w / 4) % 0x1_0000_0000 <= 0xffff_ffff,
        (w / 0x4_0000_0000) % 64 < 64,
        w / 0x100_0000_0000 < 0x100_0000,
{
}

/// Well-formed parts that stand for the same lock state are the same parts.
proof fn lemma_same_fields(fa: Fields, fb: Fields)
    requires
        fa.wf(),
        fb.wf(),
        fa.model() == fb.model(),
    ensures
        fa == fb,
{
    assert forall|t: nat| fa.queued(t) == fb.queued(t) by {
        assert(fa.model().waiting.contains(t) == fa.queued(t));
    }
    if fa.len > 0 {
        assert(fa.queued(fa.head as nat));
    }
    if fb.len > 0 {
        assert(fb.queued(fb.head as nat));
    }
    lemma_same_live(fa, fb);
}

/// Parts with the same tickets in the same window have the same slots.
proof fn lemma_same_live(fa: Fields, fb: Fields)
    requires
        fa.len <= WINDOW,
        fa.len < WINDOW ==> fa.live >> fa.len == 0 && fb.live >> fa.len == 0,
        fa.head == fb.head,
        fa.len == fb.len,
        forall|t: nat| fa.queued(t) == fb.queued(t),
    ensures
        fa.live == fb.live,
{
    assert forall|i: u32| i < 32 implies slot(fa.live, i) == slot(fb.live, i) by {
        if i < fa.len {
            assert(fa.queued((fa.head + i) as nat) == fb.queued((fa.head + i) as nat));
        } else {
            lemma_unused_slot(fa.live, fa.len, i);
            lemma_unused_slot(fb.live, fa.len, i);
        }
    }
    lemma_same_slots(fa.live, fb.live);
}

/// Clearing the slot of a waiting ticket and settling takes exactly that ticket out.
proof fn lemma_left(f: Fields, cleared: Fields, g: Fields, t: u32)
    requires
        f.wf(),
        f.queued(t as nat),
        cleared.live == f.live & !(1u32 << ((t - f.head) as u32)),
        cleared.len == f.len,
        cleared.head == f.head,
        forall|u: nat| g.queued(u) == cleared.queued(u),
        g.len <= WINDOW,
        g.len > 0 ==> slot(g.live, 0) && g.head + g.len == f.head + f.len,
        g.len == 0 ==> g.head == 0,
        g.held == f.held,
    ensures
        g.model().waiting == f.model().without(t as nat).waiting,
        g.model().next == f.model().without(t as nat).next,
        f.model().without(t as nat).idle() <==> g.len == 0,
        g.len > 0 ==> g.held,
        g.head + g.len <= TICKET_LIMIT,
{
    assert forall|u: nat| g.queued(u) == (f.queued(u) && u != t) by {
        if f.head <= u < f.head + f.len {
            lemma_slot_clear(f.live, (t - f.head) as u32, (u - f.head) as u32);
        }
    }
    if g.len > 0 {
        assert(f.model().without(t as nat).waiting.contains(g.head as nat));
    }
}

} // verus!
