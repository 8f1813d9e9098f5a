//! The atomic cell that holds the word of a lock.

use vstd::prelude::*;
use std::sync::atomic::AtomicU64;
use std::sync::atomic::Ordering;
use crate::model::Op;
use crate::word::applicable;
use crate::word::apply;

verus! {

/// `AtomicU64::fetch_update`: replaces the word in `cell` by what [`apply`] makes of it
/// for `op`, in one atomic step, retrying where another thread came between. What
/// comes back is the word that the step found: inside `Ok` where the operation took
/// effect on it, inside `Err` where it did not and the cell was left alone. A step
/// that takes effect is an acquire and a release at once: what a task wrote before
/// it gave the lock up is seen by the task that gets the lock next.
#[verifier::external_body]
pub(crate) fn update(cell: &AtomicU64, op: Op) -> (found: Result<u64, u64>)
    ensures
        match found {
            Ok(prev) => applicable(op, prev),
            Err(prev) => !applicable(op, prev),
        },
{
    cell.fetch_update(Ordering::AcqRel, Ordering::Acquire, |w| apply(op, w))
}

} // verus!
