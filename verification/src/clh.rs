//! The CLH queue lock: each thread swaps its node in as the tail and spins on
//! its predecessor's node until the predecessor no longer makes it wait.
use vstd::prelude::*;

use crate::queue::Observation;

verus! {

/// The steps of taking a CLH lock with node `p`.
#[derive(Clone, Copy, Debug, PartialEq, Eq, Structural)]
pub enum LockStep {
    /// Store `true` in `p.succ_must_wait`.
    MarkWaiting,
    /// Swap `p` in as the tail.
    SwapTail,
    /// Store the predecessor at this address in `p.prev`.
    RecordPredecessor(usize),
    /// Load the predecessor's `succ_must_wait`.
    AwaitPredecessor(usize),
    /// An acquire fence.
    Fence,
    /// The lock is held.
    Held,
}

/// Which observation each step produces.
pub open spec fn lock_expects(step: LockStep, seen: Observation) -> bool {
    match step {
        LockStep::MarkWaiting => seen == Observation::Done,
        LockStep::SwapTail => seen is Pointer,
        LockStep::RecordPredecessor(_) => seen == Observation::Done,
        LockStep::AwaitPredecessor(_) => seen is Flag,
        LockStep::Fence => seen == Observation::Done,
        LockStep::Held => false,
    }
}

/// The step after `step` observed `seen`.
pub open spec fn lock_transition(step: LockStep, seen: Observation) -> LockStep {
    match (step, seen) {
        (LockStep::MarkWaiting, _) => LockStep::SwapTail,
        (LockStep::SwapTail, Observation::Pointer(pred)) => LockStep::RecordPredecessor(pred),
        (LockStep::RecordPredecessor(pred), _) => LockStep::AwaitPredecessor(pred),
        (LockStep::AwaitPredecessor(pred), Observation::Flag(must_wait)) => if must_wait {
            LockStep::AwaitPredecessor(pred)
        } else {
            LockStep::Fence
        },
        (LockStep::Fence, _) => LockStep::Held,
        _ => step,
    }
}

impl LockStep {
    /// The first step.
    pub fn start() -> (step: LockStep)
        ensures
            step == LockStep::MarkWaiting,
    {
        LockStep::MarkWaiting
    }

    /// Whether the lock is held.
    pub fn is_held(&self) -> (held: bool)
        ensures
            held == (*self == LockStep::Held),
    {
        match self {
            LockStep::Held => true,
            _ => false,
        }
    }

    /// The step that follows this one, given what it observed.
    pub fn next(self, seen: Observation) -> (step: LockStep)
        requires
            lock_expects(self, seen),
        ensures
            step == lock_transition(self, seen),
    {
        match (self, seen) {
            (LockStep::MarkWaiting, _) => LockStep::SwapTail,
            (LockStep::SwapTail, Observation::Pointer(pred)) => LockStep::RecordPredecessor(pred),
            (LockStep::RecordPredecessor(pred), _) => LockStep::AwaitPredecessor(pred),
            (LockStep::AwaitPredecessor(pred), Observation::Flag(must_wait)) => if must_wait {
                LockStep::AwaitPredecessor(pred)
            } else {
                LockStep::Fence
            },
            (LockStep::Fence, _) => LockStep::Held,
            _ => self,
        }
    }
}

/// A thread waits on exactly the node it swapped out of the tail, and enters
/// only once that node no longer asks it to wait.
pub proof fn lemma_waits_on_swapped_out_predecessor(pred: usize, seen: Observation)
    requires
        lock_expects(LockStep::AwaitPredecessor(pred), seen),
    ensures
        lock_transition(LockStep::SwapTail, Observation::Pointer(pred))
            == LockStep::RecordPredecessor(pred),
        lock_transition(LockStep::RecordPredecessor(pred), Observation::Done)
            == LockStep::AwaitPredecessor(pred),
        lock_transition(LockStep::AwaitPredecessor(pred), seen) == LockStep::Fence
            <==> seen == Observation::Flag(false),
{
}

/// The address a CLH lock step carries, if it carries one.
pub open spec fn lock_address(step: LockStep) -> Option<usize> {
    match step {
        LockStep::RecordPredecessor(p) => Some(p),
        LockStep::AwaitPredecessor(p) => Some(p),
        _ => None,
    }
}

/// No address is made up: any address the next step carries is the one just
/// swapped out of the tail or the one the current step carried.
pub proof fn lemma_lock_addresses_are_observed(step: LockStep, seen: Observation)
    requires
        lock_expects(step, seen),
    ensures
        lock_address(lock_transition(step, seen)) is None || lock_address(
            lock_transition(step, seen),
        ) == crate::queue::observed_address(seen) || lock_address(lock_transition(step, seen))
            == lock_address(step),
{
}

/// While the predecessor asks it to wait, a thread keeps waiting on that same
/// predecessor; once it no longer does, the thread enters.
pub proof fn lemma_wait_stays_on_predecessor(pred: usize)
    ensures
        lock_transition(LockStep::AwaitPredecessor(pred), Observation::Flag(true))
            == LockStep::AwaitPredecessor(pred),
        lock_transition(LockStep::AwaitPredecessor(pred), Observation::Flag(false))
            == LockStep::Fence,
{
}

/// The CLH acquisition path: mark the node, swap it in, record whatever was
/// swapped out as the predecessor and wait on exactly it; the fence ends in
/// holding the lock.
pub proof fn lemma_lock_path(pred: usize)
    ensures
        lock_transition(LockStep::MarkWaiting, Observation::Done) == LockStep::SwapTail,
        lock_transition(LockStep::SwapTail, Observation::Pointer(pred))
            == LockStep::RecordPredecessor(pred),
        lock_transition(LockStep::RecordPredecessor(pred), Observation::Done)
            == LockStep::AwaitPredecessor(pred),
        lock_transition(LockStep::Fence, Observation::Done) == LockStep::Held,
{
}

} // verus!
