//! The K42 variant of the MCS queue lock: the lock's own queue node `q` stands
//! for the holder, and a waiting thread links in a node of its own on its stack.
use vstd::prelude::*;

use crate::queue::Observation;

verus! {

/// The steps of taking a K42 lock. `q` is the lock's queue node, `n` the
/// waiting node a contending thread puts on its stack; the thread waits while
/// `n.tail` is null. (The K42 release stores null there too, so a release
/// does not end that wait.)
#[derive(Clone, Copy, Debug, PartialEq, Eq, Structural)]
pub enum LockStep {
    /// Load `q.tail`.
    LoadTail,
    /// Swap `&q` in for a null `q.tail`.
    AcquireEmpty,
    /// Swap `&n` in for `q.tail`, expected to still be the tail seen here.
    Enqueue(usize),
    /// Store `&n` in the `next` of the predecessor at this address.
    LinkPredecessor(usize),
    /// Load `n.tail`: null while waiting.
    AwaitGrant,
    /// Load `n.next`.
    LoadSuccessor,
    /// Store null in `q.next`.
    ClearQueueNext,
    /// Swap `&q` in for `q.tail` if it is still `&n`.
    RestoreTail,
    /// Load `n.next` again until a successor shows up.
    AwaitSuccessor,
    /// Store the successor at this address in `q.next`.
    PublishSuccessor(usize),
    /// The lock is held.
    Held,
}

/// Which observation each step produces.
pub open spec fn lock_expects(step: LockStep, seen: Observation) -> bool {
    match step {
        LockStep::LoadTail => seen is Pointer,
        LockStep::AcquireEmpty => seen is Exchanged,
        LockStep::Enqueue(_) => seen is Exchanged,
        LockStep::LinkPredecessor(_) => seen == Observation::Done,
        LockStep::AwaitGrant => seen is Pointer,
        LockStep::LoadSuccessor => seen is Pointer,
        LockStep::ClearQueueNext => seen == Observation::Done,
        LockStep::RestoreTail => seen is Exchanged,
        LockStep::AwaitSuccessor => seen is Pointer,
        LockStep::PublishSuccessor(_) => seen == Observation::Done,
        LockStep::Held => false,
    }
}

/// The step after `step` observed `seen`.
pub open spec fn lock_transition(step: LockStep, seen: Observation) -> LockStep {
    match (step, seen) {
        (LockStep::LoadTail, Observation::Pointer(prev)) => if prev == 0 {
            LockStep::AcquireEmpty
        } else {
            LockStep::Enqueue(prev)
        },
        (LockStep::AcquireEmpty, Observation::Exchanged(ok)) => if ok {
            LockStep::Held
        } else {
            LockStep::LoadTail
        },
        (LockStep::Enqueue(prev), Observation::Exchanged(ok)) => if ok {
            LockStep::LinkPredecessor(prev)
        } else {
            LockStep::LoadTail
        },
        (LockStep::LinkPredecessor(_), _) => LockStep::AwaitGrant,
        (LockStep::AwaitGrant, Observation::Pointer(tail)) => if tail == 0 {
            LockStep::AwaitGrant
        } else {
            LockStep::LoadSuccessor
        },
        (LockStep::LoadSuccessor, Observation::Pointer(succ)) => if succ == 0 {
            LockStep::ClearQueueNext
        } else {
            LockStep::PublishSuccessor(succ)
        },
        (LockStep::ClearQueueNext, _) => LockStep::RestoreTail,
        (LockStep::RestoreTail, Observation::Exchanged(ok)) => if ok {
            LockStep::Held
        } else {
            LockStep::AwaitSuccessor
        },
        (LockStep::AwaitSuccessor, Observation::Pointer(succ)) => if succ == 0 {
            LockStep::AwaitSuccessor
        } else {
            LockStep::PublishSuccessor(succ)
        },
        (LockStep::PublishSuccessor(_), _) => LockStep::Held,
        _ => step,
    }
}

impl LockStep {
    /// The first step.
    pub fn start() -> (step: LockStep)
        ensures
            step == LockStep::LoadTail,
    {
        LockStep::LoadTail
    }

    /// Whether the lock is held.
    pub fn is_held(&self) -> (held: bool)
        ensures
            held == (*self == LockStep::Held),
    {
        match self {
            LockStep::Held => true,
            _ => false,
        }
    }

    /// The step that follows this one, given what it observed.
    pub fn next(self, seen: Observation) -> (step: LockStep)
        requires
            lock_expects(self, seen),
        ensures
            step == lock_transition(self, seen),
    {
        match (self, seen) {
            (LockStep::LoadTail, Observation::Pointer(prev)) => if prev == 0 {
                LockStep::AcquireEmpty
            } else {
                LockStep::Enqueue(prev)
            },
            (LockStep::AcquireEmpty, Observation::Exchanged(ok)) => if ok {
                LockStep::Held
            } else {
                LockStep::LoadTail
            },
            (LockStep::Enqueue(prev), Observation::Exchanged(ok)) => if ok {
                LockStep::LinkPredecessor(prev)
            } else {
                LockStep::LoadTail
            },
            (LockStep::LinkPredecessor(_), _) => LockStep::AwaitGrant,
            (LockStep::AwaitGrant, Observation::Pointer(tail)) => if tail == 0 {
                LockStep::AwaitGrant
            } else {
                LockStep::LoadSuccessor
            },
            (LockStep::LoadSuccessor, Observation::Pointer(succ)) => if succ == 0 {
                LockStep::ClearQueueNext
            } else {
                LockStep::PublishSuccessor(succ)
            },
            (LockStep::ClearQueueNext, _) => LockStep::RestoreTail,
            (LockStep::RestoreTail, Observation::Exchanged(ok)) => if ok {
                LockStep::Held
            } else {
                LockStep::AwaitSuccessor
            },
            (LockStep::AwaitSuccessor, Observation::Pointer(succ)) => if succ == 0 {
                LockStep::AwaitSuccessor
            } else {
                LockStep::PublishSuccessor(succ)
            },
            (LockStep::PublishSuccessor(_), _) => LockStep::Held,
            _ => self,
        }
    }
}

/// The lock is taken only by swapping into an empty queue, by swapping the
/// queue node back in as tail, or by publishing a successor: never straight
/// from a wait.
pub proof fn lemma_held_only_after_acquire(step: LockStep, seen: Observation)
    requires
        lock_expects(step, seen),
        lock_transition(step, seen) == LockStep::Held,
    ensures
        (step == LockStep::AcquireEmpty && seen == Observation::Exchanged(true)) || (step
            == LockStep::RestoreTail && seen == Observation::Exchanged(true))
            || step is PublishSuccessor,
{
}

/// A waiting thread leaves the wait only once it sees its node's tail no
/// longer null.
pub proof fn lemma_grant_ends_wait(seen: Observation)
    requires
        lock_expects(LockStep::AwaitGrant, seen),
        lock_transition(LockStep::AwaitGrant, seen) != LockStep::AwaitGrant,
    ensures
        seen is Pointer && seen->Pointer_0 != 0,
{
}

/// A thread queues up only behind a tail it saw, which is not null, and links
/// itself to that same predecessor once its swap succeeds.
pub proof fn lemma_enqueue_behind_seen_tail(step: LockStep, seen: Observation, prev: usize)
    requires
        lock_expects(step, seen),
        lock_transition(step, seen) == LockStep::Enqueue(prev),
    ensures
        step == LockStep::LoadTail,
        seen == Observation::Pointer(prev),
        prev != 0,
        lock_transition(LockStep::Enqueue(prev), Observation::Exchanged(true))
            == LockStep::LinkPredecessor(prev),
{
}

/// A failed swap, whether into an empty queue or behind a tail, starts over
/// from loading the tail.
pub proof fn lemma_failed_swap_retries(step: LockStep)
    requires
        step == LockStep::AcquireEmpty || step is Enqueue,
    ensures
        lock_transition(step, Observation::Exchanged(false)) == LockStep::LoadTail,
{
}

/// The address a K42 lock step carries, if it carries one.
pub open spec fn lock_address(step: LockStep) -> Option<usize> {
    match step {
        LockStep::Enqueue(p) => Some(p),
        LockStep::LinkPredecessor(p) => Some(p),
        LockStep::PublishSuccessor(p) => Some(p),
        _ => None,
    }
}

/// No address is made up: any address the next step carries is the one just
/// loaded or the one the current step carried, and it is not null when that
/// one is not.
pub proof fn lemma_lock_addresses_are_observed(step: LockStep, seen: Observation)
    requires
        lock_expects(step, seen),
        lock_address(step) is Some ==> lock_address(step)->Some_0 != 0,
    ensures
        lock_address(lock_transition(step, seen)) is None || lock_address(
            lock_transition(step, seen),
        ) == crate::queue::observed_address(seen) || lock_address(lock_transition(step, seen))
            == lock_address(step),
        lock_address(lock_transition(step, seen)) is Some ==> lock_address(
            lock_transition(step, seen),
        )->Some_0 != 0,
{
}

/// Whenever a granted thread loads a non-null successor from its node's
/// `next`, whether at once or after waiting, it publishes exactly that
/// successor in `q.next`.
pub proof fn lemma_loaded_successor_is_published(succ: usize)
    requires
        succ != 0,
    ensures
        lock_transition(LockStep::LoadSuccessor, Observation::Pointer(succ))
            == LockStep::PublishSuccessor(succ),
        lock_transition(LockStep::AwaitSuccessor, Observation::Pointer(succ))
            == LockStep::PublishSuccessor(succ),
{
}

/// A thread that sees a non-null tail queues up behind exactly that tail.
pub proof fn lemma_enqueue_behind_loaded_tail(prev: usize)
    requires
        prev != 0,
    ensures
        lock_transition(LockStep::LoadTail, Observation::Pointer(prev)) == LockStep::Enqueue(prev),
        lock_transition(LockStep::LoadTail, Observation::Pointer(0)) == LockStep::AcquireEmpty,
{
}

/// An uncontended acquisition: a thread that finds the queue empty and wins
/// the swap holds the lock after those two steps.
pub proof fn lemma_uncontended_acquire()
    ensures
        lock_transition(
            lock_transition(LockStep::LoadTail, Observation::Pointer(0)),
            Observation::Exchanged(true),
        ) == LockStep::Held,
{
}

/// A contending thread that wins its swap behind `prev` links itself to
/// `prev`, then waits while its node's tail stays null and goes on to look
/// for a successor once it is not.
pub proof fn lemma_contended_path(prev: usize, tail: usize)
    ensures
        lock_transition(LockStep::Enqueue(prev), Observation::Exchanged(true))
            == LockStep::LinkPredecessor(prev),
        lock_transition(LockStep::LinkPredecessor(prev), Observation::Done)
            == LockStep::AwaitGrant,
        lock_transition(LockStep::AwaitGrant, Observation::Pointer(0)) == LockStep::AwaitGrant,
        tail != 0 ==> lock_transition(LockStep::AwaitGrant, Observation::Pointer(tail))
            == LockStep::LoadSuccessor,
{
}

/// A granted thread with no successor clears `q.next`, swaps `q` back in as
/// tail and holds the lock if that succeeds; if a successor got in between, it
/// waits for the successor to link itself. Publishing a successor ends in
/// holding the lock.
pub proof fn lemma_no_successor_path(succ: usize)
    ensures
        lock_transition(LockStep::LoadSuccessor, Observation::Pointer(0))
            == LockStep::ClearQueueNext,
        lock_transition(LockStep::ClearQueueNext, Observation::Done) == LockStep::RestoreTail,
        lock_transition(LockStep::RestoreTail, Observation::Exchanged(true)) == LockStep::Held,
        lock_transition(LockStep::RestoreTail, Observation::Exchanged(false))
            == LockStep::AwaitSuccessor,
        lock_transition(LockStep::AwaitSuccessor, Observation::Pointer(0))
            == LockStep::AwaitSuccessor,
        lock_transition(LockStep::PublishSuccessor(succ), Observation::Done) == LockStep::Held,
{
}

} // verus!
