//! What the queue locks decide, as step functions over what a thread observes.
//!
//! The queue locks (CLH, MCS and K42) link per-thread nodes through atomic
//! pointers and hand the lock from one node to the next. The pointer loads,
//! stores and swaps are carried out by the caller; the functions here take
//! what the last one observed and say which one comes next. Pointers are
//! passed as their addresses, zero standing for null.
use vstd::prelude::*;

verus! {

/// What carrying out the last step observed.
#[derive(Clone, Copy, Debug, PartialEq, Eq, Structural)]
pub enum Observation {
    /// The pointer a load or a swap returned, zero for null.
    Pointer(usize),
    /// The boolean a load returned.
    Flag(bool),
    /// Whether a compare-and-swap found the pointer it expected.
    Exchanged(bool),
    /// A store or a fence, which returns nothing.
    Done,
}

/// The steps of releasing a queue lock (MCS and K42 alike): `node` is the
/// releasing thread's node (K42: the lock's own queue node).
#[derive(Clone, Copy, Debug, PartialEq, Eq, Structural)]
pub enum UnlockStep {
    /// A release fence.
    Fence,
    /// Load `node.next`.
    LoadNext,
    /// Swap null in for the tail if the tail is still `node`.
    ReleaseEmpty,
    /// Load `node.next` again: a successor has swapped itself in as tail but
    /// has not linked itself yet.
    AwaitSuccessor,
    /// Hand over to the successor at this address: MCS clears its `waiting`;
    /// K42 stores null in its `tail`, which is the very value a K42 waiter
    /// keeps waiting on.
    HandOver(usize),
    /// The lock is released.
    Released,
}

/// Which observation each unlock step produces.
pub open spec fn unlock_expects(step: UnlockStep, seen: Observation) -> bool {
    match step {
        UnlockStep::Fence => seen == Observation::Done,
        UnlockStep::LoadNext => seen is Pointer,
        UnlockStep::ReleaseEmpty => seen is Exchanged,
        UnlockStep::AwaitSuccessor => seen is Pointer,
        UnlockStep::HandOver(_) => seen == Observation::Done,
        UnlockStep::Released => false,
    }
}

/// The step after `step` observed `seen`.
pub open spec fn unlock_transition(step: UnlockStep, seen: Observation) -> UnlockStep {
    match (step, seen) {
        (UnlockStep::Fence, _) => UnlockStep::LoadNext,
        (UnlockStep::LoadNext, Observation::Pointer(succ)) => if succ == 0 {
            UnlockStep::ReleaseEmpty
        } else {
            UnlockStep::HandOver(succ)
        },
        (UnlockStep::ReleaseEmpty, Observation::Exchanged(ok)) => if ok {
            UnlockStep::Released
        } else {
            UnlockStep::AwaitSuccessor
        },
        (UnlockStep::AwaitSuccessor, Observation::Pointer(succ)) => if succ == 0 {
            UnlockStep::AwaitSuccessor
        } else {
            UnlockStep::HandOver(succ)
        },
        (UnlockStep::HandOver(_), _) => UnlockStep::Released,
        _ => step,
    }
}

impl UnlockStep {
    /// The first step.
    pub fn start() -> (step: UnlockStep)
        ensures
            step == UnlockStep::Fence,
    {
        UnlockStep::Fence
    }

    /// Whether the release is complete.
    pub fn is_released(&self) -> (done: bool)
        ensures
            done == (*self == UnlockStep::Released),
    {
        match self {
            UnlockStep::Released => true,
            _ => false,
        }
    }

    /// The step that follows this one, given what it observed.
    pub fn next(self, seen: Observation) -> (step: UnlockStep)
        requires
            unlock_expects(self, seen),
        ensures
            step == unlock_transition(self, seen),
    {
        match (self, seen) {
            (UnlockStep::Fence, _) => UnlockStep::LoadNext,
            (UnlockStep::LoadNext, Observation::Pointer(succ)) => if succ == 0 {
                UnlockStep::ReleaseEmpty
            } else {
                UnlockStep::HandOver(succ)
            },
            (UnlockStep::ReleaseEmpty, Observation::Exchanged(ok)) => if ok {
                UnlockStep::Released
            } else {
                UnlockStep::AwaitSuccessor
            },
            (UnlockStep::AwaitSuccessor, Observation::Pointer(succ)) => if succ == 0 {
                UnlockStep::AwaitSuccessor
            } else {
                UnlockStep::HandOver(succ)
            },
            (UnlockStep::HandOver(_), _) => UnlockStep::Released,
            _ => self,
        }
    }
}

/// A release ends only by emptying the queue (the tail was still the
/// releasing node) or by handing the lock over.
pub proof fn lemma_unlock_ends_by_empty_or_handover(step: UnlockStep, seen: Observation)
    requires
        unlock_expects(step, seen),
        step != UnlockStep::Released,
        unlock_transition(step, seen) == UnlockStep::Released,
    ensures
        (step == UnlockStep::ReleaseEmpty && seen == Observation::Exchanged(true))
            || step is HandOver,
{
}

/// The lock is handed over only to a successor that was seen, never to null.
pub proof fn lemma_handover_goes_to_seen_successor(
    step: UnlockStep,
    seen: Observation,
    succ: usize,
)
    requires
        unlock_expects(step, seen),
        unlock_transition(step, seen) == UnlockStep::HandOver(succ),
    ensures
        succ != 0,
        seen == Observation::Pointer(succ),
{
}

/// A thread that failed to empty the queue keeps loading until a successor
/// shows up, and never releases the lock without handing it over.
pub proof fn lemma_await_successor_hands_over(seen: Observation)
    requires
        unlock_expects(UnlockStep::AwaitSuccessor, seen),
    ensures
        unlock_transition(UnlockStep::AwaitSuccessor, seen) == UnlockStep::AwaitSuccessor
            || unlock_transition(UnlockStep::AwaitSuccessor, seen) is HandOver,
{
}

/// The address an observation reports, if it reports one.
pub open spec fn observed_address(seen: Observation) -> Option<usize> {
    match seen {
        Observation::Pointer(p) => Some(p),
        _ => None,
    }
}

/// The address an unlock step carries, if it carries one.
pub open spec fn unlock_address(step: UnlockStep) -> Option<usize> {
    match step {
        UnlockStep::HandOver(p) => Some(p),
        _ => None,
    }
}

/// No address is made up: any address the next unlock step carries is the
/// one just loaded or the one the current step carried, and it is not null.
pub proof fn lemma_unlock_addresses_are_observed(step: UnlockStep, seen: Observation)
    requires
        unlock_expects(step, seen),
    ensures
        unlock_address(unlock_transition(step, seen)) is None || unlock_address(
            unlock_transition(step, seen),
        ) == observed_address(seen) || unlock_address(unlock_transition(step, seen))
            == unlock_address(step),
        unlock_address(unlock_transition(step, seen)) is Some ==> unlock_address(
            unlock_transition(step, seen),
        )->Some_0 != 0,
{
}

/// Whenever a release loads a non-null successor from its node's `next`, it
/// hands the lock over to exactly that successor; a null load never hands over.
pub proof fn lemma_loaded_successor_is_handed_over(succ: usize)
    ensures
        succ != 0 ==> unlock_transition(UnlockStep::LoadNext, Observation::Pointer(succ))
            == UnlockStep::HandOver(succ),
        succ != 0 ==> unlock_transition(UnlockStep::AwaitSuccessor, Observation::Pointer(succ))
            == UnlockStep::HandOver(succ),
        !(unlock_transition(UnlockStep::LoadNext, Observation::Pointer(0)) is HandOver),
        !(unlock_transition(UnlockStep::AwaitSuccessor, Observation::Pointer(0)) is HandOver),
{
}

/// An uncontended release: fence, find no successor, win the swap to null,
/// released.
pub proof fn lemma_uncontended_release()
    ensures
        unlock_transition(
            unlock_transition(
                unlock_transition(UnlockStep::Fence, Observation::Done),
                Observation::Pointer(0),
            ),
            Observation::Exchanged(true),
        ) == UnlockStep::Released,
{
}

/// A release that loses the swap waits for its successor, keeps waiting while
/// `next` is null, and a hand-over ends the release.
pub proof fn lemma_contended_release(succ: usize)
    ensures
        unlock_transition(UnlockStep::ReleaseEmpty, Observation::Exchanged(false))
            == UnlockStep::AwaitSuccessor,
        unlock_transition(UnlockStep::AwaitSuccessor, Observation::Pointer(0))
            == UnlockStep::AwaitSuccessor,
        unlock_transition(UnlockStep::HandOver(succ), Observation::Done) == UnlockStep::Released,
{
}

} // verus!
