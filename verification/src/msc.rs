//! The MCS queue lock: each thread brings a node, swaps it in as the tail and,
//! behind a predecessor, spins on its own node until the lock is handed to it.
//!
//! `LockStep` and `queue::UnlockStep` say what one thread does next; `System`
//! runs them for many threads over one shared tail, and the lemmas at the end
//! prove mutual exclusion and first-in-first-out hand-over for every
//! interleaving.
use vstd::prelude::*;

use crate::queue::{unlock_transition, Observation, UnlockStep};

verus! {

/// The steps of taking an MCS lock with node `p`.
#[derive(Clone, Copy, Debug, PartialEq, Eq, Structural)]
pub enum LockStep {
    /// Store null in `p.next` and `true` in `p.waiting`.
    PrepareNode,
    /// Swap `p` in as the tail.
    SwapTail,
    /// Store `p` in the `next` of the predecessor at this address.
    LinkPredecessor(usize),
    /// Load `p.waiting`, which the predecessor clears on hand-over.
    AwaitGrant,
    /// An acquire fence.
    Fence,
    /// The lock is held.
    Held,
}

/// Which observation each step produces.
pub open spec fn lock_expects(step: LockStep, seen: Observation) -> bool {
    match step {
        LockStep::PrepareNode => seen == Observation::Done,
        LockStep::SwapTail => seen is Pointer,
        LockStep::LinkPredecessor(_) => seen == Observation::Done,
        LockStep::AwaitGrant => seen is Flag,
        LockStep::Fence => seen == Observation::Done,
        LockStep::Held => false,
    }
}

/// The step after `step` observed `seen`.
pub open spec fn lock_transition(step: LockStep, seen: Observation) -> LockStep {
    match (step, seen) {
        (LockStep::PrepareNode, _) => LockStep::SwapTail,
        (LockStep::SwapTail, Observation::Pointer(prev)) => if prev == 0 {
            LockStep::Fence
        } else {
            LockStep::LinkPredecessor(prev)
        },
        (LockStep::LinkPredecessor(_), _) => LockStep::AwaitGrant,
        (LockStep::AwaitGrant, Observation::Flag(waiting)) => if waiting {
            LockStep::AwaitGrant
        } else {
            LockStep::Fence
        },
        (LockStep::Fence, _) => LockStep::Held,
        _ => step,
    }
}

impl LockStep {
    /// The first step.
    pub fn start() -> (step: LockStep)
        ensures
            step == LockStep::PrepareNode,
    {
        LockStep::PrepareNode
    }

    /// Whether the lock is held.
    pub fn is_held(&self) -> (held: bool)
        ensures
            held == (*self == LockStep::Held),
    {
        match self {
            LockStep::Held => true,
            _ => false,
        }
    }

    /// The step that follows this one, given what it observed.
    pub fn next(self, seen: Observation) -> (step: LockStep)
        requires
            lock_expects(self, seen),
        ensures
            step == lock_transition(self, seen),
    {
        match (self, seen) {
            (LockStep::PrepareNode, _) => LockStep::SwapTail,
            (LockStep::SwapTail, Observation::Pointer(prev)) => if prev == 0 {
                LockStep::Fence
            } else {
                LockStep::LinkPredecessor(prev)
            },
            (LockStep::LinkPredecessor(_), _) => LockStep::AwaitGrant,
            (LockStep::AwaitGrant, Observation::Flag(waiting)) => if waiting {
                LockStep::AwaitGrant
            } else {
                LockStep::Fence
            },
            (LockStep::Fence, _) => LockStep::Held,
            _ => self,
        }
    }
}


/// Where a thread is in the MCS protocol: idle, taking the lock (up to and
/// including `Held`, the critical section), or releasing it.
pub enum Phase {
    Idle,
    Locking(LockStep),
    Unlocking(UnlockStep),
}

/// A whole MCS lock shared by several threads, each with its own node. Thread
/// `t` (never 0) owns node `t`; pointers are node numbers, 0 for null.
/// `queue` is the order in which the nodes in the queue swapped themselves
/// in as tail; it is not stored anywhere, it describes the state.
pub struct System {
    pub tail: usize,
    pub next: Map<usize, usize>,
    pub waiting: Map<usize, bool>,
    pub phase: Map<usize, Phase>,
    pub queue: Seq<usize>,
}

/// `System` with only `phase[t]` changed.
pub open spec fn with_phase(s: System, t: usize, ph: Phase) -> System {
    System { phase: s.phase.insert(t, ph), ..s }
}

/// The system after thread `t` carries out its current step, as the
/// pointer code does, and moves on to the step that the step functions
/// (`LockStep::next`, `UnlockStep::next`) choose from what it observed.
pub open spec fn run(s: System, t: usize) -> System {
    match s.phase[t] {
        Phase::Idle => with_phase(s, t, Phase::Locking(LockStep::PrepareNode)),
        Phase::Locking(step) => match step {
            LockStep::PrepareNode => System {
                next: s.next.insert(t, 0),
                waiting: s.waiting.insert(t, true),
                phase: s.phase.insert(t, Phase::Locking(lock_transition(step, Observation::Done))),
                ..s
            },
            LockStep::SwapTail => System {
                tail: t,
                queue: s.queue.push(t),
                phase: s.phase.insert(
                    t,
                    Phase::Locking(lock_transition(step, Observation::Pointer(s.tail))),
                ),
                ..s
            },
            LockStep::LinkPredecessor(p) => System {
                next: s.next.insert(p, t),
                phase: s.phase.insert(t, Phase::Locking(lock_transition(step, Observation::Done))),
                ..s
            },
            LockStep::AwaitGrant => with_phase(
                s,
                t,
                Phase::Locking(lock_transition(step, Observation::Flag(s.waiting[t]))),
            ),
            LockStep::Fence => with_phase(
                s,
                t,
                Phase::Locking(lock_transition(step, Observation::Done)),
            ),
            LockStep::Held => with_phase(s, t, Phase::Unlocking(UnlockStep::Fence)),
        },
        Phase::Unlocking(step) => match step {
            UnlockStep::Fence => with_phase(
                s,
                t,
                Phase::Unlocking(unlock_transition(step, Observation::Done)),
            ),
            UnlockStep::LoadNext => with_phase(
                s,
                t,
                Phase::Unlocking(unlock_transition(step, Observation::Pointer(s.next[t]))),
            ),
            UnlockStep::AwaitSuccessor => with_phase(
                s,
                t,
                Phase::Unlocking(unlock_transition(step, Observation::Pointer(s.next[t]))),
            ),
            UnlockStep::ReleaseEmpty => {
                let ok = s.tail == t;
                System {
                    tail: if ok { 0 } else { s.tail },
                    queue: if ok { s.queue.drop_first() } else { s.queue },
                    phase: s.phase.insert(
                        t,
                        Phase::Unlocking(unlock_transition(step, Observation::Exchanged(ok))),
                    ),
                    ..s
                }
            },
            UnlockStep::HandOver(succ) => System {
                waiting: s.waiting.insert(succ, false),
                queue: s.queue.drop_first(),
                phase: s.phase.insert(
                    t,
                    Phase::Unlocking(unlock_transition(step, Observation::Done)),
                ),
                ..s
            },
            UnlockStep::Released => with_phase(s, t, Phase::Idle),
        },
    }
}

/// The system with threads `1..=n`, all idle, and an empty queue.
pub open spec fn initial(n: usize) -> System {
    System {
        tail: 0,
        next: Map::new(|t: usize| 1 <= t <= n, |t: usize| 0usize),
        waiting: Map::new(|t: usize| 1 <= t <= n, |t: usize| false),
        phase: Map::new(|t: usize| 1 <= t <= n, |t: usize| Phase::Idle),
        queue: Seq::empty(),
    }
}

/// The thread owns the lock: it has entered (the fence before the critical
/// section), is in the critical section, or has not finished releasing.
pub open spec fn owns(ph: Phase) -> bool {
    match ph {
        Phase::Idle => false,
        Phase::Locking(step) => step == LockStep::Fence || step == LockStep::Held,
        Phase::Unlocking(step) => step != UnlockStep::Released,
    }
}

/// The thread's node is in the queue: it has swapped itself in as tail and
/// has not yet released the lock.
pub open spec fn queued(ph: Phase) -> bool {
    match ph {
        Phase::Idle => false,
        Phase::Locking(step) => step != LockStep::PrepareNode && step != LockStep::SwapTail,
        Phase::Unlocking(step) => step != UnlockStep::Released,
    }
}

/// The phases a thread at the head of the queue can be in.
pub open spec fn head_ok(s: System) -> bool {
    let h = s.queue[0];
    match s.phase[h] {
        Phase::Locking(LockStep::AwaitGrant) => !s.waiting[h],
        Phase::Locking(LockStep::Fence) => true,
        Phase::Locking(LockStep::Held) => true,
        Phase::Unlocking(UnlockStep::HandOver(x)) => s.queue.len() >= 2 && x == s.queue[1]
            && s.next[h] == x,
        Phase::Unlocking(UnlockStep::Released) => false,
        Phase::Unlocking(_) => true,
        _ => false,
    }
}

/// What holds of every reachable `System`.
pub open spec fn well_formed(s: System) -> bool {
    &&& !s.phase.dom().contains(0)
    &&& s.next.dom() == s.phase.dom()
    &&& s.waiting.dom() == s.phase.dom()
    &&& forall|i: int, j: int|
        0 <= i < j < s.queue.len() ==> s.queue[i] != s.queue[j]
    &&& forall|i: int| 0 <= i < s.queue.len() ==> s.phase.dom().contains(#[trigger] s.queue[i])
    &&& s.tail == if s.queue.len() == 0 { 0 } else { s.queue.last() }
    &&& forall|t: usize| #[trigger]
        s.phase.dom().contains(t) ==> (s.queue.contains(t) <==> queued(s.phase[t]))
    &&& forall|t: usize| #[trigger]
        s.phase.dom().contains(t) && s.phase[t] == Phase::Locking(LockStep::SwapTail) ==> s.next[t]
            == 0 && s.waiting[t]
    &&& forall|i: int|
        1 <= i < s.queue.len() ==> s.waiting[#[trigger] s.queue[i]] && (s.phase[s.queue[i]]
            == Phase::Locking(LockStep::LinkPredecessor(s.queue[i - 1])) || s.phase[s.queue[i]]
            == Phase::Locking(LockStep::AwaitGrant))
    &&& forall|i: int|
        0 <= i < s.queue.len() - 1 ==> s.next[#[trigger] s.queue[i]] == if s.phase[s.queue[i
            + 1]] is Locking && s.phase[s.queue[i + 1]]->Locking_0 is LinkPredecessor {
            0
        } else {
            s.queue[i + 1]
        }
    &&& s.queue.len() > 0 ==> s.next[s.queue.last()] == 0
    &&& s.queue.len() > 0 ==> head_ok(s)
}

/// Mutual exclusion: at most one thread owns an MCS lock, in every state
/// that `well_formed` describes (which holds of every reachable state).
pub proof fn lemma_mutual_exclusion(s: System, t1: usize, t2: usize)
    requires
        well_formed(s),
        s.phase.dom().contains(t1),
        s.phase.dom().contains(t2),
        owns(s.phase[t1]),
        owns(s.phase[t2]),
    ensures
        t1 == t2,
{
    lemma_owner_is_head(s, t1);
    lemma_owner_is_head(s, t2);
}

/// An owner is the head of the queue.
proof fn lemma_owner_is_head(s: System, t: usize)
    requires
        well_formed(s),
        s.phase.dom().contains(t),
        owns(s.phase[t]),
    ensures
        s.queue.len() > 0,
        s.queue[0] == t,
{
    assert(queued(s.phase[t]));
    assert(s.queue.contains(t));
    let i = choose|i: int| 0 <= i < s.queue.len() && s.queue[i] == t;
    if i >= 1 {
        assert(s.waiting[s.queue[i]]);
    }
}

/// The index of a queued thread's node in the queue.
proof fn lemma_queue_index(s: System, t: usize) -> (i: int)
    requires
        well_formed(s),
        s.phase.dom().contains(t),
        queued(s.phase[t]),
    ensures
        0 <= i < s.queue.len(),
        s.queue[i] == t,
        forall|j: int| 0 <= j < s.queue.len() && s.queue[j] == t ==> j == i,
{
    assert(s.queue.contains(t));
    let i = choose|i: int| 0 <= i < s.queue.len() && s.queue[i] == t;
    assert forall|j: int| 0 <= j < s.queue.len() && s.queue[j] == t implies j == i by {
        if j < i {
            assert(s.queue[j] != s.queue[i]);
        } else if j > i {
            assert(s.queue[i] != s.queue[j]);
        }
    }
    i
}

/// A step that changes only the stepping thread's phase, between two phases
/// that are both outside the queue, keeps the system well formed.
proof fn lemma_phase_step_outside(s: System, t: usize, ph: Phase)
    requires
        well_formed(s),
        s.phase.dom().contains(t),
        !queued(s.phase[t]),
        !queued(ph),
        s.phase[t] != Phase::Locking(LockStep::SwapTail),
        ph != Phase::Locking(LockStep::SwapTail),
    ensures
        well_formed(with_phase(s, t, ph)),
{
    let s2 = with_phase(s, t, ph);
    assert(s2.phase.dom() =~= s.phase.dom());
    assert(!s.queue.contains(t));
    assert forall|i: int| 0 <= i < s.queue.len() implies #[trigger] s.queue[i] != t by {
        assert(s.queue.contains(s.queue[i]));
    }
    if s.queue.len() > 0 {
        assert(s.queue[0] != t);
        if s.queue.len() >= 2 {
            assert(s.queue[1] != t);
        }
    }
    assert(well_formed(s2));
}

/// A step that changes only the stepping thread's phase, keeping it in the
/// queue at the head, between owning phases allowed there, keeps the system
/// well formed.
proof fn lemma_phase_step_head(s: System, t: usize, ph: Phase)
    requires
        well_formed(s),
        s.phase.dom().contains(t),
        s.queue.len() > 0,
        s.queue[0] == t,
        queued(ph),
        !(ph is Locking && ph->Locking_0 is LinkPredecessor),
        head_ok(with_phase(s, t, ph)),
    ensures
        well_formed(with_phase(s, t, ph)),
{
    let s2 = with_phase(s, t, ph);
    assert(s2.phase.dom() =~= s.phase.dom());
    assert forall|i: int| 1 <= i < s.queue.len() implies #[trigger] s.queue[i] != t by {
        assert(s.queue[0] != s.queue[i]);
    }
    assert(s.phase[t] is Locking ==> !(s.phase[t]->Locking_0 is LinkPredecessor));
    assert(well_formed(s2));
}

/// `PrepareNode` resets the thread's own node, which is not in the queue.
proof fn lemma_prepare_step(s: System, t: usize)
    requires
        well_formed(s),
        s.phase.dom().contains(t),
        s.phase[t] == Phase::Locking(LockStep::PrepareNode),
    ensures
        well_formed(run(s, t)),
{
    let s2 = run(s, t);
    assert(s2.phase.dom() =~= s.phase.dom());
    assert(s2.next.dom() =~= s.phase.dom());
    assert(s2.waiting.dom() =~= s.phase.dom());
    assert(!s.queue.contains(t));
    assert forall|i: int| 0 <= i < s.queue.len() implies #[trigger] s.queue[i] != t by {
        assert(s.queue.contains(s.queue[i]));
    }
    if s.queue.len() > 0 {
        assert(s.queue[0] != t);
        assert(s.queue.last() != t);
        if s.queue.len() >= 2 {
            assert(s.queue[1] != t);
        }
    }
    assert(well_formed(s2));
}

/// `SwapTail` appends the thread's node to the queue.
proof fn lemma_swap_step(s: System, t: usize)
    requires
        well_formed(s),
        s.phase.dom().contains(t),
        s.phase[t] == Phase::Locking(LockStep::SwapTail),
    ensures
        well_formed(run(s, t)),
{
    let s2 = run(s, t);
    let n = s.queue.len();
    assert(s2.phase.dom() =~= s.phase.dom());
    assert(!s.queue.contains(t));
    assert forall|i: int| 0 <= i < n implies #[trigger] s.queue[i] != t by {
        assert(s.queue.contains(s.queue[i]));
    }
    assert(s2.queue.len() == n + 1);
    assert(s2.queue[n as int] == t);
    assert forall|i: int| 0 <= i < n implies #[trigger] s2.queue[i] == s.queue[i] by {}
    assert forall|u: usize| #[trigger] s2.phase.dom().contains(u) implies (s2.queue.contains(u)
        <==> queued(s2.phase[u])) by {
        if u == t {
            assert(s2.queue[n as int] == u);
        } else {
            if s.queue.contains(u) {
                let k = choose|k: int| 0 <= k < n && s.queue[k] == u;
                assert(s2.queue[k] == u);
            }
            if s2.queue.contains(u) {
                let k = choose|k: int| 0 <= k < n + 1 && s2.queue[k] == u;
                assert(k < n);
                assert(s.queue[k] == u);
            }
        }
    }
    if n > 0 {
        assert(s2.queue[0] == s.queue[0]);
        if n >= 2 {
            assert(s2.queue[1] == s.queue[1]);
        }
    }
    assert(well_formed(s2));
}

/// `LinkPredecessor` points the predecessor's `next` at the thread's node.
proof fn lemma_link_step(s: System, t: usize, p: usize)
    requires
        well_formed(s),
        s.phase.dom().contains(t),
        s.phase[t] == Phase::Locking(LockStep::LinkPredecessor(p)),
    ensures
        well_formed(run(s, t)),
{
    let s2 = run(s, t);
    let i = lemma_queue_index(s, t);
    assert(i >= 1);
    assert(s.queue[i - 1] == p);
    assert(s2.phase.dom() =~= s.phase.dom());
    assert(s2.next.dom() =~= s.phase.dom());
    assert forall|j: int| 0 <= j < s.queue.len() && j != i - 1 implies #[trigger] s.queue[j]
        != p by {
        if j < i - 1 {
            assert(s.queue[j] != s.queue[i - 1]);
        } else {
            assert(s.queue[i - 1] != s.queue[j]);
        }
    }
    assert forall|j: int| 0 <= j < s.queue.len() && j != i implies #[trigger] s.queue[j]
        != t by {}
    assert(s.queue[0] != t);
    assert(well_formed(s2));
}

/// `ReleaseEmpty` empties a queue of one node, or moves on to wait for the
/// successor that has swapped itself in.
proof fn lemma_release_empty_step(s: System, t: usize)
    requires
        well_formed(s),
        s.phase.dom().contains(t),
        s.phase[t] == Phase::Unlocking(UnlockStep::ReleaseEmpty),
    ensures
        well_formed(run(s, t)),
{
    let s2 = run(s, t);
    let i = lemma_queue_index(s, t);
    assert(i == 0);
    assert(s2.phase.dom() =~= s.phase.dom());
    if s.tail == t {
        assert(s.queue.len() == 1) by {
            if s.queue.len() > 1 {
                assert(s.queue[0] != s.queue[s.queue.len() - 1]);
            }
        }
        assert(s2.queue.len() == 0);
        assert forall|u: usize| #[trigger] s2.phase.dom().contains(u) implies (s2.queue.contains(u)
            <==> queued(s2.phase[u])) by {
            if u != t {
                if queued(s.phase[u]) {
                    assert(s.queue.contains(u));
                    let k = choose|k: int| 0 <= k < s.queue.len() && s.queue[k] == u;
                    assert(k == 0);
                }
            }
        }
        assert(well_formed(s2));
    } else {
        assert(s.queue.len() >= 2);
        lemma_phase_step_head(s, t, Phase::Unlocking(UnlockStep::AwaitSuccessor));
    }
}

/// `HandOver` passes the head of the queue to the next node.
proof fn lemma_handover_step(s: System, t: usize, succ: usize)
    requires
        well_formed(s),
        s.phase.dom().contains(t),
        s.phase[t] == Phase::Unlocking(UnlockStep::HandOver(succ)),
    ensures
        well_formed(run(s, t)),
{
    let s2 = run(s, t);
    let i = lemma_queue_index(s, t);
    assert(i == 0);
    let n = s.queue.len();
    assert(n >= 2);
    assert(succ == s.queue[1]);
    assert(s.next[t] == succ);
    assert(s.phase[succ] == Phase::Locking(LockStep::AwaitGrant));
    assert(s2.phase.dom() =~= s.phase.dom());
    assert(s2.waiting.dom() =~= s.phase.dom());
    assert(s2.queue.len() == n - 1);
    assert forall|k: int| 0 <= k < n - 1 implies #[trigger] s2.queue[k] == s.queue[k + 1] by {}
    assert forall|k: int| 1 <= k < n implies #[trigger] s.queue[k] != t by {
        assert(s.queue[0] != s.queue[k]);
    }
    assert forall|k: int| 2 <= k < n implies #[trigger] s.queue[k] != succ by {
        assert(s.queue[1] != s.queue[k]);
    }
    assert forall|u: usize| #[trigger] s2.phase.dom().contains(u) implies (s2.queue.contains(u)
        <==> queued(s2.phase[u])) by {
        if u == t {
            if s2.queue.contains(u) {
                let k = choose|k: int| 0 <= k < n - 1 && s2.queue[k] == u;
                assert(s.queue[k + 1] == u);
            }
        } else {
            if s.queue.contains(u) {
                let k = choose|k: int| 0 <= k < n && s.queue[k] == u;
                assert(k >= 1);
                assert(s2.queue[k - 1] == u);
            }
            if s2.queue.contains(u) {
                let k = choose|k: int| 0 <= k < n - 1 && s2.queue[k] == u;
                assert(s.queue[k + 1] == u);
            }
        }
    }
    assert forall|k: int| 1 <= k < n - 1 implies s2.waiting[#[trigger] s2.queue[k]] && (
    s2.phase[s2.queue[k]] == Phase::Locking(LockStep::LinkPredecessor(s2.queue[k - 1]))
        || s2.phase[s2.queue[k]] == Phase::Locking(LockStep::AwaitGrant)) by {
        assert(s2.queue[k] == s.queue[k + 1]);
        assert(s2.queue[k - 1] == s.queue[k]);
    }
    assert forall|k: int| 0 <= k < n - 2 implies s2.next[#[trigger] s2.queue[k]] == if s2.phase[
    s2.queue[k + 1]] is Locking && s2.phase[s2.queue[k + 1]]->Locking_0 is LinkPredecessor {
        0
    } else {
        s2.queue[k + 1]
    } by {
        assert(s2.queue[k] == s.queue[k + 1]);
        assert(s2.queue[k + 1] == s.queue[k + 2]);
    }
    if n >= 3 {
        assert(s2.queue[1] == s.queue[2]);
    }
    assert(well_formed(s2));
}

/// Every step of every thread keeps the system well formed; with
/// `lemma_initial_well_formed`, every reachable state is well formed, so
/// `lemma_mutual_exclusion` holds of every reachable state.
pub proof fn lemma_run_keeps_well_formed(s: System, t: usize)
    requires
        well_formed(s),
        s.phase.dom().contains(t),
    ensures
        well_formed(run(s, t)),
{
    match s.phase[t] {
        Phase::Idle => {
            lemma_phase_step_outside(s, t, Phase::Locking(LockStep::PrepareNode));
        },
        Phase::Locking(step) => match step {
            LockStep::PrepareNode => lemma_prepare_step(s, t),
            LockStep::SwapTail => lemma_swap_step(s, t),
            LockStep::LinkPredecessor(p) => lemma_link_step(s, t, p),
            LockStep::AwaitGrant => {
                let i = lemma_queue_index(s, t);
                if s.waiting[t] {
                    assert(with_phase(s, t, s.phase[t]).phase =~= s.phase);
                    assert(run(s, t) == s);
                } else {
                    assert(i == 0);
                    lemma_phase_step_head(s, t, Phase::Locking(LockStep::Fence));
                }
            },
            LockStep::Fence => {
                let i = lemma_queue_index(s, t);
                assert(i == 0);
                lemma_phase_step_head(s, t, Phase::Locking(LockStep::Held));
            },
            LockStep::Held => {
                let i = lemma_queue_index(s, t);
                assert(i == 0);
                lemma_phase_step_head(s, t, Phase::Unlocking(UnlockStep::Fence));
            },
        },
        Phase::Unlocking(step) => match step {
            UnlockStep::Fence => {
                let i = lemma_queue_index(s, t);
                assert(i == 0);
                lemma_phase_step_head(s, t, Phase::Unlocking(UnlockStep::LoadNext));
            },
            UnlockStep::LoadNext => {
                let i = lemma_queue_index(s, t);
                assert(i == 0);
                if s.next[t] == 0 {
                    lemma_phase_step_head(s, t, Phase::Unlocking(UnlockStep::ReleaseEmpty));
                } else {
                    assert(s.queue.len() >= 2);
                    lemma_phase_step_head(s, t, Phase::Unlocking(UnlockStep::HandOver(s.next[t])));
                }
            },
            UnlockStep::AwaitSuccessor => {
                let i = lemma_queue_index(s, t);
                assert(i == 0);
                if s.next[t] == 0 {
                    assert(with_phase(s, t, s.phase[t]).phase =~= s.phase);
                    assert(run(s, t) == s);
                } else {
                    assert(s.queue.len() >= 2);
                    lemma_phase_step_head(s, t, Phase::Unlocking(UnlockStep::HandOver(s.next[t])));
                }
            },
            UnlockStep::ReleaseEmpty => lemma_release_empty_step(s, t),
            UnlockStep::HandOver(succ) => lemma_handover_step(s, t, succ),
            UnlockStep::Released => {
                lemma_phase_step_outside(s, t, Phase::Idle);
            },
        },
    }
}

/// The initial system is well formed.
pub proof fn lemma_initial_well_formed(n: usize)
    ensures
        well_formed(initial(n)),
{
    let s = initial(n);
    assert(s.next.dom() =~= s.phase.dom());
    assert(s.waiting.dom() =~= s.phase.dom());
}

/// The system after the threads in `schedule` each carry out one step, in
/// that order, starting from `s`.
pub open spec fn run_schedule(s: System, schedule: Seq<usize>) -> System
    decreases schedule.len(),
{
    if schedule.len() == 0 {
        s
    } else {
        run_schedule(run(s, schedule[0]), schedule.drop_first())
    }
}

/// A step keeps the set of threads.
proof fn lemma_run_keeps_threads(s: System, t: usize)
    requires
        s.phase.dom().contains(t),
    ensures
        run(s, t).phase.dom() == s.phase.dom(),
{
    assert(run(s, t).phase.dom() =~= s.phase.dom());
}

/// Every state reached from a well-formed state by any schedule of its
/// threads is well formed.
pub proof fn lemma_schedule_keeps_well_formed(s: System, schedule: Seq<usize>)
    requires
        well_formed(s),
        forall|i: int| 0 <= i < schedule.len() ==> s.phase.dom().contains(#[trigger] schedule[i]),
    ensures
        well_formed(run_schedule(s, schedule)),
    decreases schedule.len(),
{
    if schedule.len() > 0 {
        let t = schedule[0];
        lemma_run_keeps_well_formed(s, t);
        lemma_run_keeps_threads(s, t);
        let rest = schedule.drop_first();
        assert forall|i: int| 0 <= i < rest.len() implies run(s, t).phase.dom().contains(
            #[trigger] rest[i],
        ) by {
            assert(rest[i] == schedule[i + 1]);
        }
        lemma_schedule_keeps_well_formed(run(s, t), rest);
    }
}

/// Mutual exclusion in every reachable state: however the steps of threads
/// `1..=n` interleave, from a fresh lock, at most one of them owns it.
pub proof fn lemma_mutual_exclusion_reachable(
    n: usize,
    schedule: Seq<usize>,
    t1: usize,
    t2: usize,
)
    requires
        forall|i: int| 0 <= i < schedule.len() ==> 1 <= #[trigger] schedule[i] <= n,
        1 <= t1 <= n,
        1 <= t2 <= n,
        owns(run_schedule(initial(n), schedule).phase[t1]),
        owns(run_schedule(initial(n), schedule).phase[t2]),
    ensures
        t1 == t2,
{
    lemma_initial_well_formed(n);
    assert forall|i: int| 0 <= i < schedule.len() implies initial(n).phase.dom().contains(
        #[trigger] schedule[i],
    ) by {}
    lemma_schedule_keeps_well_formed(initial(n), schedule);
    lemma_schedule_keeps_threads(initial(n), schedule);
    lemma_mutual_exclusion(run_schedule(initial(n), schedule), t1, t2);
}

/// A schedule keeps the set of threads.
proof fn lemma_schedule_keeps_threads(s: System, schedule: Seq<usize>)
    requires
        forall|i: int| 0 <= i < schedule.len() ==> s.phase.dom().contains(#[trigger] schedule[i]),
    ensures
        run_schedule(s, schedule).phase.dom() == s.phase.dom(),
    decreases schedule.len(),
{
    if schedule.len() > 0 {
        let t = schedule[0];
        lemma_run_keeps_threads(s, t);
        let rest = schedule.drop_first();
        assert forall|i: int| 0 <= i < rest.len() implies run(s, t).phase.dom().contains(
            #[trigger] rest[i],
        ) by {
            assert(rest[i] == schedule[i + 1]);
        }
        lemma_schedule_keeps_threads(run(s, t), rest);
    }
}

/// First in, first out: the lock is handed to the node that swapped itself
/// in as tail right after the holder's.
pub proof fn lemma_handover_to_next_in_queue(s: System, t: usize, succ: usize)
    requires
        well_formed(s),
        s.phase.dom().contains(t),
        s.phase[t] == Phase::Unlocking(UnlockStep::HandOver(succ)),
    ensures
        s.queue.len() >= 2,
        s.queue[0] == t,
        s.queue[1] == succ,
{
    let i = lemma_queue_index(s, t);
    assert(i == 0);
}

/// The lock is entered (the fence before holding it) only from an empty queue
/// or once the predecessor has cleared `p.waiting`.
pub proof fn lemma_enter_only_when_free_or_granted(step: LockStep, seen: Observation)
    requires
        lock_expects(step, seen),
        step != LockStep::Fence,
        lock_transition(step, seen) == LockStep::Fence,
    ensures
        (step == LockStep::SwapTail && seen == Observation::Pointer(0)) || (step
            == LockStep::AwaitGrant && seen == Observation::Flag(false)),
{
}

/// A thread that found a predecessor links itself to exactly that node.
pub proof fn lemma_link_to_seen_predecessor(step: LockStep, seen: Observation, prev: usize)
    requires
        lock_expects(step, seen),
        lock_transition(step, seen) == LockStep::LinkPredecessor(prev),
    ensures
        step == LockStep::SwapTail,
        seen == Observation::Pointer(prev),
        prev != 0,
{
}

/// The address an MCS lock step carries, if it carries one.
pub open spec fn lock_address(step: LockStep) -> Option<usize> {
    match step {
        LockStep::LinkPredecessor(p) => Some(p),
        _ => None,
    }
}

/// No address is made up: any address the next step carries is the tail just
/// swapped out, and it is not null.
pub proof fn lemma_lock_addresses_are_observed(step: LockStep, seen: Observation)
    requires
        lock_expects(step, seen),
    ensures
        lock_address(lock_transition(step, seen)) is None || lock_address(
            lock_transition(step, seen),
        ) == crate::queue::observed_address(seen),
        lock_address(lock_transition(step, seen)) is Some ==> lock_address(
            lock_transition(step, seen),
        )->Some_0 != 0,
{
}

/// A thread that swaps out a non-null tail links itself to exactly that node;
/// one that swaps out null enters at once.
pub proof fn lemma_link_behind_swapped_tail(prev: usize)
    ensures
        prev != 0 ==> lock_transition(LockStep::SwapTail, Observation::Pointer(prev))
            == LockStep::LinkPredecessor(prev),
        lock_transition(LockStep::SwapTail, Observation::Pointer(0)) == LockStep::Fence,
{
}

/// The MCS acquisition path: prepare the node, swap it in; from an empty
/// queue enter at once, otherwise link, wait while `p.waiting` is set, and
/// enter once it is cleared; the fence ends in holding the lock.
pub proof fn lemma_lock_path(prev: usize)
    ensures
        lock_transition(LockStep::PrepareNode, Observation::Done) == LockStep::SwapTail,
        lock_transition(LockStep::LinkPredecessor(prev), Observation::Done)
            == LockStep::AwaitGrant,
        lock_transition(LockStep::AwaitGrant, Observation::Flag(true)) == LockStep::AwaitGrant,
        lock_transition(LockStep::AwaitGrant, Observation::Flag(false)) == LockStep::Fence,
        lock_transition(LockStep::Fence, Observation::Done) == LockStep::Held,
{
}

} // verus!
