# locks

A collection of spin locks, reader-writer locks, an event flag and a barrier,
written in Verus.

## Layout

- `src/` is the verified library.
  - `spin_lock`, `ticket_lock`: mutual-exclusion locks implementing `Lock`.
  - `flag`: a one-bit event flag.
  - `rw_lock`, `rw_lock_fair`, `rw_lock_w`: reader-writer locks, the last two
    packing several counters into one 64-bit word (`from_u64` / `to_u64`,
    `from_counter` / `to_counter`).
  - `src_barrier`: a sense-reversing barrier.
  - `util`: the `AtomicPrimitive` trait, implemented for a one-bit cell.
  - `queue`, `clh`, `msc`, `k42`: the decisions of the pointer-linked queue
    locks, as step functions that take what the last pointer operation
    observed and return the next operation to carry out. For MCS, a model of
    many threads running these steps over one shared queue proves mutual
    exclusion and first-in-first-out hand-over for every interleaving.
- `app/` holds what runs outside the verifier: the queue locks themselves
  (their nodes, atomic pointers and unsafe dereferences, driven by the step
  functions), the write-lock loop of `RWLock` with its back-off sleep, and
  `Predicate`, whose wait depends on a caller-supplied function.

Every operation of the locks in `src/` takes `&mut self` (the flag's `wait`
takes `&self`), so no other thread can observe or change a lock's state during
a call. Their state is therefore kept in plain fields, and each operation is
specified exactly over it. A spin that could only end if another thread
changed the state is left out by the operation's `requires`.
