//! A one-bit event flag.
use vstd::prelude::*;

verus! {

/// A flag that one side sets and the other waits for.
///
/// Every operation that changes the flag takes `&mut self`, and `wait` takes
/// `&self`, so no call can see the flag change under it; it is a plain `bool`.
pub struct Flag {
    f: bool,
}

impl View for Flag {
    /// Whether the flag is set.
    type V = bool;

    closed spec fn view(&self) -> bool {
        self.f
    }
}

impl Flag {
    /// A clear flag.
    pub fn new() -> (flag: Flag)
        ensures
            !flag@,
    {
        Flag { f: false }
    }

    /// Sets the flag.
    pub fn set(&mut self)
        ensures
            final(self)@,
    {
        self.f = true;
    }

    /// Spins until the flag is set. Nothing can set it while this call holds
    /// `&self`, so the flag must already be set.
    pub fn wait(&self)
        requires
            self@,
    {
        while !self.f
            invariant
                self.f,
            decreases 0nat,
        {
        }
    }

    /// Clears the flag.
    pub fn reest(&mut self)
        ensures
            !final(self)@,
    {
        self.f = false;
    }
}

} // verus!
