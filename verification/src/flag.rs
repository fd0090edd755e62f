//! The change flag: the one signal by which a watcher tells a running
//! capsule that its module was rebuilt.

use vstd::prelude::*;

verus! {

/// A single boolean signal, lowered at the start of every run cycle and
/// raised at most once during it.
///
/// This is the flag as the capsule's driver sees it between two ticks. A host
/// that shares the signal with a watcher thread mirrors its atomic into this
/// value before it ends a tick.
#[derive(Clone, Copy, Debug, PartialEq, Eq, Structural)]
pub struct ChangeFlag {
    pub raised: bool,
}

impl View for ChangeFlag {
    type V = bool;

    open spec fn view(&self) -> bool {
        self.raised
    }
}

impl ChangeFlag {
    /// This flag after a reset: lowered, whatever it was.
    pub open spec fn lower(self) -> ChangeFlag {
        ChangeFlag { raised: false }
    }

    /// This flag after a set: raised, whatever it was.
    pub open spec fn raise(self) -> ChangeFlag {
        ChangeFlag { raised: true }
    }

    /// A fresh flag, lowered.
    pub fn new() -> (flag: ChangeFlag)
        ensures
            !flag@,
    {
        ChangeFlag { raised: false }
    }

    /// Lowers the flag.
    pub fn reset(&mut self)
        ensures
            *final(self) == old(self).lower(),
    {
        self.raised = false;
    }

    /// Raises the flag.
    pub fn set(&mut self)
        ensures
            *final(self) == old(self).raise(),
    {
        self.raised = true;
    }

    /// Reads the flag without changing it.
    pub fn is_set(&self) -> (raised: bool)
        ensures
            raised == self@,
    {
        self.raised
    }
}

/// After a reset the flag reads as lowered, and after one set that follows
/// it reads as raised: the reader sees exactly one transition.
pub proof fn law_reset_then_set_is_one_transition(flag: ChangeFlag)
    ensures
        !flag.lower()@,
        flag.lower().raise()@,
{
}

/// Setting the flag twice leaves it as setting it once does.
pub proof fn law_set_is_idempotent(flag: ChangeFlag)
    ensures
        flag.raise().raise() == flag.raise(),
{
}

} // verus!
