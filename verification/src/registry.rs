//! Process-wide storage for the handle of the running companion process.
//!
//! The registry is a slot holding at most one handle. It is filled once at
//! startup with the outcome of the launch attempt and emptied by `take`,
//! which removes the handle so that no later reader can obtain it again.
//! The shell wraps the registry in its own mutual-exclusion lock; the
//! take-once behaviour proved here is what makes duplicate shutdown events
//! harmless.

use vstd::prelude::*;

verus! {

/// Holds zero or one handle to the running companion process.
///
/// The handle type is a parameter: the shell stores the operating-system
/// child-process handle, while the supervisor's own reasoning never looks
/// inside it.
pub struct ProcessRegistry<H> {
    slot: Option<H>,
}

impl<H> View for ProcessRegistry<H> {
    type V = Option<H>;

    closed spec fn view(&self) -> Option<H> {
        self.slot
    }
}

/// What `store` does: the slot afterwards holds exactly the stored value.
pub open spec fn store_transition<H>(post: Option<H>, handle: Option<H>) -> bool {
    post == handle
}

/// What `take` does: the caller receives whatever the slot held, and the
/// slot is empty afterwards.
pub open spec fn take_transition<H>(pre: Option<H>, post: Option<H>, returned: Option<H>) -> bool {
    &&& returned == pre
    &&& post is None
}

impl<H> ProcessRegistry<H> {
    /// A fresh registry holds no handle.
    pub fn new() -> (reg: Self)
        ensures
            reg@ is None,
    {
        ProcessRegistry { slot: None }
    }

    /// Records the outcome of the launch attempt: a handle when the launch
    /// succeeded, absence when it failed. Called once, from the startup path.
    pub fn store(&mut self, handle: Option<H>)
        ensures
            store_transition(final(self)@, handle),
    {
        self.slot = handle;
    }

    /// Removes and returns the stored handle, leaving the slot empty.
    /// After the first call the slot stays empty, so every later call
    /// returns absence.
    pub fn take(&mut self) -> (returned: Option<H>)
        ensures
            take_transition(old(self)@, final(self)@, returned),
    {
        self.slot.take()
    }
}

/// Law: across any two successive takes, a handle is returned at most once,
/// and the second take always returns absence — whatever was stored before.
pub proof fn lemma_take_at_most_once<H>(
    s0: Option<H>,
    s1: Option<H>,
    s2: Option<H>,
    r1: Option<H>,
    r2: Option<H>,
)
    requires
        take_transition(s0, s1, r1),
        take_transition(s1, s2, r2),
    ensures
        r2 is None,
        !(r1 is Some && r2 is Some),
{
}

/// Law: after a handle is stored, the first take returns exactly that
/// handle and any later take returns absence.
pub proof fn lemma_store_then_take_once<H>(
    handle: H,
    s1: Option<H>,
    s2: Option<H>,
    s3: Option<H>,
    r1: Option<H>,
    r2: Option<H>,
)
    requires
        store_transition(s1, Some(handle)),
        take_transition(s1, s2, r1),
        take_transition(s2, s3, r2),
    ensures
        r1 == Some(handle),
        r2 is None,
{
}

} // verus!
