//! The shutdown decision taken when the shell reports a window event.
//!
//! The host framework calls in for every window event; only the
//! window-destroyed event triggers a shutdown. The decision consults the
//! registry: on a destroy event the slot is emptied and its handle, if any,
//! is handed to the caller, which terminates the process; on any other
//! event nothing changes and nothing is terminated. Because taking empties
//! the slot, a duplicate destroy event is a guaranteed no-op.

use vstd::prelude::*;
use crate::registry::ProcessRegistry;
use crate::registry::take_transition;

verus! {

/// Decides what a window event means for the companion process: the
/// returned handle, if any, is the one process the caller must terminate.
pub fn on_window_event<H>(registry: &mut ProcessRegistry<H>, destroyed: bool) -> (to_terminate:
    Option<H>)
    ensures
        destroyed ==> take_transition(old(registry)@, final(registry)@, to_terminate),
        !destroyed ==> to_terminate is None && final(registry)@ == old(registry)@,
{
    if destroyed {
        registry.take()
    } else {
        None
    }
}

} // verus!
