//! Deferred-call tasks: software-raised completions serviced from the main
//! loop rather than from a hardware interrupt.  No peripheral of this chip
//! layer currently needs one, so no wire number decodes to a task.

use vstd::prelude::*;

verus! {

/// A type of task to defer a call for.  No task is defined yet; the single
/// reserved variant exists because a datatype needs at least one, and no
/// wire number decodes to it.
#[derive(Clone, Copy, Debug, PartialEq, Eq, Structural)]
pub enum DeferredCallTask {
    Reserved,
}

impl DeferredCallTask {
    /// Decode a task from its wire number.  With no tasks defined, every
    /// number is rejected.
    pub fn try_from_usize(value: usize) -> (r: Result<DeferredCallTask, ()>)
        ensures
            r is Err,
    {
        match value {
            _ => Err(()),
        }
    }
}

} // verus!
