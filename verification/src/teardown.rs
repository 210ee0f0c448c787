//! What the destruction of a cell calls for.

use crate::cell::ThreadAlone;
use crate::identity::ThreadKey;
use vstd::prelude::*;

verus! {

/// The line that is reported before the process stops because a cell was
/// destroyed away from its owner thread.
pub const DROP_DIAGNOSTIC: &'static str = "called Drop on another thread";

/// What has to happen when a cell is destroyed.
#[derive(Clone, Copy, Debug, PartialEq, Eq, Structural)]
pub enum Teardown {
    /// The owner thread destroys the cell: the payload, if one is still
    /// stored, is released in the ordinary way.
    Release,
    /// Another thread destroys the cell: the payload must not be touched, and
    /// the whole process reports `DROP_DIAGNOSTIC` and stops at once.
    Abort,
}

impl<T> ThreadAlone<T> {
    /// Decides what the destruction of the cell by thread `caller` calls for.
    pub fn on_drop(&self, caller: ThreadKey) -> (verdict: Teardown)
        ensures
            verdict == self@.teardown(caller),
    {
        if self.is_owner(caller) {
            Teardown::Release
        } else {
            Teardown::Abort
        }
    }
}

} // verus!
