//! The mathematical model of a thread-bound cell.

use crate::identity::ThreadKey;
use crate::teardown::Teardown;
use vstd::prelude::*;

verus! {

/// What a cell is, seen from outside: the payload it stores, if it still
/// stores one, and the thread it belongs to.
pub ghost struct CellView<T> {
    pub payload: Option<T>,
    pub owner: ThreadKey,
}

impl<T> CellView<T> {
    /// The cell that binding `value` on thread `owner` creates.
    pub open spec fn bound(value: T, owner: ThreadKey) -> CellView<T> {
        CellView { payload: Some(value), owner }
    }

    /// Whether the cell is one that binding the default value of `T` on thread
    /// `owner` creates: it stores a value that `T::default` returns.
    pub open spec fn is_default_bound(self, owner: ThreadKey) -> bool where T: Default {
        &&& self.owner == owner
        &&& self.payload matches Some(value) && call_ensures(T::default, (), value)
    }

    /// Whether `caller` is the thread that the cell belongs to.
    pub open spec fn owned_by(self, caller: ThreadKey) -> bool {
        caller == self.owner
    }

    /// What `caller` gets to see of the cell: the stored payload on the owner
    /// thread, nothing on any other.
    pub open spec fn visible_to(self, caller: ThreadKey) -> Option<T> {
        if self.owned_by(caller) {
            self.payload
        } else {
            None
        }
    }

    /// The cell after `caller` tried to move the payload out: emptied on the
    /// owner thread, untouched on any other.
    pub open spec fn after_take(self, caller: ThreadKey) -> CellView<T> {
        if self.owned_by(caller) {
            CellView { payload: None, owner: self.owner }
        } else {
            self
        }
    }

    /// What the destruction of the cell by thread `caller` calls for. It does
    /// not depend on whether the payload is still stored.
    pub open spec fn teardown(self, caller: ThreadKey) -> Teardown {
        if self.owned_by(caller) {
            Teardown::Release
        } else {
            Teardown::Abort
        }
    }
}

} // verus!
