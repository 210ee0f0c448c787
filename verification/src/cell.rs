//! The thread-bound cell and the accessors that ask for the caller's identity.

use crate::identity::ThreadKey;
use crate::model::CellView;
use vstd::prelude::*;

verus! {

/// A value bound to the thread that wrapped it.
///
/// The cell stores the payload and the identity of its owner thread. Every
/// accessor takes the identity of the calling thread and gives the payload out
/// only where that identity is the owner's; to any other thread the payload is
/// absent. The owner is set when the cell is made and never changes.
pub struct ThreadAlone<T> {
    value: Option<T>,
    thread_id: ThreadKey,
}

impl<T> View for ThreadAlone<T> {
    type V = CellView<T>;

    closed spec fn view(&self) -> CellView<T> {
        CellView { payload: self.value, owner: self.thread_id }
    }
}

impl<T> ThreadAlone<T> {
    /// Binds `value` to the thread `caller`, which becomes the owner.
    pub fn new(value: T, caller: ThreadKey) -> (cell: Self)
        ensures
            cell@ == CellView::bound(value, caller),
    {
        ThreadAlone { value: Some(value), thread_id: caller }
    }

    /// Binds the default value of `T` to the thread `caller`, as `new` would.
    pub fn new_default(caller: ThreadKey) -> (cell: Self) where T: Default
        ensures
            cell@.is_default_bound(caller),
    {
        ThreadAlone::new(T::default(), caller)
    }

    /// Whether `caller` is the thread that the cell was bound to.
    pub fn is_owner(&self, caller: ThreadKey) -> (owned: bool)
        ensures
            owned == self@.owned_by(caller),
    {
        caller == self.thread_id
    }

    /// A reference to the payload if `caller` is the owner thread, otherwise
    /// `None`. An owner whose cell was emptied by `take` gets `None` as well.
    pub fn get_ref(&self, caller: ThreadKey) -> (seen: Option<&T>)
        ensures
            match seen {
                Some(shown) => self@.visible_to(caller) == Some(*shown),
                None => self@.visible_to(caller) is None,
            },
    {
        if self.is_owner(caller) {
            self.value.as_ref()
        } else {
            None
        }
    }

    /// A mutable reference to the payload if `caller` is the owner thread,
    /// otherwise `None`, with the cell unchanged. What the owner writes
    /// through the reference is what the cell stores afterwards.
    pub fn get_mut(&mut self, caller: ThreadKey) -> (seen: Option<&mut T>)
        ensures
            final(self)@.owner == old(self)@.owner,
            match seen {
                Some(slot) => old(self)@.visible_to(caller) == Some(*slot)
                    && final(self)@.payload == Some(*final(slot)),
                None => old(self)@.visible_to(caller) is None && final(self)@ == old(self)@,
            },
    {
        if self.is_owner(caller) {
            self.value.as_mut()
        } else {
            None
        }
    }

    /// Moves the payload out of the cell if `caller` is the owner thread, and
    /// leaves the storage empty; otherwise `None`, and the cell keeps what it
    /// has. This is `into_inner` for a holder that cannot give the cell up by
    /// value.
    pub fn take(&mut self, caller: ThreadKey) -> (out: Option<T>)
        ensures
            out == old(self)@.visible_to(caller),
            final(self)@ == old(self)@.after_take(caller),
    {
        if self.is_owner(caller) {
            self.value.take()
        } else {
            None
        }
    }

    /// Gives up the cell for its payload if `caller` is the owner thread,
    /// otherwise `None`. The cell is consumed either way; a holder that has
    /// to settle the cell's destruction with `on_drop` uses `take`, which
    /// leaves the cell in place.
    pub fn into_inner(self, caller: ThreadKey) -> (out: Option<T>)
        ensures
            out == self@.visible_to(caller),
    {
        let mut cell = self;
        cell.take(caller)
    }
}

} // verus!
