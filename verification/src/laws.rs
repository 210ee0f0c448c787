//! Laws of the thread-bound cell, stated over its model and proved.
//!
//! The accessors of `ThreadAlone` are specified by the functions of
//! `CellView`; what is proved here of those functions therefore holds of every
//! call of the accessors.

use crate::identity::ThreadKey;
use crate::model::CellView;
use crate::teardown::Teardown;
use vstd::prelude::*;

verus! {

/// Access goes by thread identity: of a cell that thread `creator` bound
/// `value` to, any other thread sees nothing, and `creator` itself sees
/// `value`, unchanged.
pub proof fn law_access_goes_by_identity<T>(value: T, creator: ThreadKey, caller: ThreadKey)
    ensures
        caller != creator ==> CellView::bound(value, creator).visible_to(caller) is None,
        caller == creator ==> CellView::bound(value, creator).visible_to(caller) == Some(value),
{
}

/// The payload of a cell, in whatever state, is visible to a thread if and
/// only if that thread is the owner and the cell still stores a payload.
pub proof fn law_visible_iff_owner<T>(cell: CellView<T>, caller: ThreadKey)
    ensures
        cell.visible_to(caller) is Some <==> caller == cell.owner && cell.payload is Some,
        cell.visible_to(caller) is Some ==> cell.visible_to(caller) == cell.payload,
{
}

/// Round trip: taking from a freshly bound cell on its owner thread gives back
/// exactly the value that was bound, and leaves the storage empty.
pub proof fn law_take_returns_bound_value<T>(value: T, owner: ThreadKey)
    ensures
        CellView::bound(value, owner).visible_to(owner) == Some(value),
        CellView::bound(value, owner).after_take(owner).payload is None,
{
}

/// A take by a thread other than the owner returns nothing and leaves the cell
/// as it was.
pub proof fn law_foreign_take_changes_nothing<T>(cell: CellView<T>, caller: ThreadKey)
    requires
        caller != cell.owner,
    ensures
        cell.visible_to(caller) is None,
        cell.after_take(caller) == cell,
{
}

/// Once the payload was taken, no thread sees anything of the cell.
pub proof fn law_nothing_visible_after_take<T>(
    cell: CellView<T>,
    taker: ThreadKey,
    caller: ThreadKey,
)
    requires
        taker == cell.owner,
    ensures
        cell.after_take(taker).visible_to(caller) is None,
{
}

/// The owner of a cell never changes: a take, by whatever thread, leaves it
/// as it was.
pub proof fn law_owner_is_fixed<T>(cell: CellView<T>, caller: ThreadKey)
    ensures
        cell.after_take(caller).owner == cell.owner,
{
}

/// Reads are repeatable: any two reads of one unmodified cell by one thread
/// see the same thing.
pub proof fn law_reads_agree<T>(
    cell: CellView<T>,
    caller: ThreadKey,
    first: Option<T>,
    second: Option<T>,
)
    requires
        first == cell.visible_to(caller),
        second == cell.visible_to(caller),
    ensures
        first == second,
{
}

/// A cell made by default construction shows its creating thread a value that
/// `T::default` returns.
pub proof fn law_default_is_visible_to_creator<T: Default>(cell: CellView<T>, creator: ThreadKey)
    requires
        cell.is_default_bound(creator),
    ensures
        cell.visible_to(creator) matches Some(value) && call_ensures(T::default, (), value),
{
}

/// Destruction goes by thread identity as access does, whether or not the
/// payload is still stored: it releases on the owner thread and aborts on
/// every other.
pub proof fn law_teardown_goes_by_identity<T>(cell: CellView<T>, caller: ThreadKey)
    ensures
        cell.teardown(caller) == Teardown::Release <==> caller == cell.owner,
        cell.teardown(caller) == Teardown::Abort <==> caller != cell.owner,
        cell.after_take(cell.owner).teardown(caller) == cell.teardown(caller),
{
}

} // verus!
