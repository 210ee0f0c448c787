//! Thread identities as plain values.

use vstd::prelude::*;

verus! {

/// The identity of one thread.
///
/// A key stands for the thread it was drawn for: whoever hands keys out gives
/// each thread one key for as long as it runs, and gives no key to a second
/// thread, not even after the first has ended. Two keys name the same thread
/// exactly if their `id`s are equal.
#[derive(Clone, Copy, Debug, PartialEq, Eq, Hash, Structural)]
pub struct ThreadKey {
    pub id: u64,
}

} // verus!
