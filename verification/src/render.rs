//! Text renderings of a cell.

use crate::cell::ThreadAlone;
use crate::identity::ThreadKey;
use core::fmt::Write;
use vstd::prelude::*;

verus! {

/// What a cell shows of itself to a thread that may not see its payload.
pub const PLACEHOLDER: &'static str = "unknown";

/// Calls `core::fmt::Debug::fmt` on `value` through `write!(.., "{:?}", ..)`
/// into a fresh `String`, and hands back the text, or `None` where the impl
/// of `Debug` reported an error. What an impl of `Debug` writes, and whether
/// it reports an error, is up to the payload's type, so nothing is claimed of
/// the result.
#[verifier::external_body]
fn debug_text<T: core::fmt::Debug>(value: &T) -> (text: Option<String>) {
    let mut text = String::new();
    match write!(text, "{:?}", value) {
        Ok(()) => Some(text),
        Err(_) => None,
    }
}

/// Whether `text` is what rendering `payload` by its type's `Debug` came to:
/// the text that `write!(.., "{:?}", ..)` made when it was handed `payload`,
/// or `None` for the error that it reported.
pub closed spec fn is_debug_text<T: core::fmt::Debug>(payload: T, text: Option<String>) -> bool {
    call_ensures(debug_text::<T>, (&payload,), text)
}

impl<T> ThreadAlone<T> {
    /// Renders the cell for thread `caller`: on the owner thread the text that
    /// `render` makes of the payload, on any other thread `PLACEHOLDER`,
    /// without `render` being called. An emptied cell has no payload to show
    /// and renders as `PLACEHOLDER` too.
    pub fn format_with<F>(&self, caller: ThreadKey, render: F) -> (text: String) where
        F: FnOnce(&T) -> String,

        requires
            self@.visible_to(caller) matches Some(payload) ==> call_requires(render, (&payload,)),
        ensures
            match self@.visible_to(caller) {
                Some(payload) => call_ensures(render, (&payload,), text),
                None => text@ == PLACEHOLDER@,
            },
    {
        match self.get_ref(caller) {
            Some(payload) => render(payload),
            None => PLACEHOLDER.to_string(),
        }
    }

    /// Renders the cell for thread `caller` as `Debug` would: on the owner
    /// thread the payload's own `{:?}` rendering, or `None` where the
    /// payload's `Debug` reports an error; on any other thread `PLACEHOLDER`,
    /// whatever the payload.
    pub fn debug_string(&self, caller: ThreadKey) -> (text: Option<String>) where
        T: core::fmt::Debug,

        ensures
            match self@.visible_to(caller) {
                Some(payload) => is_debug_text(payload, text),
                None => text matches Some(shown) && shown@ == PLACEHOLDER@,
            },
    {
        match self.get_ref(caller) {
            Some(payload) => debug_text(payload),
            None => Some(PLACEHOLDER.to_string()),
        }
    }
}

} // verus!
