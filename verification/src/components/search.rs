//! The search bar's debounce: every keystroke restarts a short timer, and
//! only the timer's firing reports the term — an empty field reports that the
//! search was cleared.

use vstd::prelude::*;

verus! {

/// How long input must rest before the search fires.
pub const SEARCH_DEBOUNCE_MILLIS: u64 = 300;

/// The bar's state: the text currently in the field.
#[derive(Debug, PartialEq)]
pub struct SearchState {
    pub value: String,
}

impl SearchState {
    pub fn init() -> (r: SearchState)
        ensures
            r.value@ == ""@,
    {
        SearchState { value: String::from_str("") }
    }

    /// A keystroke: keep the new text and (re)start the debounce timer for
    /// the returned delay, replacing any timer still running.
    pub fn on_change(&mut self, s: String) -> (delay_ms: u64)
        ensures
            final(self).value == s,
            delay_ms == SEARCH_DEBOUNCE_MILLIS,
    {
        self.value = s;
        SEARCH_DEBOUNCE_MILLIS
    }

    /// The debounce timer fired: the term to report, or `None` when the
    /// field is empty.
    pub fn on_timer(&self) -> (r: Option<String>)
        ensures
            self.value@.len() > 0 ==> (r matches Some(v) && v@ == self.value@),
            self.value@.len() == 0 ==> r is None,
    {
        if !self.value.as_str().is_empty() {
            Some(self.value.clone())
        } else {
            None
        }
    }
}

} // verus!
