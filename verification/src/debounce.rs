//! Debouncing of filter edits: an edited value takes effect only when no
//! further edit has come for [`DEBOUNCE_MS`] milliseconds, so that rapid
//! typing or slider drags cause one query, not one per keystroke.
use vstd::prelude::*;

verus! {

/// Quiet time after the last edit before it takes effect, in milliseconds.
pub const DEBOUNCE_MS: u32 = 1_000;

/// The latest edit not yet taken into effect, if any.
pub struct Debouncer<T> {
    pending: Option<T>,
}

impl<T> Debouncer<T> {
    /// The latest edit not yet handed out.
    pub closed spec fn pending(&self) -> Option<T> {
        self.pending
    }

    /// A debouncer with nothing pending.
    pub fn new() -> (d: Self)
        ensures
            d.pending() is None,
    {
        Debouncer { pending: None }
    }

    /// An edit arrived: `value` replaces whatever was pending, and the
    /// timer is to be (re)started with the returned delay in milliseconds.
    pub fn changed(&mut self, value: T) -> (delay_ms: u32)
        ensures
            final(self).pending() == Some(value),
            delay_ms == DEBOUNCE_MS,
    {
        self.pending = Some(value);
        DEBOUNCE_MS
    }

    /// The timer fired: hand out the latest pending edit, once.
    pub fn fired(&mut self) -> (r: Option<T>)
        ensures
            r == old(self).pending(),
            final(self).pending() is None,
    {
        let mut out = None;
        std::mem::swap(&mut out, &mut self.pending);
        out
    }
}

} // verus!
