//! Debouncing of file-modification events.
//!
//! The background observer reports every raw modification of the watched
//! source file; bursts of events within the debounce window must coalesce
//! into a single compile-and-patch pass. The decision lives here; reading
//! the file system and sleeping stay outside the library.

use crate::errors::PassError;
use vstd::prelude::*;

verus! {

/// Coalesces raw modification events into single triggers: every event
/// restarts the window, and the trigger fires once the window has elapsed
/// with no further event.
pub struct Debouncer {
    /// Length of the debounce window, in microseconds.
    pub window_us: u64,
    /// When the pending burst's trigger is due, if a burst is pending.
    pub deadline_us: Option<u64>,
}

impl Debouncer {
    /// A debouncer with the given window and no pending burst.
    pub fn new(window_us: u64) -> (d: Debouncer)
        ensures
            d.window_us == window_us,
            d.deadline_us is None,
    {
        Debouncer { window_us, deadline_us: None }
    }

    /// Notes one raw modification event at the given time: the pending
    /// trigger is pushed out to one full window after this event, so a
    /// burst of edits yields one trigger after its last event.
    pub fn note_event(&mut self, now_us: u64)
        requires
            now_us + old(self).window_us <= u64::MAX,
        ensures
            final(self).deadline_us == Some((now_us + old(self).window_us) as u64),
            final(self).window_us == old(self).window_us,
    {
        self.deadline_us = Some(now_us + self.window_us);
    }

    /// Whether a coalesced burst is due at the given time; if so, the burst
    /// is consumed and the caller runs one compile-and-patch pass.
    pub fn should_trigger(&mut self, now_us: u64) -> (fire: bool)
        ensures
            fire <==> (old(self).deadline_us matches Some(d) && d <= now_us),
            fire ==> final(self).deadline_us is None,
            !fire ==> final(self).deadline_us == old(self).deadline_us,
            final(self).window_us == old(self).window_us,
    {
        match self.deadline_us {
            Some(d) => {
                if d <= now_us {
                    self.deadline_us = None;
                    true
                } else {
                    false
                }
            },
            None => false,
        }
    }
}

/// Startup gate of the file watcher: a missing source file is fatal and
/// non-recoverable, anything else may proceed.
pub fn confirm_source_present(source_exists: bool) -> (r: Result<(), PassError>)
    ensures
        source_exists <==> r is Ok,
        !source_exists ==> (r matches Err(e) && e is SourceMissing),
{
    if source_exists {
        Ok(())
    } else {
        Err(PassError::SourceMissing)
    }
}

} // verus!
