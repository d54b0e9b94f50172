//! Aggregate usage counters: total recording time, recording count and
//! recognized characters. The counters only ever grow; an update that
//! could not be persisted is rolled back so that memory and file agree.

use vstd::prelude::*;

verus! {

/// The persisted totals.
#[derive(Clone, Copy, Debug, PartialEq, Eq, Structural)]
pub struct UsageStats {
    /// Total recording time, in milliseconds.
    pub total_recording_ms: u64,
    /// Total number of recordings.
    pub total_recording_count: u64,
    /// Total recognized characters.
    pub total_recognized_chars: u64,
}

impl Default for UsageStats {
    /// All counters at zero.
    fn default() -> (r: Self)
        ensures
            r.total_recording_ms == 0,
            r.total_recording_count == 0,
            r.total_recognized_chars == 0,
    {
        UsageStats { total_recording_ms: 0, total_recording_count: 0, total_recognized_chars: 0 }
    }
}

impl UsageStats {
    /// The totals once one recording of `recording_ms` milliseconds and
    /// `recognized_chars` characters is counted in.
    pub fn updated(&self, recording_ms: u64, recognized_chars: u64) -> (r: UsageStats)
        requires
            self.total_recording_ms + recording_ms <= u64::MAX,
            self.total_recording_count + 1 <= u64::MAX,
            self.total_recognized_chars + recognized_chars <= u64::MAX,
        ensures
            r.total_recording_ms == self.total_recording_ms + recording_ms,
            r.total_recording_count == self.total_recording_count + 1,
            r.total_recognized_chars == self.total_recognized_chars + recognized_chars,
    {
        UsageStats {
            total_recording_ms: self.total_recording_ms + recording_ms,
            total_recording_count: self.total_recording_count + 1,
            total_recognized_chars: self.total_recognized_chars + recognized_chars,
        }
    }

    /// The read-modify-write update: `persisted` reports whether writing
    /// the incremented totals to the file succeeded. On success the
    /// counters grow by exactly one recording; on failure they are
    /// rolled back, so the counters never drift from the file. Returns
    /// whether the update took.
    pub fn update_and_save(
        &mut self,
        recording_ms: u64,
        recognized_chars: u64,
        persisted: bool,
    ) -> (r: bool)
        requires
            old(self).total_recording_ms + recording_ms <= u64::MAX,
            old(self).total_recording_count + 1 <= u64::MAX,
            old(self).total_recognized_chars + recognized_chars <= u64::MAX,
        ensures
            r == persisted,
            persisted ==> final(self).total_recording_ms == old(self).total_recording_ms
                + recording_ms && final(self).total_recording_count == old(
                self,
            ).total_recording_count + 1 && final(self).total_recognized_chars == old(
                self,
            ).total_recognized_chars + recognized_chars,
            !persisted ==> *final(self) == *old(self),
    {
        if persisted {
            let next = self.updated(recording_ms, recognized_chars);
            *self = next;
            true
        } else {
            false
        }
    }
}

} // verus!
