//! The clipboard guard: a scoped snapshot of the clipboard taken before a
//! synthetic copy/paste cycle, restored afterwards on every exit path.
//! The clipboard itself is modelled as the string the rest of the system
//! observes; the process around the library performs the real reads,
//! writes and key synthesis and hands the observed values in.

use vstd::prelude::*;

verus! {

/// The value written to the clipboard before the synthetic copy, so that
/// a change can be detected by the bounded poll.
pub const SELECTION_SENTINEL: &'static str = "\u{1}__ptt_probe__\u{1}";

/// Milliseconds to sleep after the synthetic paste so that the target
/// application has consumed the clipboard before it is restored.
pub const PASTE_CONSUME_DELAY_MS: u64 = 100;

/// A snapshot of the clipboard, owed back to it.
#[derive(Clone, Debug)]
pub struct ClipboardGuard {
    /// What the clipboard held when the guard was acquired.
    pub snapshot: String,
}

impl ClipboardGuard {
    /// Takes a snapshot of the clipboard as it currently reads.
    pub fn acquire(current_clipboard: String) -> (g: ClipboardGuard)
        ensures
            g.snapshot@ == current_clipboard@,
    {
        ClipboardGuard { snapshot: current_clipboard }
    }

    /// Hands the snapshot back; the caller writes it to the clipboard.
    pub fn restore(self) -> (r: String)
        ensures
            r@ == self.snapshot@,
    {
        self.snapshot
    }
}

/// Begins selection capture: snapshots the clipboard and replaces its
/// content with the sentinel, for the synthetic copy to overwrite.
pub fn begin_selection_capture(clipboard: &mut String) -> (g: ClipboardGuard)
    ensures
        g.snapshot@ == old(clipboard)@,
        final(clipboard)@ == SELECTION_SENTINEL@,
{
    let g = ClipboardGuard { snapshot: clipboard.clone() };
    *clipboard = SELECTION_SENTINEL.to_owned();
    g
}

/// Ends selection capture: the clipboard as it reads after the synthetic
/// copy and the bounded poll decides whether a selection existed. The
/// clipboard still holding the sentinel means the copy produced nothing;
/// anything else is the selected text.
pub fn finish_selection_capture(clipboard_after_copy: &String) -> (r: Option<String>)
    ensures
        clipboard_after_copy@ == SELECTION_SENTINEL@ ==> r is None,
        clipboard_after_copy@ != SELECTION_SENTINEL@ ==> (r matches Some(t) && t@
            == clipboard_after_copy@),
{
    let sentinel: String = SELECTION_SENTINEL.to_owned();
    if *clipboard_after_copy == sentinel {
        None
    } else {
        Some(clipboard_after_copy.clone())
    }
}

/// A guarded insertion as the clipboard observes it: the text to paste is
/// placed on the clipboard, and after the paste has been consumed the
/// snapshot is written back. Whatever text was inserted, the clipboard
/// ends exactly as the guard found it.
pub fn insert_text_with_guard(clipboard: &mut String, text: &String, guard: ClipboardGuard)
    ensures
        final(clipboard)@ == guard.snapshot@,
{
    *clipboard = text.clone();
    let restored = guard.restore();
    *clipboard = restored;
}

/// The clipboard round trip: for every session that reaches the
/// injection step, the clipboard observable after the pipeline returns
/// equals the clipboard observable before selection capture — the guard
/// acquired on the pre-capture content restores exactly that content,
/// whatever the sentinel, the copied selection and the pasted text were
/// in between.
pub proof fn lemma_clipboard_round_trip(
    before_capture: Seq<char>,
    g: ClipboardGuard,
    after_pipeline: Seq<char>,
)
    requires
        g.snapshot@ == before_capture,
        after_pipeline == g.snapshot@,
    ensures
        after_pipeline == before_capture,
{
}

} // verus!
