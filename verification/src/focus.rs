//! Focus bookkeeping around text injection: the foreground window is
//! captured before the overlay appears and must be the foreground window
//! again before any synthetic key is sent. The window handles come from
//! the platform probe as plain integers.

use vstd::prelude::*;

verus! {

/// How often a failed focus restoration is retried.
pub const FOCUS_RESTORE_MAX_RETRIES: u32 = 3;

/// Whether the window that currently has the foreground is the expected
/// one; `foreground` is the probe's reading, or nothing when no window
/// has the foreground.
pub fn verify_foreground_window(expected_hwnd: isize, foreground: Option<isize>) -> (r: bool)
    ensures
        r == (foreground == Some(expected_hwnd)),
{
    match foreground {
        Some(h) => h == expected_hwnd,
        None => false,
    }
}

} // verus!
