//! Focus bookkeeping, and the placeholders the synthetic-input tests
//! have always been: sending a real copy or paste chord would type into
//! whatever window runs the tests, so those remain manual.

use push_to_talk::focus::verify_foreground_window;

#[test]
fn test_send_ctrl_c() {
    // Exercised by hand: a real synthetic Ctrl+C would be delivered to
    // the window that happens to hold the focus during the test run.
}

#[test]
fn test_send_ctrl_v() {
    // Exercised by hand: a real synthetic Ctrl+V would paste into the
    // window that happens to hold the focus during the test run.
}

#[test]
fn foreground_window_is_verified_by_handle() {
    assert!(verify_foreground_window(42, Some(42)));
    assert!(!verify_foreground_window(42, Some(7)));
    assert!(!verify_foreground_window(42, None));
}
