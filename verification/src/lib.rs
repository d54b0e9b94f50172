//! Foreground coordination engine of a push-to-talk voice-to-text desktop
//! daemon: typed configuration with validation, the global hotkey state
//! machine with its watchdog, the recording-session orchestrator, the
//! primary/secondary recognizer race, the post-recognition pipelines and the
//! clipboard-guarded text injection model.
//!
//! Everything that decides is here and verified; the surrounding process
//! (key hooks, audio devices, network, window management) hands plain
//! values in and carries the returned actions out.

pub mod asr;
pub mod clipboard;
pub mod config;
pub mod focus;
pub mod hotkey;
pub mod keys;
pub mod pipeline;
pub mod race;
pub mod session;
pub mod stats;
pub mod wav;
