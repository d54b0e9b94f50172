//! End-to-end scripts over the engine and the orchestrator together:
//! key edges go into the hotkey engine, its actions drive the
//! orchestrator, and the emitted events are collected in order.

use push_to_talk::config::DualHotkeyConfig;
use push_to_talk::config::HotkeyConfig;
use push_to_talk::config::HotkeyMode;
use push_to_talk::config::TranscriptionMode;
use push_to_talk::config::TriggerMode;
use push_to_talk::hotkey::HotkeyService;
use push_to_talk::hotkey::KeyEventAction;
use push_to_talk::keys::HotkeyKey;
use push_to_talk::pipeline::NormalPipeline;
use push_to_talk::pipeline::PipelineResult;
use push_to_talk::session::Orchestrator;
use push_to_talk::session::SessionStep;

struct Harness {
    engine: HotkeyService,
    orchestrator: Orchestrator,
    events: Vec<&'static str>,
}

impl Harness {
    fn new(use_realtime: bool) -> Harness {
        let mut engine = HotkeyService::new();
        let config = DualHotkeyConfig {
            dictation: HotkeyConfig {
                keys: vec![HotkeyKey::ControlLeft, HotkeyKey::MetaLeft],
                mode: HotkeyMode::Press,
                enable_release_lock: false,
                release_mode_keys: Some(vec![HotkeyKey::F2]),
            },
            assistant: HotkeyConfig {
                keys: vec![HotkeyKey::AltLeft, HotkeyKey::Space],
                mode: HotkeyMode::Press,
                enable_release_lock: false,
                release_mode_keys: None,
            },
        };
        engine.activate_dual(config).expect("valid config");
        let mut orchestrator = Orchestrator::new();
        orchestrator.mark_started(use_realtime);
        Harness { engine, orchestrator, events: Vec::new() }
    }

    fn record_plan(&mut self, plan: &[SessionStep]) {
        for step in plan {
            match step {
                SessionStep::EmitRecordingStarted => self.events.push("recording_started"),
                SessionStep::EmitRecordingLocked => self.events.push("recording_locked"),
                SessionStep::EmitRecordingStopped => self.events.push("recording_stopped"),
                SessionStep::EmitTranscribing => self.events.push("transcribing"),
                SessionStep::EmitTranscriptionCancelled => {
                    self.events.push("transcription_cancelled")
                }
                _ => {}
            }
        }
    }

    fn dispatch(&mut self, action: KeyEventAction) {
        match action {
            KeyEventAction::Nothing => {}
            KeyEventAction::Start { mode, via_release_lock, .. } => {
                let plan = self.orchestrator.on_hotkey_start(mode, via_release_lock);
                self.record_plan(&plan);
            }
            KeyEventAction::Stop { mode, is_release_mode } => {
                let plan = self.orchestrator.on_hotkey_stop(mode, is_release_mode);
                self.record_plan(&plan);
                if !plan.is_empty() {
                    self.orchestrator.finish_processing();
                }
            }
        }
    }

    fn press(&mut self, key: HotkeyKey) {
        let action = self.engine.handle_key_press(key, false);
        self.dispatch(action);
    }

    fn release(&mut self, key: HotkeyKey) {
        let action = self.engine.handle_key_release(key);
        self.dispatch(action);
    }
}

#[test]
fn basic_press_to_talk_dictation() {
    // hold the dictation chord, speak, release: started, stopped,
    // transcribing, and a completed normal-mode result
    let mut h = Harness::new(false);
    h.press(HotkeyKey::ControlLeft);
    h.press(HotkeyKey::MetaLeft);
    h.release(HotkeyKey::MetaLeft);
    assert_eq!(h.events, vec!["recording_started", "recording_stopped", "transcribing"]);
    // the recognizer returned silence-free text, no rewriter is on
    let (text, original, llm_ms) =
        NormalPipeline::resolve_polish(&"hello".to_string(), &None, 0);
    let result =
        PipelineResult::success(text, original, 300, llm_ms, TranscriptionMode::Normal, true);
    assert_eq!(result.mode, TranscriptionMode::Normal);
    assert!(result.inserted);
    assert_eq!(result.original_text, None);
}

#[test]
fn release_lock_session_cancelled_by_its_chord() {
    // tap the lock chord: started then locked; tap it again: cancelled
    let mut h = Harness::new(true);
    h.press(HotkeyKey::F2);
    h.release(HotkeyKey::F2);
    assert_eq!(h.events, vec!["recording_started", "recording_locked"]);
    h.press(HotkeyKey::F2);
    assert_eq!(
        h.events,
        vec!["recording_started", "recording_locked", "transcription_cancelled"]
    );
    assert!(!h.orchestrator.session_active);
    assert!(!h.engine.state.is_recording);
}

#[test]
fn release_lock_session_committed_by_finish() {
    // tap the lock chord, then commit through the finish command
    let mut h = Harness::new(true);
    h.press(HotkeyKey::F2);
    h.release(HotkeyKey::F2);
    let plan = h.orchestrator.finish_locked_recording().expect("locked session commits");
    h.record_plan(&plan);
    h.orchestrator.finish_processing();
    assert_eq!(
        h.events,
        vec!["recording_started", "recording_locked", "recording_stopped", "transcribing"]
    );
    assert_eq!(h.orchestrator.current_trigger_mode, None);
}

#[test]
fn assistant_session_keeps_dictation_chord_quiet() {
    // the assistant chord runs its own flow; the dictation chord cannot
    // fire while it does
    let mut h = Harness::new(false);
    h.press(HotkeyKey::AltLeft);
    h.press(HotkeyKey::Space);
    assert_eq!(h.events, vec!["recording_started"]);
    h.press(HotkeyKey::ControlLeft);
    h.press(HotkeyKey::MetaLeft);
    assert_eq!(h.events, vec!["recording_started"]);
    h.release(HotkeyKey::Space);
    assert_eq!(h.events, vec!["recording_started", "recording_stopped", "transcribing"]);
    assert_eq!(h.orchestrator.current_trigger_mode, None);
}
