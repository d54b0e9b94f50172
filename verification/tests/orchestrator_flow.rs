//! The orchestrator: event ordering, the lock commands, cancellation and
//! the stop/fallback decisions.

use push_to_talk::config::TriggerMode;
use push_to_talk::session::LockCommandError;
use push_to_talk::session::Orchestrator;
use push_to_talk::session::SessionStep;
use push_to_talk::session::StreamFollowUp;

fn running_streaming() -> Orchestrator {
    let mut orch = Orchestrator::new();
    orch.mark_started(true);
    orch
}

fn running_batch() -> Orchestrator {
    let mut orch = Orchestrator::new();
    orch.mark_started(false);
    orch
}

fn index_of(plan: &[SessionStep], step: SessionStep) -> usize {
    plan.iter().position(|s| *s == step).expect("step expected in plan")
}

#[test]
fn start_emits_started_before_locked() {
    let mut orch = running_streaming();
    let plan = orch.on_hotkey_start(TriggerMode::Dictation, true);
    let started = index_of(&plan, SessionStep::EmitRecordingStarted);
    let locked = index_of(&plan, SessionStep::EmitRecordingLocked);
    assert!(started < locked);
    assert!(orch.is_recording_locked);
    assert!(orch.session_active);
}

#[test]
fn start_is_ignored_while_locked() {
    let mut orch = running_streaming();
    orch.on_hotkey_start(TriggerMode::Dictation, true);
    let plan = orch.on_hotkey_start(TriggerMode::AiAssistant, false);
    assert!(plan.is_empty());
    assert_eq!(orch.current_trigger_mode, Some(TriggerMode::Dictation));
}

#[test]
fn start_is_ignored_while_stopped() {
    let mut orch = Orchestrator::new();
    let plan = orch.on_hotkey_start(TriggerMode::Dictation, false);
    assert!(plan.is_empty());
    assert!(!orch.session_active);
}

#[test]
fn batch_start_skips_the_streaming_steps() {
    let mut orch = running_batch();
    let plan = orch.on_hotkey_start(TriggerMode::Dictation, false);
    assert_eq!(
        plan,
        vec![
            SessionStep::PlayStartTone,
            SessionStep::EmitRecordingStarted,
            SessionStep::ShowOverlay,
            SessionStep::StartBatchCapture,
        ]
    );
}

#[test]
fn stop_awaits_sender_before_final_text() {
    let mut orch = running_streaming();
    orch.on_hotkey_start(TriggerMode::Dictation, false);
    let plan = orch.on_hotkey_stop(TriggerMode::Dictation, false);
    let sender = index_of(&plan, SessionStep::AwaitAudioSender);
    let text = index_of(&plan, SessionStep::AwaitFinalText);
    assert!(sender < text, "the audio sender must drain before the final text is awaited");
    let stopped = index_of(&plan, SessionStep::EmitRecordingStopped);
    let pipeline = index_of(&plan, SessionStep::RunDictationPipeline);
    assert!(stopped < pipeline);
    assert!(!orch.session_active);
}

#[test]
fn assistant_stop_captures_selection_before_transcribing() {
    let mut orch = running_streaming();
    orch.on_hotkey_start(TriggerMode::AiAssistant, false);
    let plan = orch.on_hotkey_stop(TriggerMode::AiAssistant, false);
    let capture = index_of(&plan, SessionStep::CaptureSelection);
    let stopped = index_of(&plan, SessionStep::EmitRecordingStopped);
    let pipeline = index_of(&plan, SessionStep::RunAssistantPipeline);
    assert!(stopped < capture);
    assert!(capture < pipeline);
}

#[test]
fn stop_is_dropped_while_locked() {
    let mut orch = running_streaming();
    orch.on_hotkey_start(TriggerMode::Dictation, true);
    let plan = orch.on_hotkey_stop(TriggerMode::Dictation, false);
    assert!(plan.is_empty());
    assert!(orch.is_recording_locked);
    assert!(orch.session_active);
}

#[test]
fn stopped_is_emitted_exactly_when_the_stop_is_processed() {
    let mut orch = running_streaming();
    orch.on_hotkey_start(TriggerMode::Dictation, false);
    let plan = orch.on_hotkey_stop(TriggerMode::Dictation, false);
    assert!(plan.contains(&SessionStep::EmitRecordingStopped));
    let mut stopped_orch = Orchestrator::new();
    let dropped = stopped_orch.on_hotkey_stop(TriggerMode::Dictation, false);
    assert!(!dropped.contains(&SessionStep::EmitRecordingStopped));
}

#[test]
fn lock_chord_rising_edge_cancels_the_session() {
    let mut orch = running_streaming();
    orch.on_hotkey_start(TriggerMode::Dictation, true);
    assert!(orch.is_recording_locked);
    // the engine saw the lock chord rise again and reported the cancel
    let plan = orch.on_hotkey_stop(TriggerMode::Dictation, true);
    assert!(plan.contains(&SessionStep::EmitTranscriptionCancelled));
    assert!(!plan.contains(&SessionStep::EmitRecordingStopped));
    assert!(!plan.contains(&SessionStep::RunDictationPipeline));
    assert!(!orch.is_recording_locked);
    assert!(!orch.session_active);
}

#[test]
fn finish_locked_commits_the_session() {
    let mut orch = running_streaming();
    orch.on_hotkey_start(TriggerMode::Dictation, true);
    let plan = orch.finish_locked_recording().expect("locked session commits");
    assert!(plan.contains(&SessionStep::EmitRecordingStopped));
    assert!(plan.contains(&SessionStep::RunDictationPipeline));
    let sender = index_of(&plan, SessionStep::AwaitAudioSender);
    let text = index_of(&plan, SessionStep::AwaitFinalText);
    assert!(sender < text);
    assert!(!orch.is_recording_locked);
    assert!(orch.is_processing_stop);
    orch.finish_processing();
    assert!(!orch.is_processing_stop);
}

#[test]
fn finish_locked_requires_a_locked_session() {
    let mut orch = running_streaming();
    assert_eq!(orch.finish_locked_recording(), Err(LockCommandError::NotLocked));
}

#[test]
fn finish_locked_is_not_reentrant() {
    let mut orch = running_streaming();
    orch.on_hotkey_start(TriggerMode::Dictation, true);
    orch.finish_locked_recording().expect("first commit accepted");
    // locked again while the first stop still processes
    orch.is_recording_locked = true;
    assert_eq!(orch.finish_locked_recording(), Err(LockCommandError::AlreadyProcessing));
}

#[test]
fn cancel_locked_cancels_without_pipeline() {
    let mut orch = running_streaming();
    orch.on_hotkey_start(TriggerMode::Dictation, true);
    let plan = orch.cancel_locked_recording().expect("locked session cancels");
    assert!(plan.contains(&SessionStep::EmitTranscriptionCancelled));
    assert!(!plan.contains(&SessionStep::RunDictationPipeline));
    assert!(!plan.contains(&SessionStep::EmitRecordingStopped));
    assert!(!orch.is_recording_locked);
    assert!(!orch.session_active);
}

#[test]
fn cancel_transcription_aborts_everything() {
    let mut orch = running_streaming();
    orch.on_hotkey_start(TriggerMode::Dictation, false);
    let plan = orch.cancel_transcription();
    assert_eq!(
        plan,
        vec![
            SessionStep::StopStreamingCapture,
            SessionStep::StopBatchCapture,
            SessionStep::AbortAudioSender,
            SessionStep::CloseRecognizerSession,
            SessionStep::HideOverlay,
            SessionStep::EmitTranscriptionCancelled,
        ]
    );
    assert!(!orch.session_active);
    assert!(!orch.recognizer_open);
    assert!(!orch.sender_alive);
}

#[test]
fn stream_follow_up_prefers_the_stream() {
    let orch = running_streaming();
    assert_eq!(orch.stream_follow_up(true, true), StreamFollowUp::UseStreamText);
    assert_eq!(orch.stream_follow_up(true, false), StreamFollowUp::UseStreamText);
    assert_eq!(orch.stream_follow_up(false, true), StreamFollowUp::BatchFallback);
    assert_eq!(orch.stream_follow_up(false, false), StreamFollowUp::ReportFailure);
}

#[test]
fn stop_app_tears_down_once() {
    let mut orch = running_streaming();
    let plan = orch.stop_app().expect("running application stops");
    assert_eq!(
        plan,
        vec![
            SessionStep::DeactivateHotkeys,
            SessionStep::CloseAllSessions,
            SessionStep::ClearComponents,
        ]
    );
    assert!(!orch.is_running);
    assert!(orch.stop_app().is_err());
}

#[test]
fn press_to_talk_event_order_end_to_end() {
    // press-to-talk dictation over the batch path: started, stopped,
    // transcribing, then the pipeline
    let mut orch = running_batch();
    let start_plan = orch.on_hotkey_start(TriggerMode::Dictation, false);
    assert_eq!(start_plan[1], SessionStep::EmitRecordingStarted);
    assert!(!start_plan.contains(&SessionStep::EmitRecordingLocked));
    let stop_plan = orch.on_hotkey_stop(TriggerMode::Dictation, false);
    let stopped = index_of(&stop_plan, SessionStep::EmitRecordingStopped);
    let transcribing = index_of(&stop_plan, SessionStep::EmitTranscribing);
    let pipeline = index_of(&stop_plan, SessionStep::RunDictationPipeline);
    assert!(stopped < transcribing);
    assert!(transcribing < pipeline);
}

#[test]
fn stop_takes_the_processing_flag_until_released() {
    let mut orch = running_streaming();
    orch.on_hotkey_start(TriggerMode::Dictation, false);
    let plan = orch.on_hotkey_stop(TriggerMode::Dictation, false);
    assert!(!plan.is_empty());
    assert!(orch.is_processing_stop);
    // a second stop while the first is being processed is dropped
    let again = orch.on_hotkey_stop(TriggerMode::Dictation, false);
    assert!(again.is_empty());
    orch.finish_processing();
    assert!(!orch.is_processing_stop);
}

#[test]
fn cancel_locked_takes_the_processing_flag() {
    let mut orch = running_streaming();
    orch.on_hotkey_start(TriggerMode::Dictation, true);
    orch.cancel_locked_recording().expect("locked session cancels");
    assert!(orch.is_processing_stop);
    orch.finish_processing();
    assert!(!orch.is_processing_stop);
}

#[test]
fn capture_follow_up_gates_on_the_recording() {
    let orch = running_batch();
    assert_eq!(orch.capture_follow_up(true), push_to_talk::session::CaptureFollowUp::Transcribe);
    assert_eq!(
        orch.capture_follow_up(false),
        push_to_talk::session::CaptureFollowUp::ReportFailure
    );
}

#[test]
fn streaming_backend_follows_the_primary_provider() {
    let orch = running_streaming();
    assert_eq!(
        orch.select_streaming_backend(push_to_talk::config::AsrProvider::Doubao),
        push_to_talk::session::StreamingBackend::Doubao
    );
    assert_eq!(
        orch.select_streaming_backend(push_to_talk::config::AsrProvider::Qwen),
        push_to_talk::session::StreamingBackend::Qwen
    );
    assert_eq!(
        orch.select_streaming_backend(push_to_talk::config::AsrProvider::SiliconFlow),
        push_to_talk::session::StreamingBackend::Qwen
    );
}
