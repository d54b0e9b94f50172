//! The recording-session orchestrator: one process-wide state machine
//! that turns hotkey callbacks and UI commands into ordered plans of
//! steps for the process around it to carry out. The plans pin down the
//! orderings the system depends on: `recording_started` is emitted before
//! `recording_locked`, `recording_stopped` before any pipeline work, the
//! audio-sender task is awaited before the recognizer's final text, and
//! selection capture waits for the user's keys to be released.

use vstd::prelude::*;

use crate::config::AsrProvider;
use crate::config::TriggerMode;

verus! {

/// Milliseconds to wait after the stop edge before synthesizing the copy
/// chord for selection capture, so that it cannot collide with
/// still-held modifiers.
pub const SELECTION_CAPTURE_DELAY_MS: u64 = 100;

/// One step of a session plan, to be carried out in order by the process
/// around the orchestrator.
#[derive(Clone, Copy, Debug, PartialEq, Eq, Structural)]
pub enum SessionStep {
    /// Play the start tone.
    PlayStartTone,
    /// Play the stop tone.
    PlayStopTone,
    /// Emit `recording_started`.
    EmitRecordingStarted,
    /// Emit `recording_locked`.
    EmitRecordingLocked,
    /// Emit `recording_stopped`.
    EmitRecordingStopped,
    /// Emit `transcribing`.
    EmitTranscribing,
    /// Emit `transcription_cancelled`.
    EmitTranscriptionCancelled,
    /// Show the overlay window, centred above the task area.
    ShowOverlay,
    /// Hide the overlay window, with one short retry on error.
    HideOverlay,
    /// Close a recognizer session and abort an audio-sender task left
    /// over from an earlier recording.
    TeardownStaleSession,
    /// Open the streaming recognizer session.
    OpenRecognizerSession,
    /// Start the streaming capturer.
    StartStreamingCapture,
    /// Spawn the task that ferries audio chunks into the session.
    SpawnAudioSender,
    /// Start the batch capturer.
    StartBatchCapture,
    /// Mark the session release-locked.
    SetLocked,
    /// Stop the streaming capturer, keeping the full recording for the
    /// batch fallback.
    StopStreamingCapture,
    /// Stop the batch capturer and take its recording.
    StopBatchCapture,
    /// Wait until the audio-sender task has drained and finished.
    AwaitAudioSender,
    /// Abort the audio-sender task without draining it.
    AbortAudioSender,
    /// Tell the recognizer session that no more audio comes.
    CommitRecognizer,
    /// Wait for the recognizer session's final text.
    AwaitFinalText,
    /// Close the recognizer session without waiting for text.
    CloseRecognizerSession,
    /// Clear the hotkey engine's runtime state.
    ResetHotkeyState,
    /// Wait out the release delay, then capture the selection through the
    /// clipboard guard.
    CaptureSelection,
    /// Run the dictation pipeline on the recognized text.
    RunDictationPipeline,
    /// Run the assistant pipeline on the recognized text.
    RunAssistantPipeline,
    /// Transcribe the recorded audio over the batch clients.
    RunBatchTranscription,
    /// Deactivate the hotkey engine.
    DeactivateHotkeys,
    /// Close any open recognizer sessions.
    CloseAllSessions,
    /// Drop capturers, clients and processors.
    ClearComponents,
}

/// Why a lock command was refused.
#[derive(Clone, Copy, Debug, PartialEq, Eq, Structural)]
pub enum LockCommandError {
    /// No release-locked recording is running.
    NotLocked,
    /// Another stop is already being processed.
    AlreadyProcessing,
}

/// Which streaming recognizer a session speaks to.
#[derive(Clone, Copy, Debug, PartialEq, Eq, Structural)]
pub enum StreamingBackend {
    /// The Qwen streaming recognizer; also the fallback choice.
    Qwen,
    /// The Doubao streaming recognizer.
    Doubao,
}

/// What follows the batch capturer's stop.
#[derive(Clone, Copy, Debug, PartialEq, Eq, Structural)]
pub enum CaptureFollowUp {
    /// The capturer delivered a recording: transcribe it.
    Transcribe,
    /// The capturer failed or delivered nothing: report the failure and
    /// hide the overlay; no recognizer is called.
    ReportFailure,
}

/// What to do once the streaming path has delivered or failed.
#[derive(Clone, Copy, Debug, PartialEq, Eq, Structural)]
pub enum StreamFollowUp {
    /// The stream produced text: hand it to the pipeline.
    UseStreamText,
    /// The stream failed but the full recording exists: transcribe it
    /// over the batch clients, racing the fallback where enabled.
    BatchFallback,
    /// The stream failed and no audio was kept: report the error.
    ReportFailure,
}

/// The orchestrator's state: the one component that composes capturers,
/// recognizer sessions, pipelines and the hotkey engine. At most one
/// recording session exists at a time; a second start first tears the
/// old one down.
#[derive(Clone, Copy, Debug)]
pub struct Orchestrator {
    /// Whether the application was started and not yet stopped.
    pub is_running: bool,
    /// Whether capture streams to the recognizer as it records.
    pub use_realtime_asr: bool,
    /// Whether a recording session is in progress.
    pub session_active: bool,
    /// Whether a streaming recognizer session is open.
    pub recognizer_open: bool,
    /// Whether an audio-sender task is alive.
    pub sender_alive: bool,
    /// Which chord started the running session.
    pub current_trigger_mode: Option<TriggerMode>,
    /// Whether the running session is release-locked.
    pub is_recording_locked: bool,
    /// Whether a stop is being processed; serialises the lock commands
    /// against the hotkey-driven stop.
    pub is_processing_stop: bool,
}

impl Orchestrator {
    /// A fresh orchestrator: nothing running, nothing open.
    pub fn new() -> (r: Self)
        ensures
            !r.is_running,
            !r.use_realtime_asr,
            !r.session_active,
            !r.recognizer_open,
            !r.sender_alive,
            r.current_trigger_mode is None,
            !r.is_recording_locked,
            !r.is_processing_stop,
    {
        Orchestrator {
            is_running: false,
            use_realtime_asr: false,
            session_active: false,
            recognizer_open: false,
            sender_alive: false,
            current_trigger_mode: None,
            is_recording_locked: false,
            is_processing_stop: false,
        }
    }

    /// Marks the application started, with the capture mode chosen by
    /// the configuration, and no session in progress.
    pub fn mark_started(&mut self, use_realtime_asr: bool)
        ensures
            final(self).is_running,
            final(self).use_realtime_asr == use_realtime_asr,
            !final(self).session_active,
            !final(self).recognizer_open,
            !final(self).sender_alive,
            final(self).current_trigger_mode is None,
            !final(self).is_recording_locked,
            !final(self).is_processing_stop,
    {
        self.is_running = true;
        self.use_realtime_asr = use_realtime_asr;
        self.session_active = false;
        self.recognizer_open = false;
        self.sender_alive = false;
        self.current_trigger_mode = None;
        self.is_recording_locked = false;
        self.is_processing_stop = false;
    }

    /// The start callback of the hotkey engine. A locked session and a
    /// stopped application ignore the event; otherwise one session
    /// starts: the start tone plays, `recording_started` is emitted and
    /// the overlay shown, capture begins (streaming capture only after a
    /// stale session was torn down and a fresh one opened), and a
    /// release-lock start locks the session and emits `recording_locked`
    /// strictly after `recording_started`.
    pub fn on_hotkey_start(&mut self, mode: TriggerMode, via_release_lock: bool) -> (plan: Vec<
        SessionStep,
    >)
        ensures
            final(self).is_running == old(self).is_running,
            final(self).use_realtime_asr == old(self).use_realtime_asr,
            final(self).is_processing_stop == old(self).is_processing_stop,
            // ignored: locked, or not running
            old(self).is_recording_locked || !old(self).is_running ==> plan@ =~= Seq::<
                SessionStep,
            >::empty() && *final(self) == *old(self),
            // at most one session at a time: a start while one is active
            // only replaces it after the teardown step
            ({
                let starting = !old(self).is_recording_locked && old(self).is_running;
                let locking = via_release_lock && mode == TriggerMode::Dictation;
                &&& starting && old(self).use_realtime_asr && !locking ==> plan@ =~= seq![
                    SessionStep::PlayStartTone,
                    SessionStep::EmitRecordingStarted,
                    SessionStep::ShowOverlay,
                    SessionStep::TeardownStaleSession,
                    SessionStep::OpenRecognizerSession,
                    SessionStep::StartStreamingCapture,
                    SessionStep::SpawnAudioSender,
                ]
                &&& starting && old(self).use_realtime_asr && locking ==> plan@ =~= seq![
                    SessionStep::PlayStartTone,
                    SessionStep::EmitRecordingStarted,
                    SessionStep::ShowOverlay,
                    SessionStep::TeardownStaleSession,
                    SessionStep::OpenRecognizerSession,
                    SessionStep::StartStreamingCapture,
                    SessionStep::SpawnAudioSender,
                    SessionStep::SetLocked,
                    SessionStep::EmitRecordingLocked,
                ]
                &&& starting && !old(self).use_realtime_asr && !locking ==> plan@ =~= seq![
                    SessionStep::PlayStartTone,
                    SessionStep::EmitRecordingStarted,
                    SessionStep::ShowOverlay,
                    SessionStep::StartBatchCapture,
                ]
                &&& starting && !old(self).use_realtime_asr && locking ==> plan@ =~= seq![
                    SessionStep::PlayStartTone,
                    SessionStep::EmitRecordingStarted,
                    SessionStep::ShowOverlay,
                    SessionStep::StartBatchCapture,
                    SessionStep::SetLocked,
                    SessionStep::EmitRecordingLocked,
                ]
                &&& starting ==> final(self).session_active && final(self).current_trigger_mode
                    == Some(mode) && final(self).recognizer_open == old(self).use_realtime_asr
                    && final(self).sender_alive == old(self).use_realtime_asr && final(self).is_recording_locked == locking
            }),
            // `recording_locked` never precedes `recording_started`
            forall|i: int, j: int|
                0 <= i < plan@.len() && 0 <= j < plan@.len() && plan@[i]
                    == SessionStep::EmitRecordingStarted && plan@[j]
                    == SessionStep::EmitRecordingLocked ==> i < j,
    {
        if self.is_recording_locked || !self.is_running {
            let plan: Vec<SessionStep> = Vec::new();
            proof {
                assert(plan@ =~= Seq::<SessionStep>::empty());
            }
            return plan;
        }
        let locking = via_release_lock && mode == TriggerMode::Dictation;
        let mut plan: Vec<SessionStep> = Vec::new();
        plan.push(SessionStep::PlayStartTone);
        plan.push(SessionStep::EmitRecordingStarted);
        plan.push(SessionStep::ShowOverlay);
        if self.use_realtime_asr {
            plan.push(SessionStep::TeardownStaleSession);
            plan.push(SessionStep::OpenRecognizerSession);
            plan.push(SessionStep::StartStreamingCapture);
            plan.push(SessionStep::SpawnAudioSender);
        } else {
            plan.push(SessionStep::StartBatchCapture);
        }
        if locking {
            plan.push(SessionStep::SetLocked);
            plan.push(SessionStep::EmitRecordingLocked);
        }
        self.session_active = true;
        self.current_trigger_mode = Some(mode);
        self.recognizer_open = self.use_realtime_asr;
        self.sender_alive = self.use_realtime_asr;
        self.is_recording_locked = locking;
        plan
    }

    /// The steps that drain the streaming path on a dictation stop: the
    /// capturer is stopped (keeping the full recording), the audio
    /// sender is awaited, and only then is the recognizer told to finish
    /// and its final text awaited, so that no orphan sender outlives the
    /// wait for text.
    fn streaming_drain_steps(plan: &mut Vec<SessionStep>)
        ensures
            final(plan)@ =~= old(plan)@ + seq![
                SessionStep::EmitTranscribing,
                SessionStep::StopStreamingCapture,
                SessionStep::AwaitAudioSender,
                SessionStep::CommitRecognizer,
                SessionStep::AwaitFinalText,
            ],
    {
        plan.push(SessionStep::EmitTranscribing);
        plan.push(SessionStep::StopStreamingCapture);
        plan.push(SessionStep::AwaitAudioSender);
        plan.push(SessionStep::CommitRecognizer);
        plan.push(SessionStep::AwaitFinalText);
    }

    /// The stop callback of the hotkey engine. The event is dropped
    /// while the application is stopped, while another stop is already
    /// being processed, and while the session is locked and the event is
    /// an ordinary falling edge. A fresh rising edge of the release-lock
    /// chord (`is_release_mode`) cancels the locked session: no pipeline
    /// runs and `transcription_cancelled` is emitted. Any other
    /// processed stop plays the stop tone, emits `recording_stopped`
    /// before any pipeline work, and runs the mode's drain-and-process
    /// steps; in the streaming drain the audio sender is awaited
    /// strictly before the final text. Every processed stop — ordinary
    /// or cancelling — takes the processing flag; the driver releases it
    /// through `finish_processing` once the plan was carried out.
    pub fn on_hotkey_stop(&mut self, mode: TriggerMode, is_release_mode: bool) -> (plan: Vec<
        SessionStep,
    >)
        ensures
            final(self).is_running == old(self).is_running,
            final(self).use_realtime_asr == old(self).use_realtime_asr,
            // dropped entirely
            !old(self).is_running ==> plan@ =~= Seq::<SessionStep>::empty() && *final(self) == *old(self),
            old(self).is_running && !is_release_mode && old(self).is_recording_locked ==> plan@
                =~= Seq::<SessionStep>::empty() && final(self).is_recording_locked && final(self).session_active == old(self).session_active && final(self).is_processing_stop == old(self).is_processing_stop,
            old(self).is_running && old(self).is_processing_stop ==> plan@ =~= Seq::<
                SessionStep,
            >::empty() && final(self).session_active == old(self).session_active && final(self).is_processing_stop,
            // the lock chord's fresh rising edge cancels, and runs no pipeline
            old(self).is_running && !old(self).is_processing_stop && is_release_mode ==> {
                &&& plan@ =~= seq![
                    SessionStep::StopStreamingCapture,
                    SessionStep::StopBatchCapture,
                    SessionStep::AbortAudioSender,
                    SessionStep::CloseRecognizerSession,
                    SessionStep::HideOverlay,
                    SessionStep::EmitTranscriptionCancelled,
                ]
                &&& !final(self).is_recording_locked
                &&& !final(self).session_active
                &&& !final(self).recognizer_open
                &&& !final(self).sender_alive
                &&& final(self).current_trigger_mode is None
                &&& final(self).is_processing_stop
            },
            // processed
            ({
                let processed = old(self).is_running && !is_release_mode && !old(self).is_recording_locked && !old(self).is_processing_stop;
                &&& processed && mode == TriggerMode::Dictation && old(self).use_realtime_asr
                    ==> plan@ =~= seq![
                    SessionStep::PlayStopTone,
                    SessionStep::EmitRecordingStopped,
                    SessionStep::EmitTranscribing,
                    SessionStep::StopStreamingCapture,
                    SessionStep::AwaitAudioSender,
                    SessionStep::CommitRecognizer,
                    SessionStep::AwaitFinalText,
                    SessionStep::RunDictationPipeline,
                ]
                &&& processed && mode == TriggerMode::Dictation && !old(self).use_realtime_asr
                    ==> plan@ =~= seq![
                    SessionStep::PlayStopTone,
                    SessionStep::EmitRecordingStopped,
                    SessionStep::StopBatchCapture,
                    SessionStep::EmitTranscribing,
                    SessionStep::RunBatchTranscription,
                    SessionStep::RunDictationPipeline,
                ]
                &&& processed && mode == TriggerMode::AiAssistant && old(self).use_realtime_asr
                    ==> plan@ =~= seq![
                    SessionStep::PlayStopTone,
                    SessionStep::EmitRecordingStopped,
                    SessionStep::CaptureSelection,
                    SessionStep::EmitTranscribing,
                    SessionStep::StopStreamingCapture,
                    SessionStep::AwaitAudioSender,
                    SessionStep::CommitRecognizer,
                    SessionStep::AwaitFinalText,
                    SessionStep::RunAssistantPipeline,
                ]
                &&& processed && mode == TriggerMode::AiAssistant && !old(self).use_realtime_asr
                    ==> plan@ =~= seq![
                    SessionStep::PlayStopTone,
                    SessionStep::EmitRecordingStopped,
                    SessionStep::CaptureSelection,
                    SessionStep::StopBatchCapture,
                    SessionStep::EmitTranscribing,
                    SessionStep::RunBatchTranscription,
                    SessionStep::RunAssistantPipeline,
                ]
                &&& processed ==> !final(self).session_active && !final(self).is_recording_locked
                    && !final(self).recognizer_open && !final(self).sender_alive && final(self).current_trigger_mode is None && final(self).is_processing_stop
            }),
            // `recording_stopped` is emitted exactly when an ordinary stop
            // is processed; a drop and a cancellation emit none
            plan@.contains(SessionStep::EmitRecordingStopped) <==> (old(self).is_running
                && !is_release_mode && !old(self).is_recording_locked && !old(
                self,
            ).is_processing_stop),
            // no orphan sender: the sender is awaited before the final text
            forall|i: int, j: int|
                0 <= i < plan@.len() && 0 <= j < plan@.len() && plan@[i]
                    == SessionStep::AwaitAudioSender && plan@[j] == SessionStep::AwaitFinalText
                    ==> i < j,
            // pipeline work strictly follows the stop emission
            forall|i: int, j: int|
                0 <= i < plan@.len() && 0 <= j < plan@.len() && plan@[i]
                    == SessionStep::EmitRecordingStopped && (plan@[j]
                    == SessionStep::RunDictationPipeline || plan@[j]
                    == SessionStep::RunAssistantPipeline) ==> i < j,
    {
        if !self.is_running {
            let plan: Vec<SessionStep> = Vec::new();
            proof {
                assert(plan@ =~= Seq::<SessionStep>::empty());
            }
            return plan;
        }
        if !is_release_mode && self.is_recording_locked {
            let plan: Vec<SessionStep> = Vec::new();
            proof {
                assert(plan@ =~= Seq::<SessionStep>::empty());
            }
            return plan;
        }
        if self.is_processing_stop {
            let plan: Vec<SessionStep> = Vec::new();
            proof {
                assert(plan@ =~= Seq::<SessionStep>::empty());
            }
            return plan;
        }
        self.is_processing_stop = true;
        if is_release_mode {
            self.is_recording_locked = false;
            self.current_trigger_mode = None;
            return self.cancel_transcription();
        }

        let mut plan: Vec<SessionStep> = Vec::new();
        plan.push(SessionStep::PlayStopTone);
        plan.push(SessionStep::EmitRecordingStopped);
        match mode {
            TriggerMode::Dictation => {
                if self.use_realtime_asr {
                    Self::streaming_drain_steps(&mut plan);
                } else {
                    plan.push(SessionStep::StopBatchCapture);
                    plan.push(SessionStep::EmitTranscribing);
                    plan.push(SessionStep::RunBatchTranscription);
                }
                plan.push(SessionStep::RunDictationPipeline);
            },
            TriggerMode::AiAssistant => {
                plan.push(SessionStep::CaptureSelection);
                if self.use_realtime_asr {
                    Self::streaming_drain_steps(&mut plan);
                } else {
                    plan.push(SessionStep::StopBatchCapture);
                    plan.push(SessionStep::EmitTranscribing);
                    plan.push(SessionStep::RunBatchTranscription);
                }
                plan.push(SessionStep::RunAssistantPipeline);
            },
        }
        self.session_active = false;
        self.is_recording_locked = false;
        self.recognizer_open = false;
        self.sender_alive = false;
        self.current_trigger_mode = None;
        proof {
            assert(plan@[1] == SessionStep::EmitRecordingStopped);
            assert(plan@.contains(SessionStep::EmitRecordingStopped));
        }
        plan
    }

    /// What follows the streaming drain, given whether the stream
    /// produced text and whether the full recording was kept: the text
    /// is used when it came; a kept recording covers a failed stream
    /// through the batch race; with neither, the failure is reported.
    pub fn stream_follow_up(&self, stream_ok: bool, wav_available: bool) -> (r: StreamFollowUp)
        ensures
            stream_ok ==> r == StreamFollowUp::UseStreamText,
            !stream_ok && wav_available ==> r == StreamFollowUp::BatchFallback,
            !stream_ok && !wav_available ==> r == StreamFollowUp::ReportFailure,
    {
        if stream_ok {
            StreamFollowUp::UseStreamText
        } else if wav_available {
            StreamFollowUp::BatchFallback
        } else {
            StreamFollowUp::ReportFailure
        }
    }

    /// Which streaming backend `OpenRecognizerSession` opens: the Doubao
    /// recognizer exactly when it is the configured primary provider,
    /// and the Qwen recognizer for every other provider.
    pub fn select_streaming_backend(&self, primary_provider: AsrProvider) -> (r: StreamingBackend)
        ensures
            r == StreamingBackend::Doubao <==> primary_provider == AsrProvider::Doubao,
    {
        match primary_provider {
            AsrProvider::Doubao => StreamingBackend::Doubao,
            _ => StreamingBackend::Qwen,
        }
    }

    /// What follows the batch capturer's stop: a failed or empty capture
    /// aborts the rest of the stop flow — the driver reports the failure
    /// and hides the overlay, and no recognizer is called.
    pub fn capture_follow_up(&self, capture_ok: bool) -> (r: CaptureFollowUp)
        ensures
            capture_ok ==> r == CaptureFollowUp::Transcribe,
            !capture_ok ==> r == CaptureFollowUp::ReportFailure,
    {
        if capture_ok {
            CaptureFollowUp::Transcribe
        } else {
            CaptureFollowUp::ReportFailure
        }
    }

    /// The finish command of a release-locked recording. It is refused
    /// while no locked recording runs and while another stop is already
    /// processing; accepted, it serialises itself by taking the
    /// processing flag, unlocks, resets the hotkey state, and runs the
    /// dictation stop flow.
    pub fn finish_locked_recording(&mut self) -> (r: Result<Vec<SessionStep>, LockCommandError>)
        ensures
            final(self).is_running == old(self).is_running,
            final(self).use_realtime_asr == old(self).use_realtime_asr,
            !old(self).is_recording_locked ==> r == Err::<Vec<SessionStep>, _>(
                LockCommandError::NotLocked,
            ) && *final(self) == *old(self),
            old(self).is_recording_locked && old(self).is_processing_stop ==> r == Err::<
                Vec<SessionStep>,
                _,
            >(LockCommandError::AlreadyProcessing) && *final(self) == *old(self),
            old(self).is_recording_locked && !old(self).is_processing_stop ==> match r {
                Ok(plan) => {
                    &&& old(self).use_realtime_asr ==> plan@ =~= seq![
                        SessionStep::ResetHotkeyState,
                        SessionStep::PlayStopTone,
                        SessionStep::EmitRecordingStopped,
                        SessionStep::EmitTranscribing,
                        SessionStep::StopStreamingCapture,
                        SessionStep::AwaitAudioSender,
                        SessionStep::CommitRecognizer,
                        SessionStep::AwaitFinalText,
                        SessionStep::RunDictationPipeline,
                    ]
                    &&& !old(self).use_realtime_asr ==> plan@ =~= seq![
                        SessionStep::ResetHotkeyState,
                        SessionStep::PlayStopTone,
                        SessionStep::EmitRecordingStopped,
                        SessionStep::StopBatchCapture,
                        SessionStep::EmitTranscribing,
                        SessionStep::RunBatchTranscription,
                        SessionStep::RunDictationPipeline,
                    ]
                    &&& !final(self).is_recording_locked
                    &&& final(self).is_processing_stop
                    &&& !final(self).session_active
                    &&& final(self).current_trigger_mode is None
                },
                Err(_) => false,
            },
    {
        if !self.is_recording_locked {
            return Err(LockCommandError::NotLocked);
        }
        if self.is_processing_stop {
            return Err(LockCommandError::AlreadyProcessing);
        }
        self.is_processing_stop = true;
        self.is_recording_locked = false;

        let mut plan: Vec<SessionStep> = Vec::new();
        plan.push(SessionStep::ResetHotkeyState);
        plan.push(SessionStep::PlayStopTone);
        plan.push(SessionStep::EmitRecordingStopped);
        if self.use_realtime_asr {
            Self::streaming_drain_steps(&mut plan);
        } else {
            plan.push(SessionStep::StopBatchCapture);
            plan.push(SessionStep::EmitTranscribing);
            plan.push(SessionStep::RunBatchTranscription);
        }
        plan.push(SessionStep::RunDictationPipeline);

        self.session_active = false;
        self.recognizer_open = false;
        self.sender_alive = false;
        self.current_trigger_mode = None;
        proof {
            if self.use_realtime_asr {
                assert(plan@ =~= seq![
                    SessionStep::ResetHotkeyState,
                    SessionStep::PlayStopTone,
                    SessionStep::EmitRecordingStopped,
                    SessionStep::EmitTranscribing,
                    SessionStep::StopStreamingCapture,
                    SessionStep::AwaitAudioSender,
                    SessionStep::CommitRecognizer,
                    SessionStep::AwaitFinalText,
                    SessionStep::RunDictationPipeline,
                ]);
            } else {
                assert(plan@ =~= seq![
                    SessionStep::ResetHotkeyState,
                    SessionStep::PlayStopTone,
                    SessionStep::EmitRecordingStopped,
                    SessionStep::StopBatchCapture,
                    SessionStep::EmitTranscribing,
                    SessionStep::RunBatchTranscription,
                    SessionStep::RunDictationPipeline,
                ]);
            }
        }
        Ok(plan)
    }

    /// The cancel command of a release-locked recording: refused under
    /// the same conditions as the finish command; accepted, it takes the
    /// processing flag, unlocks, resets the hotkey state, hides the
    /// overlay, and cancels the in-flight work without running any
    /// pipeline; the driver releases the flag through
    /// `finish_processing`.
    pub fn cancel_locked_recording(&mut self) -> (r: Result<Vec<SessionStep>, LockCommandError>)
        ensures
            final(self).is_running == old(self).is_running,
            !old(self).is_recording_locked ==> r == Err::<Vec<SessionStep>, _>(
                LockCommandError::NotLocked,
            ) && *final(self) == *old(self),
            old(self).is_recording_locked && old(self).is_processing_stop ==> r == Err::<
                Vec<SessionStep>,
                _,
            >(LockCommandError::AlreadyProcessing) && *final(self) == *old(self),
            old(self).is_recording_locked && !old(self).is_processing_stop ==> match r {
                Ok(plan) => {
                    &&& plan@ =~= seq![
                        SessionStep::ResetHotkeyState,
                        SessionStep::HideOverlay,
                        SessionStep::StopStreamingCapture,
                        SessionStep::StopBatchCapture,
                        SessionStep::AbortAudioSender,
                        SessionStep::CloseRecognizerSession,
                        SessionStep::HideOverlay,
                        SessionStep::EmitTranscriptionCancelled,
                    ]
                    &&& !final(self).is_recording_locked
                    &&& !final(self).session_active
                    &&& !final(self).recognizer_open
                    &&& !final(self).sender_alive
                    &&& final(self).current_trigger_mode is None
                    &&& final(self).is_processing_stop
                },
                Err(_) => false,
            },
    {
        if !self.is_recording_locked {
            return Err(LockCommandError::NotLocked);
        }
        if self.is_processing_stop {
            return Err(LockCommandError::AlreadyProcessing);
        }
        self.is_processing_stop = true;
        self.is_recording_locked = false;
        self.current_trigger_mode = None;

        let mut plan: Vec<SessionStep> = Vec::new();
        plan.push(SessionStep::ResetHotkeyState);
        plan.push(SessionStep::HideOverlay);
        let cancel = self.cancel_transcription();
        let mut i: usize = 0;
        while i < cancel.len()
            invariant
                0 <= i <= cancel@.len(),
                plan@ =~= seq![SessionStep::ResetHotkeyState, SessionStep::HideOverlay]
                    + cancel@.subrange(0, i as int),
            decreases cancel@.len() - i,
        {
            plan.push(cancel[i]);
            i = i + 1;
        }
        proof {
            assert(cancel@.subrange(0, cancel@.len() as int) =~= cancel@);
        }
        Ok(plan)
    }

    /// The plain cancel command: stops both capturers, aborts the audio
    /// sender, closes the recognizer session, hides the overlay and
    /// emits `transcription_cancelled`; no pipeline runs and nothing is
    /// inserted.
    pub fn cancel_transcription(&mut self) -> (plan: Vec<SessionStep>)
        ensures
            plan@ =~= seq![
                SessionStep::StopStreamingCapture,
                SessionStep::StopBatchCapture,
                SessionStep::AbortAudioSender,
                SessionStep::CloseRecognizerSession,
                SessionStep::HideOverlay,
                SessionStep::EmitTranscriptionCancelled,
            ],
            final(self).is_running == old(self).is_running,
            final(self).use_realtime_asr == old(self).use_realtime_asr,
            !final(self).session_active,
            !final(self).recognizer_open,
            !final(self).sender_alive,
            final(self).is_recording_locked == old(self).is_recording_locked,
            final(self).current_trigger_mode == old(self).current_trigger_mode,
            final(self).is_processing_stop == old(self).is_processing_stop,
            !plan@.contains(SessionStep::RunDictationPipeline),
            !plan@.contains(SessionStep::RunAssistantPipeline),
    {
        let mut plan: Vec<SessionStep> = Vec::new();
        plan.push(SessionStep::StopStreamingCapture);
        plan.push(SessionStep::StopBatchCapture);
        plan.push(SessionStep::AbortAudioSender);
        plan.push(SessionStep::CloseRecognizerSession);
        plan.push(SessionStep::HideOverlay);
        plan.push(SessionStep::EmitTranscriptionCancelled);
        self.session_active = false;
        self.recognizer_open = false;
        self.sender_alive = false;
        plan
    }

    /// Releases the stop-processing flag once a stop or cancel plan has
    /// been carried out.
    pub fn finish_processing(&mut self)
        ensures
            *final(self) == (Orchestrator { is_processing_stop: false, ..*old(self) }),
    {
        self.is_processing_stop = false;
    }

    /// The stop command of the application: refused while it is not
    /// running; otherwise the hotkey engine is deactivated, sessions are
    /// closed and components dropped.
    pub fn stop_app(&mut self) -> (r: Result<Vec<SessionStep>, ()>)
        ensures
            !old(self).is_running ==> r is Err && *final(self) == *old(self),
            old(self).is_running ==> match r {
                Ok(plan) => {
                    &&& plan@ =~= seq![
                        SessionStep::DeactivateHotkeys,
                        SessionStep::CloseAllSessions,
                        SessionStep::ClearComponents,
                    ]
                    &&& !final(self).is_running
                    &&& !final(self).session_active
                    &&& !final(self).recognizer_open
                    &&& !final(self).sender_alive
                },
                Err(_) => false,
            },
    {
        if !self.is_running {
            return Err(());
        }
        let mut plan: Vec<SessionStep> = Vec::new();
        plan.push(SessionStep::DeactivateHotkeys);
        plan.push(SessionStep::CloseAllSessions);
        plan.push(SessionStep::ClearComponents);
        self.is_running = false;
        self.session_active = false;
        self.recognizer_open = false;
        self.sender_alive = false;
        self.current_trigger_mode = None;
        self.is_recording_locked = false;
        self.is_processing_stop = false;
        Ok(plan)
    }
}

} // verus!

