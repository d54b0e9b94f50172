//! The post-recognition pipelines: plain dictation with its optional
//! rewriter, and the assistant flow that feeds the recognized
//! instruction and an optional selection to the language model. The
//! pipelines decide and order; the rewriter call, the overlay and the
//! synthetic paste are performed around them, with the rule that the
//! overlay is hidden and the focus settled strictly before any paste.

use vstd::prelude::*;

use crate::config::TranscriptionMode;

verus! {

/// Milliseconds between hiding the overlay and synthesizing the paste,
/// so that focus has returned to the target application.
pub const FOCUS_SETTLE_DELAY_MS: u64 = 150;

/// One step of a pipeline plan, carried out in order.
#[derive(Clone, Copy, Debug, PartialEq, Eq, Structural)]
pub enum PipelineStep {
    /// Emit `post_processing`.
    EmitPostProcessing,
    /// Call the rewriter and time it.
    RunRewriter,
    /// Hide the overlay window.
    HideOverlay,
    /// Sleep `FOCUS_SETTLE_DELAY_MS` for focus to return.
    WaitFocusSettle,
    /// Place the text on the clipboard and synthesize the paste.
    InsertText,
    /// Let the clipboard guard restore its snapshot.
    RestoreClipboard,
}

/// What one cycle produced, as reported in `transcription_complete`.
#[derive(Clone, Debug)]
pub struct PipelineResult {
    /// The text that was (or would have been) inserted.
    pub text: String,
    /// The recognizer's raw text, kept only when a rewriter changed it.
    pub original_text: Option<String>,
    /// Milliseconds from the stop edge to the recognized text.
    pub asr_time_ms: u64,
    /// Milliseconds the rewriter took, when it ran.
    pub llm_time_ms: Option<u64>,
    /// The two above, together.
    pub total_time_ms: u64,
    /// Which pipeline produced the result.
    pub mode: TranscriptionMode,
    /// Whether the synthetic paste succeeded.
    pub inserted: bool,
}

/// The milliseconds a result's rewriter stage took, or zero.
pub open spec fn spec_llm_ms(llm_time_ms: Option<u64>) -> int {
    match llm_time_ms {
        Some(t) => t as int,
        None => 0,
    }
}

impl PipelineResult {
    /// Assembles a result; the total time is the recognition time plus
    /// the rewriter time, where one ran.
    pub fn success(
        text: String,
        original_text: Option<String>,
        asr_time_ms: u64,
        llm_time_ms: Option<u64>,
        mode: TranscriptionMode,
        inserted: bool,
    ) -> (r: PipelineResult)
        requires
            asr_time_ms + spec_llm_ms(llm_time_ms) <= u64::MAX,
        ensures
            r.text == text,
            r.original_text == original_text,
            r.asr_time_ms == asr_time_ms,
            r.llm_time_ms == llm_time_ms,
            r.total_time_ms == asr_time_ms + spec_llm_ms(llm_time_ms),
            r.mode == mode,
            r.inserted == inserted,
    {
        let llm_ms: u64 = match llm_time_ms {
            Some(t) => t,
            None => 0,
        };
        let total_time_ms = asr_time_ms + llm_ms;
        PipelineResult { text, original_text, asr_time_ms, llm_time_ms, total_time_ms, mode, inserted }
    }
}

/// What a pipeline invocation carries besides the recognized text.
#[derive(Clone, Debug)]
pub struct TranscriptionContext {
    /// The selection captured before the assistant pipeline ran, if any.
    pub selected_text: Option<String>,
}

impl TranscriptionContext {
    /// A context with nothing captured.
    pub fn empty() -> (r: Self)
        ensures
            r.selected_text is None,
    {
        TranscriptionContext { selected_text: None }
    }
}

/// The steps of a pipeline run that fails after the stop was emitted —
/// a failed transcription or a failed model call: the failure is
/// reported, the overlay is hidden so that focus returns, and the
/// clipboard guard's snapshot is written back — the restore happens on
/// this exit path as on every other.
pub fn pipeline_failure_steps() -> (plan: Vec<PipelineStep>)
    ensures
        plan@ =~= seq![PipelineStep::HideOverlay, PipelineStep::RestoreClipboard],
{
    let mut plan: Vec<PipelineStep> = Vec::new();
    plan.push(PipelineStep::HideOverlay);
    plan.push(PipelineStep::RestoreClipboard);
    plan
}

// ===========================================================================
// Dictation
// ===========================================================================

/// The dictation pipeline: recognized text, optionally polished by the
/// rewriter, inserted at the cursor. Stateless; everything comes in as
/// arguments.
#[derive(Clone, Copy, Debug)]
pub struct NormalPipeline;

impl NormalPipeline {
    /// A dictation pipeline.
    pub fn new() -> (r: Self) {
        NormalPipeline
    }

    /// The ordered steps of one dictation run: the rewriter, where one is
    /// configured, runs first under the `post_processing` event; the
    /// overlay is hidden and focus settled strictly before the insertion.
    pub fn steps(&self, has_rewriter: bool) -> (plan: Vec<PipelineStep>)
        ensures
            has_rewriter ==> plan@ =~= seq![
                PipelineStep::EmitPostProcessing,
                PipelineStep::RunRewriter,
                PipelineStep::HideOverlay,
                PipelineStep::WaitFocusSettle,
                PipelineStep::InsertText,
            ],
            !has_rewriter ==> plan@ =~= seq![
                PipelineStep::HideOverlay,
                PipelineStep::WaitFocusSettle,
                PipelineStep::InsertText,
            ],
            // the paste is strictly after the focus-settle wait, which is
            // strictly after the overlay hide
            forall|i: int, j: int|
                0 <= i < plan@.len() && 0 <= j < plan@.len() && plan@[i] == PipelineStep::HideOverlay
                    && plan@[j] == PipelineStep::InsertText ==> i < j,
            forall|i: int, j: int|
                0 <= i < plan@.len() && 0 <= j < plan@.len() && plan@[i]
                    == PipelineStep::WaitFocusSettle && plan@[j] == PipelineStep::InsertText ==> i
                    < j,
    {
        let mut plan: Vec<PipelineStep> = Vec::new();
        if has_rewriter {
            plan.push(PipelineStep::EmitPostProcessing);
            plan.push(PipelineStep::RunRewriter);
        }
        plan.push(PipelineStep::HideOverlay);
        plan.push(PipelineStep::WaitFocusSettle);
        plan.push(PipelineStep::InsertText);
        plan
    }

    /// The polish decision, given the rewriter call's outcome: a
    /// successful polish replaces the text and keeps the original beside
    /// it with the rewriter's time; a failed or absent rewriter leaves
    /// the recognized text exactly as it was.
    pub fn resolve_polish(
        asr_text: &String,
        polish_outcome: &Option<Result<String, String>>,
        llm_elapsed_ms: u64,
    ) -> (r: (String, Option<String>, Option<u64>))
        ensures
            polish_outcome matches Some(Ok(polished)) ==> r.0@ == polished@ && (r.1 matches Some(o)
                && o@ == asr_text@) && r.2 == Some(llm_elapsed_ms),
            !(polish_outcome matches Some(Ok(_))) ==> r.0@ == asr_text@ && r.1 is None && r.2
                is None,
    {
        match polish_outcome {
            Some(Ok(polished)) => (polished.clone(), Some(asr_text.clone()), Some(llm_elapsed_ms)),
            _ => (asr_text.clone(), None, None),
        }
    }

    /// Whether the insertion succeeded: it did exactly when an injector
    /// existed and its paste went through.
    pub fn insert_text(inserter_available: bool, paste_succeeded: bool) -> (r: bool)
        ensures
            r == (inserter_available && paste_succeeded),
    {
        inserter_available && paste_succeeded
    }
}

impl Default for NormalPipeline {
    /// Same as `new`.
    fn default() -> (r: Self) {
        NormalPipeline::new()
    }
}

// ===========================================================================
// Assistant
// ===========================================================================

/// Which of the assistant's two request shapes applies.
#[derive(Clone, Copy, Debug, PartialEq, Eq, Structural)]
pub enum AssistantPromptKind {
    /// A selection exists: process it under the spoken instruction.
    TextProcessing,
    /// No selection: answer the spoken question.
    QuestionAnswer,
}

/// Why the assistant pipeline refused to run.
#[derive(Clone, Copy, Debug, PartialEq, Eq, Structural)]
pub enum AssistantPipelineError {
    /// No language model is configured; the assistant has no fallback.
    MissingProcessor,
}

/// The assistant pipeline: the recognized instruction, with the captured
/// selection as context where one exists, goes through the language
/// model, and the answer replaces the selection or lands at the cursor.
/// Stateless; everything comes in as arguments.
#[derive(Clone, Copy, Debug)]
pub struct AssistantPipeline;

impl AssistantPipeline {
    /// An assistant pipeline.
    pub fn new() -> (r: Self) {
        AssistantPipeline
    }

    /// The assistant cannot run without its language model; dictation
    /// degrades, the assistant refuses.
    pub fn check_processor(has_processor: bool) -> (r: Result<(), AssistantPipelineError>)
        ensures
            r is Ok <==> has_processor,
            !has_processor ==> r == Err::<(), _>(AssistantPipelineError::MissingProcessor),
    {
        if has_processor {
            Ok(())
        } else {
            Err(AssistantPipelineError::MissingProcessor)
        }
    }

    /// Which request shape the captured selection dictates.
    pub fn select_prompt(context: &TranscriptionContext) -> (r: AssistantPromptKind)
        ensures
            r == AssistantPromptKind::TextProcessing <==> context.selected_text is Some,
            r == AssistantPromptKind::QuestionAnswer <==> context.selected_text is None,
    {
        match &context.selected_text {
            Some(_) => AssistantPromptKind::TextProcessing,
            None => AssistantPromptKind::QuestionAnswer,
        }
    }

    /// The ordered steps of one assistant run: the model call under the
    /// `post_processing` event, then overlay hide, focus settle, paste,
    /// and the guard's clipboard restore, in that order.
    pub fn steps(&self) -> (plan: Vec<PipelineStep>)
        ensures
            plan@ =~= seq![
                PipelineStep::EmitPostProcessing,
                PipelineStep::RunRewriter,
                PipelineStep::HideOverlay,
                PipelineStep::WaitFocusSettle,
                PipelineStep::InsertText,
                PipelineStep::RestoreClipboard,
            ],
            forall|i: int, j: int|
                0 <= i < plan@.len() && 0 <= j < plan@.len() && plan@[i] == PipelineStep::HideOverlay
                    && plan@[j] == PipelineStep::InsertText ==> i < j,
            forall|i: int, j: int|
                0 <= i < plan@.len() && 0 <= j < plan@.len() && plan@[i] == PipelineStep::InsertText
                    && plan@[j] == PipelineStep::RestoreClipboard ==> i < j,
    {
        let mut plan: Vec<PipelineStep> = Vec::new();
        plan.push(PipelineStep::EmitPostProcessing);
        plan.push(PipelineStep::RunRewriter);
        plan.push(PipelineStep::HideOverlay);
        plan.push(PipelineStep::WaitFocusSettle);
        plan.push(PipelineStep::InsertText);
        plan.push(PipelineStep::RestoreClipboard);
        plan
    }

    /// Whether the insertion succeeded; the assistant's paste goes
    /// through the clipboard guard, so success is the paste's alone.
    pub fn insert_result(paste_succeeded: bool) -> (r: bool)
        ensures
            r == paste_succeeded,
    {
        paste_succeeded
    }

    /// Assembles the assistant's result: the model's answer is the text,
    /// the spoken instruction is kept as the original, and the mode is
    /// the assistant's.
    pub fn compose_result(
        user_instruction: String,
        answer: String,
        asr_time_ms: u64,
        llm_time_ms: u64,
        inserted: bool,
    ) -> (r: PipelineResult)
        requires
            asr_time_ms + llm_time_ms <= u64::MAX,
        ensures
            r.text == answer,
            r.original_text == Some(user_instruction),
            r.asr_time_ms == asr_time_ms,
            r.llm_time_ms == Some(llm_time_ms),
            r.total_time_ms == asr_time_ms + llm_time_ms,
            r.mode == TranscriptionMode::Assistant,
            r.inserted == inserted,
    {
        PipelineResult::success(
            answer,
            Some(user_instruction),
            asr_time_ms,
            Some(llm_time_ms),
            TranscriptionMode::Assistant,
            inserted,
        )
    }
}

impl Default for AssistantPipeline {
    /// Same as `new`.
    fn default() -> (r: Self) {
        AssistantPipeline::new()
    }
}

} // verus!
