//! The two pipelines, the clipboard guard, the usage counters and the
//! WAV sample reader.

use push_to_talk::clipboard::ClipboardGuard;
use push_to_talk::clipboard::SELECTION_SENTINEL;
use push_to_talk::clipboard::begin_selection_capture;
use push_to_talk::clipboard::finish_selection_capture;
use push_to_talk::clipboard::insert_text_with_guard;
use push_to_talk::config::TranscriptionMode;
use push_to_talk::pipeline::AssistantPipeline;
use push_to_talk::pipeline::AssistantPipelineError;
use push_to_talk::pipeline::AssistantPromptKind;
use push_to_talk::pipeline::NormalPipeline;
use push_to_talk::pipeline::PipelineResult;
use push_to_talk::pipeline::PipelineStep;
use push_to_talk::pipeline::TranscriptionContext;
use push_to_talk::stats::UsageStats;
use push_to_talk::wav::WavError;
use push_to_talk::wav::extract_pcm_from_wav;

#[test]
fn test_pipeline_creation() {
    let _pipeline = NormalPipeline::new();
}

#[test]
fn assistant_test_pipeline_creation() {
    let _pipeline = AssistantPipeline::new();
}

#[test]
fn dictation_hides_overlay_before_insertion() {
    let pipeline = NormalPipeline::new();
    let plan = pipeline.steps(true);
    let hide = plan.iter().position(|s| *s == PipelineStep::HideOverlay).unwrap();
    let wait = plan.iter().position(|s| *s == PipelineStep::WaitFocusSettle).unwrap();
    let insert = plan.iter().position(|s| *s == PipelineStep::InsertText).unwrap();
    assert!(hide < wait && wait < insert);
    let bare = pipeline.steps(false);
    assert_eq!(
        bare,
        vec![PipelineStep::HideOverlay, PipelineStep::WaitFocusSettle, PipelineStep::InsertText]
    );
}

#[test]
fn polish_success_replaces_text_and_keeps_original() {
    // the recognizer returned "hello  world." which the client stripped to
    // "hello  world"; the rewriter polishes it
    let outcome = Some(Ok("Hello, world.".to_string()));
    let (text, original, llm_ms) =
        NormalPipeline::resolve_polish(&"hello  world".to_string(), &outcome, 42);
    assert_eq!(text, "Hello, world.");
    assert_eq!(original, Some("hello  world".to_string()));
    assert_eq!(llm_ms, Some(42));
}

#[test]
fn polish_failure_falls_back_to_raw_text() {
    let outcome = Some(Err("llm down".to_string()));
    let (text, original, llm_ms) =
        NormalPipeline::resolve_polish(&"raw text".to_string(), &outcome, 42);
    assert_eq!(text, "raw text");
    assert_eq!(original, None);
    assert_eq!(llm_ms, None);
    let (text2, original2, llm2) = NormalPipeline::resolve_polish(&"raw text".to_string(), &None, 7);
    assert_eq!(text2, "raw text");
    assert_eq!(original2, None);
    assert_eq!(llm2, None);
}

#[test]
fn pipeline_result_totals_the_times() {
    let r = PipelineResult::success(
        "t".to_string(),
        None,
        120,
        Some(30),
        TranscriptionMode::Normal,
        true,
    );
    assert_eq!(r.total_time_ms, 150);
    assert!(r.inserted);
    let r2 = PipelineResult::success("t".to_string(), None, 120, None, TranscriptionMode::Normal, false);
    assert_eq!(r2.total_time_ms, 120);
}

#[test]
fn insertion_success_needs_an_injector() {
    assert!(NormalPipeline::insert_text(true, true));
    assert!(!NormalPipeline::insert_text(false, true));
    assert!(!NormalPipeline::insert_text(true, false));
    assert!(AssistantPipeline::insert_result(true));
    assert!(!AssistantPipeline::insert_result(false));
}

#[test]
fn assistant_requires_its_processor() {
    assert_eq!(AssistantPipeline::check_processor(true), Ok(()));
    assert_eq!(
        AssistantPipeline::check_processor(false),
        Err(AssistantPipelineError::MissingProcessor)
    );
}

#[test]
fn assistant_prompt_follows_the_selection() {
    let with = TranscriptionContext { selected_text: Some("teh cat".to_string()) };
    assert_eq!(AssistantPipeline::select_prompt(&with), AssistantPromptKind::TextProcessing);
    let without = TranscriptionContext::empty();
    assert_eq!(AssistantPipeline::select_prompt(&without), AssistantPromptKind::QuestionAnswer);
}

#[test]
fn assistant_result_keeps_the_instruction() {
    let r = AssistantPipeline::compose_result(
        "fix typos".to_string(),
        "the cat".to_string(),
        200,
        90,
        true,
    );
    assert_eq!(r.text, "the cat");
    assert_eq!(r.original_text, Some("fix typos".to_string()));
    assert_eq!(r.mode, TranscriptionMode::Assistant);
    assert_eq!(r.total_time_ms, 290);
}

#[test]
fn assistant_steps_restore_clipboard_after_paste() {
    let pipeline = AssistantPipeline::new();
    let plan = pipeline.steps();
    let insert = plan.iter().position(|s| *s == PipelineStep::InsertText).unwrap();
    let restore = plan.iter().position(|s| *s == PipelineStep::RestoreClipboard).unwrap();
    assert!(insert < restore);
}

#[test]
fn clipboard_round_trip_over_an_assistant_cycle() {
    // the user's clipboard holds "X"; the cycle captures "teh cat" and
    // pastes "the cat"; afterwards the clipboard holds "X" again
    let mut clipboard = "X".to_string();
    let guard = begin_selection_capture(&mut clipboard);
    assert_eq!(clipboard, SELECTION_SENTINEL);
    // the synthetic copy replaced the sentinel with the selection
    clipboard = "teh cat".to_string();
    let selection = finish_selection_capture(&clipboard);
    assert_eq!(selection, Some("teh cat".to_string()));
    insert_text_with_guard(&mut clipboard, &"the cat".to_string(), guard);
    assert_eq!(clipboard, "X");
}

#[test]
fn selection_capture_reports_no_selection() {
    let mut clipboard = "before".to_string();
    let guard = begin_selection_capture(&mut clipboard);
    // the copy changed nothing: the sentinel is still there
    let selection = finish_selection_capture(&clipboard);
    assert_eq!(selection, None);
    let restored = guard.restore();
    assert_eq!(restored, "before");
}

#[test]
fn clipboard_guard_restores_verbatim() {
    let guard = ClipboardGuard::acquire("snapshot content".to_string());
    assert_eq!(guard.restore(), "snapshot content");
}

#[test]
fn usage_stats_grow_monotonically() {
    let mut stats = UsageStats::default();
    assert!(stats.update_and_save(1500, 42, true));
    assert_eq!(stats.total_recording_ms, 1500);
    assert_eq!(stats.total_recording_count, 1);
    assert_eq!(stats.total_recognized_chars, 42);
    assert!(stats.update_and_save(500, 8, true));
    assert_eq!(stats.total_recording_ms, 2000);
    assert_eq!(stats.total_recording_count, 2);
    assert_eq!(stats.total_recognized_chars, 50);
}

#[test]
fn usage_stats_roll_back_on_failed_save() {
    let mut stats = UsageStats::default();
    stats.update_and_save(1500, 42, true);
    let before = stats;
    assert!(!stats.update_and_save(700, 9, false));
    assert_eq!(stats, before);
}

fn wav_bytes(samples: &[i16]) -> Vec<u8> {
    let data_len = (samples.len() * 2) as u32;
    let mut out: Vec<u8> = Vec::new();
    out.extend_from_slice(b"RIFF");
    out.extend_from_slice(&(36 + data_len).to_le_bytes());
    out.extend_from_slice(b"WAVE");
    out.extend_from_slice(b"fmt ");
    out.extend_from_slice(&16u32.to_le_bytes());
    out.extend_from_slice(&[1, 0, 1, 0]); // PCM, mono
    out.extend_from_slice(&16000u32.to_le_bytes());
    out.extend_from_slice(&32000u32.to_le_bytes());
    out.extend_from_slice(&[2, 0, 16, 0]); // block align, bits
    out.extend_from_slice(b"data");
    out.extend_from_slice(&data_len.to_le_bytes());
    for s in samples {
        out.extend_from_slice(&s.to_le_bytes());
    }
    out
}

#[test]
fn wav_samples_round_trip() {
    let samples: Vec<i16> = vec![0, 1, -1, 32767, -32768, 256];
    let wav = wav_bytes(&samples);
    assert_eq!(extract_pcm_from_wav(&wav), Ok(samples));
}

#[test]
fn wav_rejections_name_the_fault() {
    assert_eq!(extract_pcm_from_wav(&vec![1, 2, 3]), Err(WavError::TooShort));
    let mut not_riff = wav_bytes(&[1, 2]);
    not_riff[0] = b'X';
    assert_eq!(extract_pcm_from_wav(&not_riff), Err(WavError::NotRiff));
    let mut not_wave = wav_bytes(&[1, 2]);
    not_wave[8] = b'X';
    assert_eq!(extract_pcm_from_wav(&not_wave), Err(WavError::NotWave));
    let mut truncated = wav_bytes(&[1, 2, 3, 4]);
    truncated.truncate(truncated.len() - 2);
    assert_eq!(extract_pcm_from_wav(&truncated), Err(WavError::BadDataChunk));
    let mut no_data = wav_bytes(&[1, 2]);
    no_data[36] = b'x'; // the data tag is gone and the scan runs off the end
    assert_eq!(extract_pcm_from_wav(&no_data), Err(WavError::NoDataChunk));
}

#[test]
fn wav_skips_foreign_chunks() {
    // a LIST chunk with an odd body sits between fmt and data
    let mut out: Vec<u8> = Vec::new();
    out.extend_from_slice(b"RIFF");
    out.extend_from_slice(&0u32.to_le_bytes());
    out.extend_from_slice(b"WAVE");
    out.extend_from_slice(b"LIST");
    out.extend_from_slice(&3u32.to_le_bytes());
    out.extend_from_slice(&[9, 9, 9, 0]); // odd body plus its padding byte
    out.extend_from_slice(b"data");
    out.extend_from_slice(&4u32.to_le_bytes());
    out.extend_from_slice(&[1, 0, 2, 0]);
    assert_eq!(extract_pcm_from_wav(&out), Ok(vec![1i16, 2i16]));
}

#[test]
fn failure_plan_hides_overlay_and_restores_clipboard() {
    let plan = push_to_talk::pipeline::pipeline_failure_steps();
    assert_eq!(plan, vec![PipelineStep::HideOverlay, PipelineStep::RestoreClipboard]);
}

#[test]
fn wav_writer_round_trips_through_the_reader() {
    let samples: Vec<i16> = vec![0, 1, -1, 32767, -32768, 256, -257];
    let wav = push_to_talk::wav::wav_from_samples(&samples);
    assert_eq!(wav.len(), 44 + 2 * samples.len());
    assert_eq!(extract_pcm_from_wav(&wav), Ok(samples.clone()));
    // and it frames byte-for-byte as the capture format prescribes
    assert_eq!(wav, wav_bytes(&samples));
    let empty = push_to_talk::wav::wav_from_samples(&Vec::new());
    assert_eq!(extract_pcm_from_wav(&empty), Ok(Vec::new()));
}
