//! Binding validation, defaults and forward migration.

use push_to_talk::config::AppConfig;
use push_to_talk::config::AsrProvider;
use push_to_talk::config::AssistantConfig;
use push_to_talk::config::DualHotkeyConfig;
use push_to_talk::config::DualHotkeyError;
use push_to_talk::config::HotkeyConfig;
use push_to_talk::config::HotkeyConfigError;
use push_to_talk::config::HotkeyMode;
use push_to_talk::config::SmartCommandConfig;
use push_to_talk::config::TranscriptionMode;
use push_to_talk::config::TriggerMode;
use push_to_talk::config::default_assistant_hotkey;
use push_to_talk::config::default_dictation_hotkey;
use push_to_talk::keys::HotkeyKey;

fn chord(keys: Vec<HotkeyKey>) -> HotkeyConfig {
    HotkeyConfig { keys, mode: HotkeyMode::Press, enable_release_lock: false, release_mode_keys: None }
}

#[test]
fn empty_chord_is_rejected() {
    let c = chord(vec![]);
    assert_eq!(c.validate(), Err(HotkeyConfigError::EmptyKeys));
}

#[test]
fn chord_without_modifier_or_function_key_is_rejected() {
    let c = chord(vec![HotkeyKey::KeyA, HotkeyKey::KeyB]);
    assert_eq!(c.validate(), Err(HotkeyConfigError::MissingModifierOrFunctionKey));
}

#[test]
fn lone_function_key_is_accepted() {
    let c = chord(vec![HotkeyKey::F2]);
    assert_eq!(c.validate(), Ok(()));
}

#[test]
fn five_keys_are_rejected() {
    let c = chord(vec![
        HotkeyKey::ControlLeft,
        HotkeyKey::KeyA,
        HotkeyKey::KeyB,
        HotkeyKey::KeyC,
        HotkeyKey::KeyD,
    ]);
    assert_eq!(c.validate(), Err(HotkeyConfigError::TooManyKeys));
}

#[test]
fn duplicate_keys_are_rejected() {
    let c = chord(vec![HotkeyKey::ControlLeft, HotkeyKey::ControlLeft]);
    assert_eq!(c.validate(), Err(HotkeyConfigError::DuplicateKeys));
}

#[test]
fn release_chord_equal_to_main_is_rejected() {
    let mut c = chord(vec![HotkeyKey::ControlLeft, HotkeyKey::MetaLeft]);
    c.release_mode_keys = Some(vec![HotkeyKey::MetaLeft, HotkeyKey::ControlLeft]);
    assert_eq!(c.validate(), Err(HotkeyConfigError::ReleaseEqualsMain));
}

#[test]
fn release_chord_faults_are_reported() {
    let mut c = chord(vec![HotkeyKey::ControlLeft, HotkeyKey::MetaLeft]);
    c.release_mode_keys = Some(vec![]);
    assert_eq!(c.validate(), Err(HotkeyConfigError::EmptyReleaseKeys));
    c.release_mode_keys = Some(vec![HotkeyKey::KeyA]);
    assert_eq!(c.validate(), Err(HotkeyConfigError::ReleaseMissingModifierOrFunctionKey));
    c.release_mode_keys = Some(vec![HotkeyKey::F2, HotkeyKey::F2]);
    assert_eq!(c.validate(), Err(HotkeyConfigError::DuplicateReleaseKeys));
}

#[test]
fn default_bindings_validate() {
    let dual = DualHotkeyConfig {
        dictation: default_dictation_hotkey(),
        assistant: default_assistant_hotkey(),
    };
    assert_eq!(dual.validate(), Ok(()));
}

#[test]
fn equal_dual_chords_are_rejected() {
    let dual = DualHotkeyConfig {
        dictation: chord(vec![HotkeyKey::ControlLeft, HotkeyKey::Space]),
        assistant: chord(vec![HotkeyKey::Space, HotkeyKey::ControlLeft]),
    };
    assert_eq!(dual.validate(), Err(DualHotkeyError::SameKeys));
}

#[test]
fn subset_dual_chords_are_rejected() {
    let dual = DualHotkeyConfig {
        dictation: chord(vec![HotkeyKey::ControlLeft, HotkeyKey::Space]),
        assistant: chord(vec![HotkeyKey::ControlLeft, HotkeyKey::ShiftLeft, HotkeyKey::Space]),
    };
    assert_eq!(dual.validate(), Err(DualHotkeyError::SubsetConflict));
}

#[test]
fn invalid_member_binding_is_reported_first() {
    let dual = DualHotkeyConfig {
        dictation: chord(vec![]),
        assistant: chord(vec![HotkeyKey::AltLeft, HotkeyKey::Space]),
    };
    assert_eq!(dual.validate(), Err(DualHotkeyError::Dictation(HotkeyConfigError::EmptyKeys)));
}

#[test]
fn has_modifier_sees_only_modifiers() {
    assert!(chord(vec![HotkeyKey::ControlLeft, HotkeyKey::KeyA]).has_modifier());
    assert!(!chord(vec![HotkeyKey::F2]).has_modifier());
}

#[test]
fn key_classification() {
    assert!(HotkeyKey::MetaRight.is_modifier());
    assert!(!HotkeyKey::F5.is_modifier());
    assert!(HotkeyKey::F12.is_function_key());
    assert!(!HotkeyKey::Space.is_function_key());
    assert_eq!(HotkeyKey::Up.display_name(), "↑");
    assert_eq!(HotkeyKey::KeyQ.display_name(), "Q");
}

#[test]
fn mode_helpers() {
    assert!(TranscriptionMode::Normal.should_auto_insert());
    assert!(TranscriptionMode::Assistant.should_auto_insert());
    assert!(!TranscriptionMode::Normal.requires_llm());
    assert!(TranscriptionMode::Assistant.requires_llm());
    assert_eq!(TriggerMode::Dictation.display_name(), "听写模式");
    assert_eq!(HotkeyMode::Press.display_name(), "按住录音");
}

#[test]
fn format_display_joins_names() {
    let c = chord(vec![HotkeyKey::ControlLeft, HotkeyKey::MetaLeft]);
    assert_eq!(c.format_display(), "Ctrl(左)+Win(左)");
}

#[test]
fn fresh_config_defaults() {
    let c = AppConfig::new();
    assert!(c.use_realtime_asr);
    assert!(!c.enable_llm_post_process);
    assert_eq!(c.asr_config.primary.provider, AsrProvider::Qwen);
    assert_eq!(c.asr_config.primary.api_key, "");
    assert!(c.asr_config.fallback.is_none());
    assert_eq!(c.llm_config.active_preset_id, "polishing");
    assert_eq!(c.llm_config.presets.len(), 2);
    assert_eq!(c.transcription_mode, TranscriptionMode::Normal);
    assert_eq!(c.dual_hotkey_config.dictation.mode, HotkeyMode::Press);
    assert_eq!(c.dual_hotkey_config.dictation.release_mode_keys, Some(vec![HotkeyKey::F2]));
    assert_eq!(c.dual_hotkey_config.assistant.mode, HotkeyMode::Press);
    assert_eq!(c.dual_hotkey_config.validate(), Ok(()));
}

#[test]
fn migration_moves_legacy_qwen_key() {
    let mut c = AppConfig::new();
    c.dashscope_api_key = "legacy-qwen".to_string();
    c.siliconflow_api_key = "legacy-sf".to_string();
    let m = c.migrate();
    assert_eq!(m.asr_config.primary.provider, AsrProvider::Qwen);
    assert_eq!(m.asr_config.primary.api_key, "legacy-qwen");
    assert!(m.asr_config.enable_fallback);
    let fb = m.asr_config.fallback.expect("fallback migrated");
    assert_eq!(fb.provider, AsrProvider::SiliconFlow);
    assert_eq!(fb.api_key, "legacy-sf");
}

#[test]
fn migration_leaves_filled_asr_config_alone() {
    let mut c = AppConfig::new();
    c.asr_config.primary.api_key = "already-set".to_string();
    c.dashscope_api_key = "legacy".to_string();
    let m = c.migrate();
    assert_eq!(m.asr_config.primary.api_key, "already-set");
    assert!(!m.asr_config.enable_fallback);
}

#[test]
fn migration_moves_single_binding_into_stock_dual() {
    let mut c = AppConfig::new();
    let old = chord(vec![HotkeyKey::AltLeft, HotkeyKey::KeyZ]);
    c.hotkey_config = Some(old);
    let m = c.migrate();
    assert!(m.hotkey_config.is_none());
    assert_eq!(m.dual_hotkey_config.dictation.keys, vec![HotkeyKey::AltLeft, HotkeyKey::KeyZ]);
}

#[test]
fn migration_keeps_customised_dual_binding() {
    let mut c = AppConfig::new();
    c.dual_hotkey_config.dictation = chord(vec![HotkeyKey::F4]);
    c.hotkey_config = Some(chord(vec![HotkeyKey::AltLeft, HotkeyKey::KeyZ]));
    let m = c.migrate();
    assert!(m.hotkey_config.is_none());
    assert_eq!(m.dual_hotkey_config.dictation.keys, vec![HotkeyKey::F4]);
}

#[test]
fn migration_moves_smart_command_into_assistant() {
    let mut c = AppConfig::new();
    c.smart_command_config = SmartCommandConfig {
        enabled: true,
        endpoint: "https://example.invalid/llm".to_string(),
        model: "m1".to_string(),
        api_key: "k1".to_string(),
        system_prompt: "prompt-a".to_string(),
    };
    let m = c.migrate();
    assert!(m.assistant_config.enabled);
    assert_eq!(m.assistant_config.endpoint, "https://example.invalid/llm");
    assert_eq!(m.assistant_config.model, "m1");
    assert_eq!(m.assistant_config.api_key, "k1");
    assert_eq!(m.assistant_config.qa_system_prompt, "prompt-a");
    assert!(!m.smart_command_config.enabled);
}

#[test]
fn migration_keeps_usable_assistant_config() {
    let mut c = AppConfig::new();
    c.smart_command_config.enabled = true;
    c.smart_command_config.api_key = "k1".to_string();
    c.assistant_config = AssistantConfig {
        enabled: true,
        endpoint: "https://example.invalid/llm".to_string(),
        model: "m2".to_string(),
        api_key: "k2".to_string(),
        qa_system_prompt: "qa".to_string(),
        text_processing_system_prompt: "tp".to_string(),
    };
    let m = c.migrate();
    assert_eq!(m.assistant_config.api_key, "k2");
    assert!(m.smart_command_config.enabled);
}

#[test]
fn assistant_config_validity_needs_all_three_fields() {
    let mut a = AssistantConfig {
        enabled: true,
        endpoint: "e".to_string(),
        model: "m".to_string(),
        api_key: "k".to_string(),
        qa_system_prompt: String::new(),
        text_processing_system_prompt: String::new(),
    };
    assert!(a.is_valid());
    a.api_key = String::new();
    assert!(!a.is_valid());
    let s = SmartCommandConfig {
        enabled: true,
        endpoint: String::new(),
        model: "m".to_string(),
        api_key: "k".to_string(),
        system_prompt: String::new(),
    };
    assert!(!s.is_valid());
}

#[test]
fn assemble_rebuilds_recognizer_config_from_plain_keys() {
    let c = AppConfig::assemble(
        "primary-key".to_string(),
        "fallback-key".to_string(),
        None,
        None,
        None,
        None,
        None,
        None,
        None,
        None,
        None,
    );
    assert_eq!(c.dashscope_api_key, "primary-key");
    assert_eq!(c.asr_config.primary.provider, AsrProvider::Qwen);
    assert_eq!(c.asr_config.primary.api_key, "primary-key");
    assert!(c.asr_config.enable_fallback);
    let fb = c.asr_config.fallback.expect("fallback from plain key");
    assert_eq!(fb.provider, AsrProvider::SiliconFlow);
    assert_eq!(fb.api_key, "fallback-key");
    assert!(c.use_realtime_asr);
    assert!(!c.enable_llm_post_process);
}

#[test]
fn assemble_without_fallback_key_leaves_no_fallback() {
    let c = AppConfig::assemble(
        "primary-key".to_string(),
        String::new(),
        Some(false),
        Some(true),
        None,
        None,
        Some("minimize".to_string()),
        None,
        None,
        None,
        None,
    );
    assert!(c.asr_config.fallback.is_none());
    assert!(!c.asr_config.enable_fallback);
    assert!(!c.use_realtime_asr);
    assert!(c.enable_llm_post_process);
    assert_eq!(c.close_action, Some("minimize".to_string()));
}

#[test]
fn release_lock_default_fills_missing_chord_only() {
    let mut dual = DualHotkeyConfig {
        dictation: chord(vec![HotkeyKey::ControlLeft, HotkeyKey::MetaLeft]),
        assistant: chord(vec![HotkeyKey::AltLeft, HotkeyKey::Space]),
    };
    dual.ensure_release_lock_default();
    assert_eq!(dual.dictation.release_mode_keys, Some(vec![HotkeyKey::F2]));
    dual.dictation.release_mode_keys = Some(vec![HotkeyKey::F6]);
    dual.ensure_release_lock_default();
    assert_eq!(dual.dictation.release_mode_keys, Some(vec![HotkeyKey::F6]));
}
