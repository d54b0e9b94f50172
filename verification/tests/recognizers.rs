//! The batch clients, the hot-word corpus, the dictionary-echo guard,
//! the race strategy and the client planning.

use push_to_talk::asr::AsrError;
use push_to_talk::asr::DoubaoASRClient;
use push_to_talk::asr::QwenASRClient;
use push_to_talk::asr::join_words;
use push_to_talk::asr::plan_asr_clients;
use push_to_talk::asr::split_app_key;
use push_to_talk::asr::strip_trailing_punctuation;
use push_to_talk::config::AsrConfig;
use push_to_talk::config::AsrProvider;
use push_to_talk::config::AsrProviderConfig;
use push_to_talk::race::RaceAction;
use push_to_talk::race::RacePhase;
use push_to_talk::race::RaceStrategy;
use push_to_talk::race::RaceVerdict;
use push_to_talk::race::TranscriptionPlan;
use push_to_talk::race::select_transcription_plan;

#[test]
fn trailing_punctuation_is_stripped() {
    assert_eq!(strip_trailing_punctuation("你好。"), "你好");
    assert_eq!(strip_trailing_punctuation("hello  world."), "hello  world");
    assert_eq!(strip_trailing_punctuation("fine!?。"), "fine");
    assert_eq!(strip_trailing_punctuation("no change"), "no change");
    assert_eq!(strip_trailing_punctuation(""), "");
    assert_eq!(strip_trailing_punctuation("。，！"), "");
    assert_eq!(strip_trailing_punctuation("a.b"), "a.b");
}

#[test]
fn words_join_with_the_enumeration_comma() {
    assert_eq!(join_words(&vec![], "、"), "");
    assert_eq!(join_words(&vec!["一".to_string()], "、"), "一");
    assert_eq!(
        join_words(&vec!["一".to_string(), "二".to_string(), "三".to_string()], "、"),
        "一、二、三"
    );
}

#[test]
fn qwen_audio_payload_is_a_base64_data_url() {
    let client = QwenASRClient::new("key".to_string(), vec![]);
    assert_eq!(client.audio_payload(&vec![b'a', b'b', b'c']), "data:audio/wav;base64,YWJj");
    assert_eq!(client.audio_payload(&vec![0, 0]), "data:audio/wav;base64,AAA=");
}

#[test]
fn qwen_reply_is_parsed_and_stripped() {
    let client = QwenASRClient::new("key".to_string(), vec![]);
    let body = "{\"output\":{\"choices\":[{\"message\":{\"content\":[{\"text\":\"hello  world.\"}]}}]}}";
    assert_eq!(client.parse_response_body(body), Ok("hello  world".to_string()));
}

#[test]
fn qwen_malformed_reply_is_rejected() {
    let client = QwenASRClient::new("key".to_string(), vec![]);
    assert_eq!(client.parse_response_body("not json"), Err(AsrError::MalformedResponse));
    assert_eq!(client.parse_response_body("{\"output\":{}}"), Err(AsrError::MalformedResponse));
}

#[test]
fn qwen_dictionary_echo_is_rejected() {
    // the backend echoes the joined dictionary back for silent audio
    let words = vec![
        "阿里".to_string(),
        "腾讯".to_string(),
        "字节".to_string(),
        "华为".to_string(),
        "小米".to_string(),
    ];
    let client = QwenASRClient::new("key".to_string(), words);
    let body =
        "{\"output\":{\"choices\":[{\"message\":{\"content\":[{\"text\":\"阿里、腾讯、字节、华为、小米\"}]}}]}}";
    assert_eq!(client.parse_response_body(body), Err(AsrError::EmptyRecording));
    // the same text is fine when no dictionary is configured
    let bare = QwenASRClient::new("key".to_string(), vec![]);
    assert_eq!(bare.parse_response_body(body), Ok("阿里、腾讯、字节、华为、小米".to_string()));
}

#[test]
fn qwen_retry_is_bounded() {
    let mut client = QwenASRClient::new("key".to_string(), vec![]);
    assert!(client.retry_after_failure(0));
    assert!(client.retry_after_failure(1));
    assert!(!client.retry_after_failure(2));
    client.update_dictionary(vec!["word".to_string()]);
    assert_eq!(client.dictionary, vec!["word".to_string()]);
}

#[test]
fn doubao_reply_is_parsed_and_stripped() {
    let client = DoubaoASRClient::new("app".to_string(), "key".to_string(), vec![]);
    assert_eq!(
        client.parse_response_body("{\"result\":{\"text\":\"你好，世界。\"}}"),
        Ok("你好，世界".to_string())
    );
    assert_eq!(client.parse_response_body("{}"), Err(AsrError::MalformedResponse));
}

#[test]
fn doubao_status_header_decides_success() {
    let client = DoubaoASRClient::new("app".to_string(), "key".to_string(), vec![]);
    assert_eq!(client.check_status(&"20000000".to_string()), Ok(()));
    assert_eq!(client.check_status(&"45000001".to_string()), Err(AsrError::BackendRejected));
}

#[test]
fn doubao_request_parts_are_fresh() {
    let client = DoubaoASRClient::new("app".to_string(), "key".to_string(), vec![]);
    let parts = client.prepare_request(&vec![b'a', b'b', b'c']);
    assert_eq!(parts.audio_base64, "YWJj");
    assert_eq!(parts.request_id.len(), 36);
    let again = client.prepare_request(&vec![b'a', b'b', b'c']);
    assert_ne!(parts.request_id, again.request_id);
}

#[test]
fn app_key_splits_at_a_single_colon() {
    assert_eq!(split_app_key("app:secret"), Some(("app".to_string(), "secret".to_string())));
    assert_eq!(split_app_key(":secret"), Some(("".to_string(), "secret".to_string())));
    assert_eq!(split_app_key("nocolon"), None);
    assert_eq!(split_app_key("a:b:c"), None);
}

#[test]
fn race_primary_success_wins_outright() {
    let mut race = RaceStrategy::new(2);
    let action = race.on_primary_result(Ok("快".to_string()));
    assert_eq!(action, RaceAction::Finished(RaceVerdict::Text("快".to_string())));
    assert_eq!(race.phase, RacePhase::Done);
}

#[test]
fn race_uses_secondary_success_before_a_retry() {
    // the primary rejects quickly; the secondary finishes with "fine" and
    // wins at the peek before the retry
    let mut race = RaceStrategy::new(2);
    assert_eq!(race.note_secondary(Ok("fine".to_string())), RaceAction::Noted);
    let action = race.on_primary_result(Err("http 500".to_string()));
    assert_eq!(action, RaceAction::Finished(RaceVerdict::Text("fine".to_string())));
}

#[test]
fn race_retries_primary_with_delay() {
    let mut race = RaceStrategy::new(2);
    assert_eq!(
        race.on_primary_result(Err("e1".to_string())),
        RaceAction::SleepThenRetryPrimary
    );
    assert_eq!(
        race.on_primary_result(Err("e2".to_string())),
        RaceAction::SleepThenRetryPrimary
    );
    assert_eq!(race.attempts_made, 2);
    // the attempts are spent and no secondary outcome is in: await it
    assert_eq!(race.on_primary_result(Err("e3".to_string())), RaceAction::AwaitSecondaryTask);
    assert_eq!(race.phase, RacePhase::AwaitingSecondary);
    let action = race.note_secondary(Ok("slow but there".to_string()));
    assert_eq!(action, RaceAction::Finished(RaceVerdict::Text("slow but there".to_string())));
}

#[test]
fn race_reports_both_failures() {
    let mut race = RaceStrategy::new(0);
    assert_eq!(race.on_primary_result(Err("primary down".to_string())), RaceAction::AwaitSecondaryTask);
    let action = race.note_secondary(Err("secondary down".to_string()));
    assert_eq!(
        action,
        RaceAction::Finished(RaceVerdict::BothFailed {
            primary_error: Some("primary down".to_string()),
            secondary_error: "secondary down".to_string(),
        })
    );
}

#[test]
fn race_with_settled_failed_secondary_still_retries_primary() {
    let mut race = RaceStrategy::new(1);
    assert_eq!(race.note_secondary(Err("secondary down".to_string())), RaceAction::Noted);
    assert_eq!(race.on_primary_result(Err("e1".to_string())), RaceAction::SleepThenRetryPrimary);
    let action = race.on_primary_result(Err("e2".to_string()));
    assert_eq!(
        action,
        RaceAction::Finished(RaceVerdict::BothFailed {
            primary_error: Some("e2".to_string()),
            secondary_error: "secondary down".to_string(),
        })
    );
}

#[test]
fn transcription_plan_prefers_racing_pairs() {
    assert_eq!(select_transcription_plan(true, false, true, true), TranscriptionPlan::RaceQwenSense);
    assert_eq!(select_transcription_plan(true, true, true, true), TranscriptionPlan::RaceQwenSense);
    assert_eq!(
        select_transcription_plan(false, true, true, true),
        TranscriptionPlan::RaceDoubaoSense
    );
    assert_eq!(select_transcription_plan(true, false, false, true), TranscriptionPlan::SingleQwen);
    assert_eq!(select_transcription_plan(false, false, false, true), TranscriptionPlan::NoClient);
}

#[test]
fn transcription_plan_without_fallback_prefers_doubao() {
    assert_eq!(select_transcription_plan(true, true, true, false), TranscriptionPlan::SingleDoubao);
    assert_eq!(select_transcription_plan(true, false, true, false), TranscriptionPlan::SingleQwen);
    assert_eq!(select_transcription_plan(false, false, true, false), TranscriptionPlan::SingleSense);
    assert_eq!(select_transcription_plan(false, false, false, false), TranscriptionPlan::NoClient);
}

#[test]
fn client_plan_from_legacy_keys() {
    let plan = plan_asr_clients(&None, &"qwen-key".to_string(), &"".to_string());
    assert_eq!(plan.qwen_key, Some("qwen-key".to_string()));
    assert_eq!(plan.sensevoice_key, None);
    assert_eq!(plan.doubao_creds, None);
}

#[test]
fn client_plan_from_provider_config() {
    let cfg = AsrConfig {
        primary: AsrProviderConfig {
            provider: AsrProvider::Doubao,
            api_key: "app:secret".to_string(),
            app_id: None,
            access_token: None,
        },
        fallback: Some(AsrProviderConfig {
            provider: AsrProvider::SiliconFlow,
            api_key: "sf-key".to_string(),
            app_id: None,
            access_token: None,
        }),
        enable_fallback: true,
    };
    let plan = plan_asr_clients(&Some(cfg), &"".to_string(), &"".to_string());
    assert_eq!(plan.doubao_creds, Some(("app".to_string(), "secret".to_string())));
    assert_eq!(plan.sensevoice_key, Some("sf-key".to_string()));
    assert_eq!(plan.qwen_key, None);
}

#[test]
fn client_plan_ignores_disabled_fallback() {
    let cfg = AsrConfig {
        primary: AsrProviderConfig {
            provider: AsrProvider::Qwen,
            api_key: "qk".to_string(),
            app_id: None,
            access_token: None,
        },
        fallback: Some(AsrProviderConfig {
            provider: AsrProvider::SiliconFlow,
            api_key: "sf".to_string(),
            app_id: None,
            access_token: None,
        }),
        enable_fallback: false,
    };
    let plan = plan_asr_clients(&Some(cfg), &"".to_string(), &"".to_string());
    assert_eq!(plan.qwen_key, Some("qk".to_string()));
    assert_eq!(plan.sensevoice_key, None);
}

#[test]
fn doubao_explicit_key_pair_wins_over_split() {
    let cfg = AsrConfig {
        primary: AsrProviderConfig {
            provider: AsrProvider::Doubao,
            api_key: "ignored:pair".to_string(),
            app_id: Some("the-app".to_string()),
            access_token: Some("the-token".to_string()),
        },
        fallback: None,
        enable_fallback: false,
    };
    let plan = plan_asr_clients(&Some(cfg), &"".to_string(), &"".to_string());
    assert_eq!(plan.doubao_creds, Some(("the-app".to_string(), "the-token".to_string())));
}

#[test]
fn doubao_retry_is_bounded() {
    let client = DoubaoASRClient::new("app".to_string(), "key".to_string(), vec![]);
    assert!(client.retry_after_failure(0));
    assert!(client.retry_after_failure(1));
    assert!(!client.retry_after_failure(2));
}
