use babelink::errors::CmdError;
use babelink::permissions::{check_permissions_result, screen_capture_allowed};
use babelink::scratch::ScratchSlot;
use babelink::speech::{
    escape_single_quotes, espeak_rate, espeak_voice, sapi_rate, say_rate, say_voice,
    VoiceSettings,
};
use babelink::sysinfo::{display_report, system_info_entries};
use babelink::tool::{tool_status, ToolRun};
use babelink::translate::{
    check_http_status, missing_api_key_text, translate_prepare, translation_from_response,
};

#[test]
fn unit_speed_gives_documented_default_rates() {
    assert_eq!(say_rate(1000), 200);
    assert_eq!(sapi_rate(1000), 0);
    assert_eq!(espeak_rate(1000), 175);
}

#[test]
fn speed_rates_scale_linearly() {
    assert_eq!(say_rate(1500), 300);
    assert_eq!(sapi_rate(2000), 5);
    assert_eq!(sapi_rate(0), -5);
    assert_eq!(espeak_rate(2000), 350);
}

#[test]
fn speed_rates_accept_any_speed() {
    assert_eq!(say_rate(u64::MAX), 3689348814741910323);
    assert_eq!(espeak_rate(u64::MAX), 3228180212899171532);
    assert_eq!(sapi_rate(u64::MAX), 92233720368547753);
}

#[test]
fn male_gender_selects_male_voice() {
    assert_eq!(say_voice("male"), "Alex");
    assert_eq!(espeak_voice("en", "male"), "en+m");
}

#[test]
fn female_gender_selects_default_voice() {
    assert_eq!(say_voice("female"), "Samantha");
    assert_eq!(espeak_voice("pt-br", "female"), "pt-br+f");
}

#[test]
fn unknown_gender_falls_back_to_default_voice() {
    assert_eq!(say_voice("robot"), "Samantha");
    assert_eq!(say_voice(""), "Samantha");
    assert_eq!(say_voice("MALE"), "Samantha");
    assert_eq!(espeak_voice("en", "robot"), "en+f");
}

#[test]
fn single_quotes_are_doubled() {
    assert_eq!(escape_single_quotes("it's Ben's"), "it''s Ben''s");
    assert_eq!(escape_single_quotes("no quotes"), "no quotes");
    assert_eq!(escape_single_quotes("'"), "''");
    assert_eq!(escape_single_quotes(""), "");
}

#[test]
fn voice_plans_combine_voice_and_rate() {
    let settings = VoiceSettings {
        gender: "male".to_string(),
        speed_milli: 1000,
        pitch_milli: 1000,
        language: "en".to_string(),
    };
    assert_eq!(settings.say_plan(), ("Alex".to_string(), 200));
    assert_eq!(settings.espeak_plan(), ("en+m".to_string(), 175));
    assert_eq!(settings.sapi_plan("don't stop"), (0, "don''t stop".to_string()));
    let fallback = VoiceSettings {
        gender: "other".to_string(),
        speed_milli: 500,
        pitch_milli: 1000,
        language: "fr".to_string(),
    };
    assert_eq!(fallback.say_plan(), ("Samantha".to_string(), 100));
    assert_eq!(fallback.espeak_plan(), ("fr+f".to_string(), 87));
    assert_eq!(fallback.sapi_plan("ok"), (-3, "ok".to_string()));
}

#[test]
fn translation_body_entries() {
    let request = babelink::translate::TranslationRequest {
        text: "hello".to_string(),
        from: "en".to_string(),
        to: "es".to_string(),
    };
    let body = request.body_entries();
    assert_eq!(body.len(), 3);
    assert_eq!(body[0], ("text".to_string(), vec!["hello".to_string()]));
    assert_eq!(body[1], ("source".to_string(), vec!["en".to_string()]));
    assert_eq!(body[2], ("target".to_string(), vec!["es".to_string()]));
}

#[test]
fn missing_api_key_is_refused_before_any_network_call() {
    let r = translate_prepare(None, Some("http://localhost".to_string()));
    assert_eq!(r.unwrap_err(), CmdError::MissingApiKey);
    assert_eq!(missing_api_key_text(), "IBM Watson API key not found in environment");
}

#[test]
fn translate_plan_has_endpoint_and_credential() {
    let plan = translate_prepare(Some("secret".to_string()), None).unwrap();
    assert_eq!(
        plan.url,
        "https://api.us-south.language-translator.watson.cloud.ibm.com/v3/translate?version=2018-05-01"
    );
    assert_eq!(plan.auth, "Basic YXBpa2V5OnNlY3JldA==");
}

#[test]
fn translate_plan_uses_configured_url() {
    let plan =
        translate_prepare(Some("k".to_string()), Some("http://example.test".to_string())).unwrap();
    assert_eq!(plan.url, "http://example.test/v3/translate?version=2018-05-01");
}

#[test]
fn http_status_ranges() {
    assert!(check_http_status(200).is_ok());
    assert!(check_http_status(299).is_ok());
    assert_eq!(check_http_status(300), Err(CmdError::Http(300)));
    assert_eq!(check_http_status(404), Err(CmdError::Http(404)));
    assert_eq!(check_http_status(199), Err(CmdError::Http(199)));
}

#[test]
fn translation_is_read_from_response() {
    let body = br#"{"translations":[{"translation":"Hola"}]}"#;
    assert_eq!(translation_from_response(&body[..]), Ok("Hola".to_string()));
}

#[test]
fn response_without_translation_is_an_error() {
    assert_eq!(translation_from_response(b"{}"), Err(CmdError::NoTranslation));
    let body = br#"{"translations":[]}"#;
    assert_eq!(translation_from_response(&body[..]), Err(CmdError::NoTranslation));
    let body = br#"{"translations":[{"translation":7}]}"#;
    assert_eq!(translation_from_response(&body[..]), Err(CmdError::NoTranslation));
}

#[test]
fn unparsable_response_is_parse_error() {
    assert!(matches!(translation_from_response(b"not json"), Err(CmdError::Parse(_))));
}

#[test]
fn privacy_query_grants_only_on_one() {
    assert!(screen_capture_allowed(&Some(b" 1 \n".to_vec())));
    assert!(screen_capture_allowed(&Some("1\u{00A0}".as_bytes().to_vec())));
    assert!(!screen_capture_allowed(&Some(b"0".to_vec())));
    assert!(!screen_capture_allowed(&Some(b"".to_vec())));
    assert!(!screen_capture_allowed(&Some(b"11".to_vec())));
    assert!(!screen_capture_allowed(&None));
}

#[test]
fn display_report_requires_zero_exit() {
    let ok = ToolRun::Done { success: true, stdout: b"Displays:\n".to_vec(), stderr: vec![] };
    assert_eq!(display_report(ok), Ok("Displays:\n".to_string()));
    let failed = ToolRun::Done { success: false, stdout: b"partial".to_vec(), stderr: b"denied".to_vec() };
    assert_eq!(display_report(failed), Err(CmdError::NonZeroExit("denied".to_string())));
    let gone = ToolRun::Failed("missing".to_string());
    assert_eq!(display_report(gone), Err(CmdError::Spawn("missing".to_string())));
}

#[test]
fn permissions_reported_per_platform() {
    let p = check_permissions_result(false, None);
    assert!(p.screen_capture && p.microphone);
    let p = check_permissions_result(true, None);
    assert!(!p.screen_capture && p.microphone);
    let p = check_permissions_result(true, Some(b"1\n".to_vec()));
    assert!(p.screen_capture);
    let entries = p.entries();
    assert_eq!(entries[0], ("screen_capture".to_string(), true));
    assert_eq!(entries[1], ("microphone".to_string(), true));
}

#[test]
fn system_info_entries_in_order() {
    let r = system_info_entries("linux".to_string(), "x86_64".to_string(), None);
    assert_eq!(r.len(), 2);
    assert_eq!(r[0], ("platform".to_string(), "linux".to_string()));
    assert_eq!(r[1], ("arch".to_string(), "x86_64".to_string()));
    let r = system_info_entries(
        "macos".to_string(),
        "aarch64".to_string(),
        Some("Display report".to_string()),
    );
    assert_eq!(r.len(), 3);
    assert_eq!(r[2], ("display_info".to_string(), "Display report".to_string()));
}

#[test]
fn speech_nonzero_exit_is_error() {
    let run = ToolRun::Done { success: false, stdout: vec![], stderr: b"no voice".to_vec() };
    assert_eq!(tool_status(run), Err(CmdError::NonZeroExit("no voice".to_string())));
    let ok = ToolRun::Done { success: true, stdout: vec![], stderr: vec![] };
    assert_eq!(tool_status(ok), Ok(()));
    let gone = ToolRun::Failed("missing".to_string());
    assert_eq!(tool_status(gone), Err(CmdError::Spawn("missing".to_string())));
}

#[test]
fn interleaved_captures_corrupt_the_shared_scratch_file() {
    let mut slot = ScratchSlot::empty();
    let first_capture = vec![1u8, 1, 1];
    let second_capture = vec![2u8, 2, 2];
    slot.write(first_capture.clone());
    slot.write(second_capture.clone());
    let read_back_for_first = slot.read().unwrap();
    assert_ne!(*read_back_for_first, first_capture);
    assert_eq!(*read_back_for_first, second_capture);
}
