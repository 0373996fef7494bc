use waken_reporter::json::{JsonMap, JsonValue};
use waken_reporter::locale::BackendLocale;
use waken_reporter::models::{
    default_client_capabilities, default_heartbeat_interval_ms, default_poll_interval_ms,
    device_name_from_host, effective_device_name, AppStatePayload, ClientConfig,
};
use waken_reporter::reporter_config::{existing_config_from_file, missing_existing_config, ReporterConfigFile};
use waken_reporter::runtime_utils::{now_unix_millis, sleep_step};
use waken_reporter::state_store::{
    ensure_generated_hash_key, load_app_state_from, new_device_key, prepare_app_state_for_save,
    StateFileRead,
};
use waken_reporter::text::{
    is_blank_str, lines_of, parse_i64_str, parse_unsigned_str, trim_str,
    u64_to_decimal, utf8_len_of,
};
use waken_reporter::tray::{tray_error, tray_menu_action, tray_text, TrayAction, TrayText};

#[test]
fn trim_follows_unicode_whitespace() {
    assert_eq!(trim_str("\u{3000} a b \u{a0}\n"), "a b");
    assert!(is_blank_str(" \t\u{2028}"));
    assert!(!is_blank_str(" x "));
    let once = trim_str("  q ");
    assert_eq!(trim_str(&once), once);
}

#[test]
fn decimal_numbers_read_back() {
    for n in [0u64, 7, 10, 4242, u32::MAX as u64] {
        let text = u64_to_decimal(n);
        assert_eq!(parse_unsigned_str(&text, u32::MAX as u64), Some(n));
    }
    assert_eq!(parse_unsigned_str("4294967296", u32::MAX as u64), None);
    assert_eq!(parse_unsigned_str("+12", 100), Some(12));
    assert_eq!(parse_unsigned_str("+", 100), None);
    assert_eq!(parse_unsigned_str("-1", 100), None);
    assert_eq!(parse_unsigned_str("1a", 100), None);
    assert_eq!(parse_i64_str("-9223372036854775808"), Some(i64::MIN));
    assert_eq!(parse_i64_str("9223372036854775808"), None);
    assert_eq!(parse_i64_str("-+1"), None);
    assert_eq!(parse_i64_str("-0"), Some(0));
}

#[test]
fn lines_match_std() {
    for text in ["a\nb", "a\r\nb\r\n", "", "\n", "x\ry", "a\n\nb\n"] {
        let expected: Vec<String> = text.lines().map(str::to_string).collect();
        assert_eq!(lines_of(text), expected);
    }
}

#[test]
fn utf8_length_counts_bytes() {
    for text in ["", "abc", "é", "字", "😀", "a字😀"] {
        assert_eq!(utf8_len_of(text), text.len() as u128);
    }
}

#[test]
fn playback_words_ignore_case() {
    assert_eq!(
        waken_reporter::platform::linux::media::normalize_playback_state(" PLAYING "),
        "playing"
    );
    assert!(waken_reporter::platform::linux::media::playerctl_failure("", "NO PLAYERS FOUND").is_ok());
    assert!(waken_reporter::platform::linux::media::playerctl_failure("", "PLAYER ÀB FAILED").is_err());
}

#[test]
fn json_map_insert_replaces() {
    let mut m = JsonMap::new();
    m.insert("a".into(), JsonValue::Bool(true));
    m.insert("b".into(), JsonValue::Null);
    m.insert("a".into(), JsonValue::Bool(false));
    assert_eq!(m.get("a"), Some(&JsonValue::Bool(false)));
    assert_eq!(m.get("b"), Some(&JsonValue::Null));
    assert_eq!(m.entries.len(), 2);
    m.remove("a");
    assert_eq!(m.get("a"), None);
    assert!(m.contains_key("b"));
}

#[test]
fn locale_preference() {
    assert_eq!(BackendLocale::from_preference(" EN-us "), BackendLocale::EnUs);
    assert_eq!(BackendLocale::from_preference("zh-CN"), BackendLocale::ZhCn);
    assert_eq!(BackendLocale::from_preference(""), BackendLocale::ZhCn);
    assert!(BackendLocale::EnUs.is_en());
}

#[test]
fn defaults_follow_documentation() {
    assert_eq!(default_poll_interval_ms(), 2000);
    assert_eq!(default_heartbeat_interval_ms(), 60000);
    let c = ClientConfig::default();
    assert!(!c.discord_enabled);
    assert_eq!(c.discord_application_id, "");
    assert_eq!(c.discord_source_id, "");
    assert_eq!(c.device_type, "desktop");
    assert_eq!(c.push_mode, "realtime");
    assert!(default_client_capabilities(true).tray);
}

#[test]
fn device_names() {
    assert_eq!(device_name_from_host(Some(" host ".into())), "host");
    assert_eq!(device_name_from_host(Some("  ".into())), "Waken-Wa Client");
    assert_eq!(device_name_from_host(None), "Waken-Wa Client");
    assert_eq!(effective_device_name(" Desk "), "Desk");
    assert!(!effective_device_name("  ").is_empty());
}

#[test]
fn device_keys() {
    let key = new_device_key([0; 16]);
    assert_eq!(key, "wwd-00000000-0000-4000-8000-000000000000");
    let bytes = [
        0xff, 0x01, 0x23, 0x45, 0x67, 0x89, 0xab, 0xcd, 0xef, 0x10, 0x32, 0x54, 0x76, 0x98, 0xba, 0xdc,
    ];
    assert_eq!(new_device_key(bytes), "wwd-ff012345-6789-4bcd-af10-32547698badc");
    let mut state = AppStatePayload::default();
    assert!(ensure_generated_hash_key(&mut state, bytes));
    let first = state.config.generated_hash_key.clone();
    assert_eq!(first, "wwd-ff012345-6789-4bcd-af10-32547698badc");
    assert!(!ensure_generated_hash_key(&mut state, [0; 16]));
    assert_eq!(state.config.generated_hash_key, first);
    let saved = prepare_app_state_for_save(state, [0; 16]);
    assert_eq!(saved.config.generated_hash_key, first);
}

#[test]
fn loading_state() {
    let missing = load_app_state_from(StateFileRead::NotFound, None, [7; 16]).unwrap();
    assert!(missing.needs_save);
    assert_eq!(missing.payload.config.generated_hash_key, "wwd-07070707-0707-4707-8707-070707070707");
    assert!(!missing.backup_corrupt_file);
    let corrupt = load_app_state_from(StateFileRead::Content("{oops".into()), None, [7; 16]).unwrap();
    assert!(corrupt.backup_corrupt_file);
    let err = load_app_state_from(StateFileRead::Failed("denied".into()), None, [7; 16]).unwrap_err();
    assert_eq!(err, "读取状态文件失败：denied");
    let mut parsed = AppStatePayload::default();
    parsed.config.generated_hash_key = "wwd-keep".into();
    parsed.locale = "en".into();
    let kept = load_app_state_from(StateFileRead::Content("{...}".into()), Some(parsed), [7; 16]).unwrap();
    assert!(!kept.needs_save);
    assert_eq!(kept.payload.config.generated_hash_key, "wwd-keep");
    assert_eq!(kept.payload.locale, "en");
}

#[test]
fn existing_reporter_config() {
    let found = existing_config_from_file(
        "/c.json".into(),
        ReporterConfigFile {
            base_url: "https://x.com//".into(),
            api_token: "tok".into(),
            device_name: "  ".into(),
            generated_hash_key: String::new(),
            poll_interval_ms: Some(0),
            heartbeat_interval_ms: Some(5),
        },
        Some("{\n  \"a\": 1\n}".into()),
        [0; 16],
    );
    assert!(found.found);
    let c = found.config.unwrap();
    assert_eq!(c.base_url, "https://x.com");
    assert_eq!(c.device, "");
    assert_eq!(c.generated_hash_key, "wwd-00000000-0000-4000-8000-000000000000");
    assert_eq!(c.poll_interval_ms, 2000);
    assert_eq!(c.heartbeat_interval_ms, 5);
    assert_eq!(c.reporter_metadata_json, "{\n  \"a\": 1\n}");
    assert!(!c.reporter_enabled);
    let none = missing_existing_config("/c.json".into());
    assert!(!none.found);
    assert!(none.config.is_none());
}

#[test]
fn tray_texts_and_menu() {
    assert_eq!(tray_text("en-US", TrayText::Quit), "Quit app");
    assert_eq!(tray_text("zh", TrayText::Quit), "退出应用");
    assert_eq!(tray_menu_action("tray_hide"), Some(TrayAction::HideMainWindow));
    assert_eq!(tray_menu_action("other"), None);
    assert_eq!(tray_error("en", TrayText::LoadIconFailed, "bad"), "Failed to load the tray icon: bad");
}

#[test]
fn clock_and_sleep_steps() {
    assert!(now_unix_millis() > 1_600_000_000_000);
    assert_eq!(sleep_step(500), (200, 300));
    assert_eq!(sleep_step(150), (150, 0));
    assert_eq!(sleep_step(0), (0, 0));
}
