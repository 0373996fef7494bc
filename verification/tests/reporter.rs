use waken_reporter::json::{JsonMap, JsonValue};
use waken_reporter::locale::BackendLocale;
use waken_reporter::models::ClientConfig;
use waken_reporter::platform::{ForegroundSnapshot, MediaInfo};
use waken_reporter::reporter::logging::build_log_detail;
use waken_reporter::reporter::payload::{
    build_payload, interpret_post_response, parse_reporter_metadata, validate_reporter_config,
    PostActivityResult,
};
use waken_reporter::reporter::worker::{
    activity_signature, error_sleep_ms, media_with_artwork_for_payload, ReporterLoop, SendDecision,
};
use waken_reporter::reporter::{config_is_ready, make_log_entry, ReporterState, MAX_LOGS};
use waken_reporter::reporter::logging::fallback_text;

fn ready_config() -> ClientConfig {
    let mut c = ClientConfig::default();
    c.base_url = "https://example.com".into();
    c.api_token = "token".into();
    c.generated_hash_key = "wwd-1".into();
    c
}

fn media(title: &str) -> MediaInfo {
    let mut m = MediaInfo::default();
    m.title = title.into();
    m.artist = "Artist".into();
    m
}

#[test]
fn reporter_config_errors_in_order() {
    let mut c = ClientConfig::default();
    assert_eq!(
        validate_reporter_config(&c, BackendLocale::EnUs).unwrap_err(),
        "Site URL is required before background sync can start."
    );
    c.base_url = "x".into();
    assert_eq!(
        validate_reporter_config(&c, BackendLocale::ZhCn).unwrap_err(),
        "缺少 API Token，无法启动后台同步。"
    );
    c.api_token = "t".into();
    assert_eq!(
        validate_reporter_config(&c, BackendLocale::EnUs).unwrap_err(),
        "Device key is required before background sync can start."
    );
    assert!(!config_is_ready(&c));
    assert!(config_is_ready(&ready_config()));
}

#[test]
fn metadata_must_be_an_object() {
    let empty = parse_reporter_metadata("  ", Err("unused".into()), BackendLocale::EnUs).unwrap();
    assert!(empty.is_empty());
    let err = parse_reporter_metadata("[1]", Ok(JsonValue::Array(vec![])), BackendLocale::EnUs)
        .unwrap_err();
    assert_eq!(err, "Reporter metadata must be a JSON object.");
    let err = parse_reporter_metadata("{", Err("EOF".into()), BackendLocale::EnUs).unwrap_err();
    assert_eq!(err, "Failed to parse reporter metadata: EOF");
    let mut m = JsonMap::new();
    m.insert("k".into(), JsonValue::Bool(true));
    let ok = parse_reporter_metadata("{\"k\":true}", Ok(JsonValue::Object(m)), BackendLocale::EnUs)
        .unwrap();
    assert_eq!(ok.get("k"), Some(&JsonValue::Bool(true)));
}

#[test]
fn payload_carries_dc_source_and_media() {
    let mut c = ready_config();
    c.device = " Desk ".into();
    c.discord_enabled = true;
    c.discord_source_id = " wwd-self ".into();
    let snapshot = ForegroundSnapshot { process_name: "code".into(), process_title: "main.rs".into() };
    let payload = build_payload(&c, &snapshot, &media("Song"), JsonMap::new());
    assert_eq!(payload.generated_hash_key, "wwd-1");
    assert_eq!(payload.device.as_deref(), Some("Desk"));
    assert_eq!(payload.process_title.as_deref(), Some("main.rs"));
    let metadata = payload.metadata.unwrap();
    assert_eq!(metadata.get("dc_source"), Some(&JsonValue::Text("wwd-self".into())));
    assert!(metadata.get("media").is_some());
}

#[test]
fn payload_without_metadata_when_nothing_to_add() {
    let c = ready_config();
    let snapshot = ForegroundSnapshot { process_name: "code".into(), process_title: String::new() };
    let payload = build_payload(&c, &snapshot, &MediaInfo::default(), JsonMap::new());
    assert!(payload.metadata.is_none());
    assert_eq!(payload.process_title, None);
}

#[test]
fn post_response_kinds() {
    let err = interpret_post_response(500, " oops ".into(), None, BackendLocale::EnUs).unwrap_err();
    assert_eq!(err, "Server returned HTTP 500: oops");

    let mut pending = JsonMap::new();
    pending.insert("pending".into(), JsonValue::Bool(true));
    pending.insert("approvalUrl".into(), JsonValue::Text("https://x/approve".into()));
    match interpret_post_response(202, "{}".into(), Some(JsonValue::Object(pending)), BackendLocale::EnUs)
        .unwrap()
    {
        PostActivityResult::PendingApproval { approval_url, .. } => {
            assert_eq!(approval_url.as_deref(), Some("https://x/approve"))
        }
        _ => panic!("expected a pending approval"),
    }

    let mut failed = JsonMap::new();
    failed.insert("success".into(), JsonValue::Bool(false));
    failed.insert("error".into(), JsonValue::Text("bad".into()));
    let err = interpret_post_response(200, "{}".into(), Some(JsonValue::Object(failed)), BackendLocale::EnUs)
        .unwrap_err();
    assert_eq!(err, "bad");

    match interpret_post_response(200, "not json".into(), None, BackendLocale::EnUs).unwrap() {
        PostActivityResult::Success { response_text, .. } => assert_eq!(response_text, "not json"),
        _ => panic!("expected success"),
    }
}

#[test]
fn log_keeps_newest_first_and_at_most_max() {
    let mut state = ReporterState::new();
    for i in 0..(MAX_LOGS as u64 + 5) {
        let entry = make_log_entry(
            1000,
            i,
            "t".into(),
            "info",
            fallback_text(format!("title {i}")),
            fallback_text("detail".into()),
            None,
        );
        state.push_log(entry);
    }
    assert_eq!(state.logs.len(), MAX_LOGS);
    assert_eq!(state.logs[0].title, format!("title {}", MAX_LOGS as u64 + 4));
    assert_eq!(state.logs[0].id, format!("1000-{}", MAX_LOGS as u64 + 4));
    assert_eq!(state.logs[1].title, format!("title {}", MAX_LOGS as u64 + 3));
}

#[test]
fn stale_reporter_run_is_ignored() {
    let mut state = ReporterState::new();
    assert!(state.begin_run(1));
    assert!(!state.begin_run(2));
    state.mark_stopped(Some("other".into()), 2);
    assert!(state.running);
    state.mark_stopped(Some("boom".into()), 1);
    assert!(!state.running);
    assert_eq!(state.last_error.as_deref(), Some("boom"));
    assert!(state.begin_run(3));
    assert_eq!(state.last_error, None);
}

#[test]
fn unchanged_activity_waits_for_heartbeat() {
    let mut c = ready_config();
    c.poll_interval_ms = 500;
    c.heartbeat_interval_ms = 60_000;
    let mut l = ReporterLoop::new(&c);
    assert_eq!(l.poll_interval_ms, 1000);
    let snapshot = ForegroundSnapshot { process_name: "code".into(), process_title: "a".into() };
    let sig = activity_signature(&snapshot, &MediaInfo::default(), &c);
    assert_eq!(l.send_decision(&sig, 0), SendDecision::Report);
    let mut m = MediaInfo::default();
    l.record_report(sig.clone(), 1_000, &None, &mut m);
    assert_eq!(l.send_decision(&sig, 2_000), SendDecision::Skip);
    assert_eq!(l.send_decision(&sig, 61_000), SendDecision::Heartbeat);
    let other = ForegroundSnapshot { process_name: "code".into(), process_title: "b".into() };
    let sig2 = activity_signature(&other, &MediaInfo::default(), &c);
    assert_eq!(l.send_decision(&sig2, 2_000), SendDecision::Report);
}

#[test]
fn no_heartbeat_when_interval_is_zero() {
    let mut c = ready_config();
    c.heartbeat_interval_ms = 0;
    let mut l = ReporterLoop::new(&c);
    let snapshot = ForegroundSnapshot::default();
    let sig = activity_signature(&snapshot, &MediaInfo::default(), &c);
    let mut m = MediaInfo::default();
    l.record_report(sig.clone(), 0, &None, &mut m);
    assert_eq!(l.send_decision(&sig, u64::MAX), SendDecision::Skip);
}

#[test]
fn reporter_backoff_values() {
    assert_eq!(error_sleep_ms(2000, 0), 2000);
    assert_eq!(error_sleep_ms(2000, 1), 2000);
    assert_eq!(error_sleep_ms(2000, 2), 8000);
    assert_eq!(error_sleep_ms(2000, 3), 16000);
    assert_eq!(error_sleep_ms(2000, 4), 30000);
    assert_eq!(error_sleep_ms(40_000, 9), 30000);
    let c = ready_config();
    let mut l = ReporterLoop::new(&c);
    assert_eq!(l.finish_turn(true), 2000);
    assert_eq!(l.finish_turn(true), 8000);
    assert_eq!(l.finish_turn(false), 2000);
    assert_eq!(l.consecutive_errors, 0);
}

#[test]
fn artwork_joins_only_the_same_media() {
    let c = ready_config();
    let playing = media("Song");
    let mut art = media("Song");
    art.cover_url = "data:image/png;base64,AA==".into();
    let with = media_with_artwork_for_payload(&playing, &c, Some(Ok(art)));
    assert_eq!(with.cover_url, "data:image/png;base64,AA==");
    let mut other = media("Other");
    other.cover_url = "data:x".into();
    let without = media_with_artwork_for_payload(&playing, &c, Some(Ok(other)));
    assert_eq!(without.cover_url, "");
}

#[test]
fn log_detail_text_in_english() {
    let snapshot = ForegroundSnapshot { process_name: "code".into(), process_title: "main.rs".into() };
    let detail = build_log_detail(&snapshot, &MediaInfo::default(), false, BackendLocale::EnUs);
    assert_eq!(detail.key, Some("reporterLogs.activityReported.detail"));
    assert!(detail.fallback.contains("code / main.rs"));
}

#[test]
fn logged_reports_leave_out_cover_art_at_any_depth() {
    let text = |s: &str| JsonValue::Text(s.to_string());
    let object = |entries: Vec<(&str, JsonValue)>| {
        JsonValue::Object(JsonMap {
            entries: entries.into_iter().map(|(k, v)| (k.to_string(), v)).collect(),
        })
    };
    let input = object(vec![
        ("a", JsonValue::Number(waken_reporter::json::JsonNumber::PosInt(1))),
        ("coverDataUrl", text("x")),
        ("media", object(vec![("cover_url", text("y")), ("title", text("t"))])),
        (
            "list",
            JsonValue::Array(vec![object(vec![("coverDataUrl", text("z")), ("k", JsonValue::Bool(true))])]),
        ),
    ]);
    let expected = object(vec![
        ("a", JsonValue::Number(waken_reporter::json::JsonNumber::PosInt(1))),
        ("media", object(vec![("title", text("t"))])),
        ("list", JsonValue::Array(vec![object(vec![("k", JsonValue::Bool(true))])])),
    ]);
    assert_eq!(waken_reporter::reporter::logging::omit_artwork_from_log_payload(&input), expected);
    assert_eq!(waken_reporter::reporter::logging::omit_artwork_from_log_payload(&text("coverDataUrl")), text("coverDataUrl"));
}
