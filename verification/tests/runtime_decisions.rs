use base64::Engine;
use waken_reporter::commands::app_state::settings_validation_failure;
use waken_reporter::discord::DiscordPresenceState;
use waken_reporter::import_config::{import_candidates, parse_import_payload};
use waken_reporter::json::{JsonMap, JsonNumber, JsonValue};
use waken_reporter::locale::BackendLocale;
use waken_reporter::models::{AppStatePayload, ClientConfig, StartCheck};
use waken_reporter::state_store::{load_app_state_from, prepare_app_state_for_save, StateFileRead};
use waken_reporter::platform::android::{
    get_permission_status, request_android_accessibility_permission,
    request_android_notification_access, request_android_usage_access, AndroidPermissionStatus,
};
use waken_reporter::platform::linux::media::normalize_playback_state;
use waken_reporter::platform::linux::{
    env_flag, linux_foreground_result, linux_reader_order, LinuxReader,
};
use waken_reporter::platform::{millis_i64_of, ForegroundSnapshot, MediaInfo};
use waken_reporter::reporter::payload::activity_request;
use waken_reporter::discord::feed::{PublicActivityFeed, PublicActivityItem};
use waken_reporter::discord::{plan_sync, SyncAction};
use waken_reporter::platform::linux::self_test::run_self_test as linux_self_test;
use waken_reporter::reporter::logging::fallback_text;
use waken_reporter::reporter::payload::build_payload;
use waken_reporter::reporter::{starts_at_launch, PostOutcome, ReporterState};
use waken_reporter::reporter_config::{existing_config_from_file, ReporterConfigFile};
use waken_reporter::platform::windows::{bgra_to_rgba, icon_bitmap_to_png};
use waken_reporter::runtime_utils::millis_of;

fn object(entries: Vec<(&str, JsonValue)>) -> JsonValue {
    let mut m = JsonMap::new();
    for (k, v) in entries {
        m.insert(k.to_string(), v);
    }
    JsonValue::Object(m)
}

fn num(n: u64) -> JsonValue {
    JsonValue::Number(JsonNumber::PosInt(n))
}

fn snapshot(name: &str) -> ForegroundSnapshot {
    ForegroundSnapshot { process_name: name.into(), process_title: "t".into() }
}

#[test]
fn activity_request_keeps_the_site_address_and_token_form() {
    let (url, header) = activity_request(" a /", " tok ");
    assert_eq!(url, " a /api/activity");
    assert_eq!(header, "Bearer tok");
    let (url, header) = activity_request("https://example.com///", "   ");
    assert_eq!(url, "https://example.com/api/activity");
    assert_eq!(header, "Bearer ");
}

#[test]
fn clock_readings_become_milliseconds() {
    assert_eq!(millis_of(Some(5)), 5);
    assert_eq!(millis_of(None), 0);
    assert_eq!(millis_i64_of(Some(1_700_000_000_000)), 1_700_000_000_000);
    assert_eq!(millis_i64_of(Some(i64::MAX as u128)), i64::MAX);
    assert_eq!(millis_i64_of(Some(i64::MAX as u128 + 1)), 0);
    assert_eq!(millis_i64_of(None), 0);
}

#[test]
fn linux_readers_follow_the_session() {
    assert_eq!(
        linux_reader_order(true, false, true, true),
        Some((LinuxReader::Wayland, Some(LinuxReader::X11)))
    );
    assert_eq!(linux_reader_order(false, true, true, false), Some((LinuxReader::Wayland, None)));
    assert_eq!(
        linux_reader_order(true, true, false, false),
        Some((LinuxReader::X11, Some(LinuxReader::Wayland)))
    );
    assert_eq!(linux_reader_order(false, false, true, true), None);
    assert_eq!(linux_reader_order(false, false, false, false), None);
    assert!(env_flag(Some("wayland-0".into())));
    assert!(!env_flag(Some("  ".into())));
    assert!(!env_flag(None));
}

#[test]
fn linux_foreground_errors_combine_outside_wayland() {
    let first_ok = linux_foreground_result(false, Ok(snapshot("a")), None).unwrap();
    assert_eq!(first_ok.process_name, "a");
    let second_ok =
        linux_foreground_result(false, Err("x".into()), Some(Ok(snapshot("b")))).unwrap();
    assert_eq!(second_ok.process_name, "b");
    let both = linux_foreground_result(false, Err("x".into()), Some(Err("w".into())));
    assert_eq!(both.unwrap_err(), "读取 Linux 前台窗口失败。X11：x；Wayland：w");
    let wayland = linux_foreground_result(true, Err("w".into()), Some(Err("x".into())));
    assert_eq!(wayland.unwrap_err(), "w");
    let alone = linux_foreground_result(true, Err("w".into()), None);
    assert_eq!(alone.unwrap_err(), "w");
}

#[test]
fn settings_failure_counts_every_issue() {
    let doc = object(vec![(
        "config",
        object(vec![("pollIntervalMs", num(1)), ("heartbeatIntervalMs", JsonValue::Text("x".into()))]),
    )]);
    let failure = settings_validation_failure(&doc).unwrap();
    let e = failure.error.unwrap();
    assert_eq!(e.params, Some(object(vec![("count", num(2))])));
    match e.details.unwrap() {
        JsonValue::Object(m) => match m.get("issues") {
            Some(JsonValue::Array(items)) => assert_eq!(items.len(), 2),
            _ => panic!("issues missing"),
        },
        _ => panic!("details not an object"),
    }
}

#[test]
fn reporter_starts_at_launch_only_when_enabled_and_ready() {
    let mut c = ClientConfig::default();
    c.base_url = "https://example.com".into();
    c.api_token = "token".into();
    c.generated_hash_key = "wwd-1".into();
    c.reporter_enabled = false;
    assert!(!starts_at_launch(&c));
    c.reporter_enabled = true;
    assert!(starts_at_launch(&c));
    c.api_token = " ".into();
    assert!(!starts_at_launch(&c));
}

#[test]
fn refused_starts_name_the_missing_setting() {
    let mut running = DiscordPresenceState::new();
    assert!(running.begin_run(1));
    let config = ClientConfig::default();
    match running.check_start(&config, BackendLocale::EnUs) {
        StartCheck::Refused(m) => assert_eq!(m, "Site URL is required before Discord sync can start."),
        other => panic!("unexpected {:?}", other),
    }
    assert!(running.running);
    let mut ready = ClientConfig::default();
    ready.base_url = "https://example.com".into();
    ready.discord_application_id = "123".into();
    ready.discord_source_id = "wwd-self".into();
    assert!(matches!(running.check_start(&ready, BackendLocale::EnUs), StartCheck::AlreadyRunning));
    assert!(matches!(DiscordPresenceState::new().check_start(&ready, BackendLocale::EnUs), StartCheck::Ready));

    let reporter = ReporterState::new();
    match reporter.check_start(&ClientConfig::default(), BackendLocale::ZhCn) {
        StartCheck::Refused(m) => assert!(!m.is_empty()),
        other => panic!("unexpected {:?}", other),
    }
    let mut c = ClientConfig::default();
    c.base_url = "https://example.com".into();
    c.api_token = "token".into();
    c.generated_hash_key = "wwd-1".into();
    assert!(matches!(reporter.check_start(&c, BackendLocale::EnUs), StartCheck::Ready));
}

#[test]
fn base64_import_is_tried_as_its_text() {
    let text = "{\"token\":{\"items\":[]}}";
    let encoded = base64::engine::general_purpose::STANDARD.encode(text);
    let candidates = import_candidates(&encoded);
    assert_eq!(candidates[0], encoded);
    assert_eq!(candidates[1], text);
    assert!(!encoded.contains('{'));
}

#[test]
fn ascii_playback_states_are_lowercased() {
    assert_eq!(normalize_playback_state(" PLAYING "), "playing");
    assert_eq!(normalize_playback_state("Pause"), "paused");
}

#[test]
fn reporting_subset_keeps_the_signature() {
    let mut m = MediaInfo::default();
    m.title = " Song ".into();
    m.artist = "Artist".into();
    m.source_app_id = "player".into();
    m.cover_url = "data:x".into();
    m.position_ms = Some(10);
    let sig = m.signature_for_reporting(true, false);
    let mut other = m.clone();
    other.title = "Song".into();
    other.cover_url = String::new();
    other.position_ms = Some(99);
    other.source_app_id = "elsewhere".into();
    assert_eq!(other.signature_for_reporting(true, false), sig);
    let subset = m.clone().into_reporting_subset(true, false);
    assert_eq!(subset.signature_for_reporting(true, false), sig);
    let none = m.clone().into_reporting_subset(false, false);
    assert_eq!(none.signature_for_reporting(false, false), m.signature_for_reporting(false, false));
}

#[test]
fn android_permission_errors_are_reported() {
    let failed = get_permission_status(AndroidPermissionStatus {
        usage_access_granted: true,
        notification_listener_granted: false,
        error: Some("no context".into()),
    });
    assert_eq!(failed.unwrap_err(), "no context");
    let fine = get_permission_status(AndroidPermissionStatus {
        usage_access_granted: true,
        notification_listener_granted: false,
        error: Some("  ".into()),
    })
    .unwrap();
    assert!(fine.usage_access_granted);
    assert!(!fine.notification_listener_granted);
    assert_eq!(fine.error.as_deref(), Some("  "));
}

#[test]
fn android_permission_requests_answer_the_status() {
    let status = AndroidPermissionStatus {
        usage_access_granted: true,
        notification_listener_granted: false,
        error: None,
    };
    assert_eq!(request_android_usage_access(&status, Ok(())), Ok(true));
    assert_eq!(request_android_notification_access(&status, Ok(())), Ok(false));
    assert_eq!(
        request_android_usage_access(&status, Err("no activity".into())),
        Err("no activity".to_string())
    );
    assert_eq!(request_android_accessibility_permission(Ok(())), Ok(false));
    assert_eq!(
        request_android_accessibility_permission(Err("x".into())),
        Err("x".to_string())
    );
}

#[test]
fn saved_state_loads_back_as_saved() {
    let mut state = AppStatePayload::default();
    state.locale = "en-US".into();
    state.onboarding_dismissed = true;
    state.config.base_url = "https://example.com".into();
    let saved = prepare_app_state_for_save(state, [3; 16]);
    assert_eq!(saved.config.generated_hash_key, "wwd-03030303-0303-4303-8303-030303030303");
    let loaded =
        load_app_state_from(StateFileRead::Content("{\"locale\":\"en-US\"}".into()), Some(saved.clone()), [9; 16])
            .unwrap();
    assert!(!loaded.needs_save);
    assert!(!loaded.backup_corrupt_file);
    assert_eq!(loaded.payload.config.generated_hash_key, saved.config.generated_hash_key);
    assert_eq!(loaded.payload.config.base_url, "https://example.com");
    assert_eq!(loaded.payload.locale, "en-US");
    assert!(loaded.payload.onboarding_dismissed);
}

#[test]
fn base64_and_json_imports_agree() {
    let text = "{\"endpoint\":\"https://r\",\"apiKey\":\"K\"}";
    let encoded = base64::engine::general_purpose::STANDARD.encode(text);
    let mut object = JsonMap::new();
    object.insert("endpoint".to_string(), JsonValue::Text("https://r".into()));
    object.insert("apiKey".to_string(), JsonValue::Text("K".into()));
    let from_text = parse_import_payload(text, vec![Some(object.duplicate())]).unwrap();
    let from_base64 = parse_import_payload(&encoded, vec![None, Some(object)]).unwrap();
    assert_eq!(from_base64.report_endpoint, from_text.report_endpoint);
    assert_eq!(from_base64.token, from_text.token);
    assert_eq!(from_base64.token.as_deref(), Some("K"));
    assert_eq!(from_base64.token_name, from_text.token_name);
    assert_eq!(from_base64.raw, from_text.raw);
}

fn config_file(poll: Option<u64>) -> ReporterConfigFile {
    ReporterConfigFile {
        base_url: "https://x.com".into(),
        api_token: "tok".into(),
        device_name: "Desk".into(),
        generated_hash_key: "wwd-1".into(),
        poll_interval_ms: poll,
        heartbeat_interval_ms: None,
    }
}

#[test]
fn imported_poll_interval_is_at_least_a_second() {
    let poll = |p: Option<u64>| {
        existing_config_from_file("/c.json".into(), config_file(p), None, [0; 16])
            .config
            .unwrap()
            .poll_interval_ms
    };
    assert_eq!(poll(Some(500)), 1000);
    assert_eq!(poll(Some(1)), 1000);
    assert_eq!(poll(Some(999)), 1000);
    assert_eq!(poll(Some(1000)), 1000);
    assert_eq!(poll(Some(5000)), 5000);
    assert_eq!(poll(Some(0)), 2000);
    assert_eq!(poll(None), 2000);
}

#[test]
fn plan_sync_fills_the_whole_presence() {
    let mut metadata = JsonMap::new();
    metadata.insert("dc_source".to_string(), JsonValue::Text("wwd-self".into()));
    let feed = PublicActivityFeed {
        active_statuses: vec![PublicActivityItem {
            metadata: Some(JsonValue::Object(metadata)),
            status_text: Some("Reviewing".into()),
            device: Some("  My   Laptop ".into()),
            started_at: Some("2024-01-01T00:00:01Z".into()),
            ..Default::default()
        }],
    };
    match plan_sync(&feed, "wwd-self") {
        SyncAction::Apply(p) => {
            assert_eq!(p.state.as_deref(), Some("My Laptop"));
            assert_eq!(p.started_at_millis, Some(1_704_067_201_000));
            assert_eq!(p.summary, "Reviewing · My Laptop");
        }
        SyncAction::Clear => panic!("expected a presence"),
    }
}

#[test]
fn linux_self_test_successes_are_described() {
    let mut m = MediaInfo::default();
    m.title = "Song".into();
    m.artist = "Artist".into();
    let r = linux_self_test(Ok(snapshot("code")), Ok(snapshot("code")), Ok(m));
    assert_eq!(r.window_title.summary_key.as_deref(), Some("platformSelfTest.summary.windowTitleOk"));
    assert_eq!(r.window_title.detail, "t");
    assert_eq!(r.media.summary_key.as_deref(), Some("platformSelfTest.summary.mediaOk"));
    assert_eq!(r.media.summary, "媒体采集正常");
    assert_eq!(r.media.detail, "Song / Artist");
    let none = linux_self_test(Ok(snapshot("code")), Ok(snapshot("code")), Ok(MediaInfo::default()));
    assert_eq!(none.media.guidance, vec!["如需验证媒体采集，请先播放一段音频/视频后重试。".to_string()]);
}

#[test]
fn blank_device_falls_back_to_the_machine() {
    let mut c = ClientConfig::default();
    c.generated_hash_key = " wwd-1 ".into();
    c.device = "  ".into();
    let p = build_payload(&c, &snapshot("code"), &MediaInfo::default(), JsonMap::new());
    assert_eq!(p.generated_hash_key, "wwd-1");
    let device = p.device.unwrap();
    assert!(!device.trim().is_empty());
    assert_eq!(device, device.trim());
}

#[test]
fn pending_approval_then_accepted_report() {
    let mut state = ReporterState::new();
    assert!(state.start_run(1, 1000, 2, "t0".into()));
    assert_eq!(state.logs.len(), 1);
    assert_eq!(state.logs[0].level, "info");
    assert_eq!(state.logs[0].title_key.as_deref(), Some("reporterLogs.started.title"));
    assert_eq!(state.logs[0].id, "1000-2");
    assert!(!state.start_run(3, 1000, 4, "t0".into()));
    assert_eq!(state.logs.len(), 1);

    let had_error = state.record_post_outcome(
        &snapshot("code"),
        PostOutcome::PendingApproval {
            message: "waiting".into(),
            approval_url: Some("https://x/approve".into()),
            response: None,
        },
        false,
        2000,
        5,
        "t1".into(),
    );
    assert!(had_error);
    assert!(state.running);
    assert_eq!(state.active_run_id, Some(1));
    assert_eq!(state.last_error.as_deref(), Some("waiting"));
    assert_eq!(state.last_pending_approval_message.as_deref(), Some("waiting"));
    assert_eq!(state.last_pending_approval_url.as_deref(), Some("https://x/approve"));
    assert_eq!(state.logs[0].level, "warn");
    assert_eq!(state.logs[0].detail, "waiting。请前往设备管理完成审核：https://x/approve");

    let had_error = state.record_post_outcome(
        &snapshot("code"),
        PostOutcome::Reported {
            media_cover_url: Some("https://x/c.png".into()),
            detail: fallback_text("sent".into()),
            response: None,
        },
        true,
        3000,
        6,
        "t2".into(),
    );
    assert!(!had_error);
    assert!(state.running);
    assert!(state.last_error.is_none());
    assert!(state.last_pending_approval_message.is_none());
    assert!(state.last_pending_approval_url.is_none());
    assert_eq!(state.last_heartbeat_at.as_deref(), Some("t2"));
    assert_eq!(state.logs[0].level, "success");
    assert_eq!(state.logs[0].title_key.as_deref(), Some("reporterLogs.activityHeartbeat.title"));
    assert_eq!(state.logs.len(), 3);
    let activity = state.current_activity.clone().unwrap();
    assert_eq!(activity.media_cover_url.as_deref(), Some("https://x/c.png"));
    assert_eq!(activity.updated_at.as_deref(), Some("t2"));

    let had_error = state.record_post_outcome(
        &snapshot("code"),
        PostOutcome::Failed("HTTP 500".into()),
        false,
        4000,
        7,
        "t3".into(),
    );
    assert!(had_error);
    assert_eq!(state.last_error.as_deref(), Some("HTTP 500"));
    assert_eq!(state.logs[0].level, "error");
    assert_eq!(state.logs[0].detail, "HTTP 500");
    assert_eq!(state.last_heartbeat_at.as_deref(), Some("t2"));
}

#[test]
fn legacy_state_defaults_new_discord_fields() {
    let mut config = ClientConfig::default();
    config.base_url = "https://example.com".into();
    config.api_token = "token".into();
    config.generated_hash_key = "wwd-1".into();
    assert!(!config.discord_enabled);
    assert_eq!(config.discord_application_id, "");
    assert!(config.discord_source_id.is_empty());
}

#[test]
fn icon_bitmaps_become_rgba_png() {
    assert_eq!(bgra_to_rgba(&vec![1, 2, 3, 4, 5, 6, 7, 8, 9]), vec![3, 2, 1, 4, 7, 6, 5, 8, 9]);
    let png = icon_bitmap_to_png(&vec![0, 0, 255, 255, 255, 0, 0, 255, 0, 255, 0, 255, 9, 9, 9, 0], 2).unwrap();
    assert_eq!(&png[..8], &[0x89, b'P', b'N', b'G', 0x0D, 0x0A, 0x1A, 0x0A]);
    let decoded = image::load_from_memory(&png).unwrap().to_rgba8();
    assert_eq!(decoded.get_pixel(0, 0).0, [255, 0, 0, 255]);
    assert_eq!(decoded.get_pixel(1, 0).0, [0, 0, 255, 255]);
}
