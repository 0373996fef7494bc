use waken_reporter::discord::feed::{
    interpret_feed_response, item_dc_source, public_feed_url, select_dc_source_activity,
    PublicActivityFeed, PublicActivityItem,
};
use waken_reporter::discord::presence::{
    map_activity_to_presence, normalize_presence_line, presence_from_parts, DiscordPresencePayload,
};
use waken_reporter::discord::{
    config_is_ready, error_backoff, plan_sync, validate_discord_presence_config,
    DiscordLoop, DiscordPresenceState, IpcEvent, IpcSession, IpcStep, SyncAction,
};
use waken_reporter::json::{JsonMap, JsonValue};
use waken_reporter::locale::BackendLocale;
use waken_reporter::models::ClientConfig;

fn metadata_with_source(source: &str) -> Option<JsonValue> {
    let mut map = JsonMap::new();
    map.insert("dc_source".to_string(), JsonValue::Text(source.to_string()));
    Some(JsonValue::Object(map))
}

#[test]
fn selects_only_matching_dc_source_activity() {
    let items = vec![
        PublicActivityItem {
            metadata: metadata_with_source("wwd-other"),
            status_text: Some("Writing".into()),
            ..Default::default()
        },
        PublicActivityItem {
            metadata: metadata_with_source("wwd-self"),
            status_text: Some("Reviewing".into()),
            ..Default::default()
        },
    ];

    let selected = select_dc_source_activity(&items, "wwd-self").unwrap();
    assert_eq!(selected.status_text.as_deref(), Some("Reviewing"));
}

#[test]
fn ignores_other_sources() {
    let items = vec![PublicActivityItem {
        metadata: metadata_with_source("wwd-other"),
        status_text: Some("Streaming".into()),
        ..Default::default()
    }];

    assert!(select_dc_source_activity(&items, "wwd-self").is_none());
}

#[test]
fn extracts_dc_source_from_metadata() {
    let item = PublicActivityItem {
        metadata: metadata_with_source("wwd-self"),
        ..Default::default()
    };

    assert_eq!(item_dc_source(&item).as_deref(), Some("wwd-self"));
}

#[test]
fn maps_status_text_then_device_to_presence() {
    let payload = map_activity_to_presence(&PublicActivityItem {
        device: Some("Desk PC".into()),
        status_text: Some("Fixing Discord sync".into()),
        started_at: Some("2026-04-16T10:00:00Z".into()),
        ..Default::default()
    });

    assert_eq!(payload.details, "Fixing Discord sync");
    assert_eq!(payload.state.as_deref(), Some("Desk PC"));
    assert_eq!(payload.summary, "Fixing Discord sync · Desk PC");
    assert_eq!(payload.started_at_millis, Some(1_776_333_600_000));
}

#[test]
fn falls_back_to_process_title_and_name() {
    let payload = map_activity_to_presence(&PublicActivityItem {
        device: Some("Desk PC".into()),
        process_name: Some("Code.exe".into()),
        process_title: Some("src/App.vue".into()),
        ..Default::default()
    });

    assert_eq!(payload.details, "src/App.vue | Code.exe");
}

#[test]
fn blank_target_selects_nothing() {
    let items = vec![PublicActivityItem {
        metadata: metadata_with_source("wwd-self"),
        ..Default::default()
    }];
    assert!(select_dc_source_activity(&items, "   ").is_none());
}

#[test]
fn source_is_compared_trimmed() {
    let items = vec![PublicActivityItem {
        metadata: metadata_with_source("  wwd-self "),
        status_text: Some("Reviewing".into()),
        ..Default::default()
    }];
    assert!(select_dc_source_activity(&items, " wwd-self").is_some());
}

#[test]
fn first_matching_activity_wins() {
    let items = vec![
        PublicActivityItem {
            metadata: metadata_with_source("wwd-self"),
            status_text: Some("First".into()),
            ..Default::default()
        },
        PublicActivityItem {
            metadata: metadata_with_source("wwd-self"),
            status_text: Some("Second".into()),
            ..Default::default()
        },
    ];
    let selected = select_dc_source_activity(&items, "wwd-self").unwrap();
    assert_eq!(selected.status_text.as_deref(), Some("First"));
}

#[test]
fn non_object_metadata_has_no_source() {
    let item = PublicActivityItem {
        metadata: Some(JsonValue::Text("dc_source".into())),
        ..Default::default()
    };
    assert_eq!(item_dc_source(&item), None);
    let blank = PublicActivityItem {
        metadata: metadata_with_source("   "),
        ..Default::default()
    };
    assert_eq!(item_dc_source(&blank), None);
}

#[test]
fn presence_lines_collapse_whitespace() {
    assert_eq!(normalize_presence_line("  a \t b\n\nc  "), "a b c");
    assert_eq!(normalize_presence_line("   "), "");
    let once = normalize_presence_line(" x   y ");
    assert_eq!(normalize_presence_line(&once), once);
}

#[test]
fn fallback_details_without_anything_is_product_name() {
    let payload = map_activity_to_presence(&PublicActivityItem::default());
    assert_eq!(payload.details, "Waken-Wa");
    assert_eq!(payload.state, None);
    assert_eq!(payload.summary, "Waken-Wa");
    assert_eq!(payload.started_at_millis, None);
}

#[test]
fn fallback_details_with_title_only_or_name_only() {
    let title_only = map_activity_to_presence(&PublicActivityItem {
        process_title: Some(" Title ".into()),
        ..Default::default()
    });
    assert_eq!(title_only.details, "Title");
    let name_only = map_activity_to_presence(&PublicActivityItem {
        process_name: Some("App".into()),
        status_text: Some("   ".into()),
        ..Default::default()
    });
    assert_eq!(name_only.details, "App");
}

#[test]
fn invalid_start_time_gives_no_timestamp() {
    let payload = map_activity_to_presence(&PublicActivityItem {
        status_text: Some("x".into()),
        started_at: Some("yesterday".into()),
        ..Default::default()
    });
    assert_eq!(payload.started_at_millis, None);
    let offset = map_activity_to_presence(&PublicActivityItem {
        status_text: Some("x".into()),
        started_at: Some("2026-04-16T18:00:00+08:00".into()),
        ..Default::default()
    });
    assert_eq!(offset.started_at_millis, Some(1_776_333_600_000));
}

#[test]
fn presence_from_parts_keeps_given_start() {
    let item = PublicActivityItem {
        device: Some("  Desk   PC ".into()),
        status_text: Some("Coding".into()),
        ..Default::default()
    };
    let payload = presence_from_parts(&item, Some(42));
    assert_eq!(
        payload,
        DiscordPresencePayload {
            details: "Coding".into(),
            state: Some("Desk PC".into()),
            started_at_millis: Some(42),
            summary: "Coding · Desk PC".into(),
        }
    );
}

#[test]
fn feed_url_strips_trailing_slashes() {
    assert_eq!(
        public_feed_url("https://example.com//"),
        "https://example.com/api/activity?public=1"
    );
}

#[test]
fn feed_response_errors_and_data() {
    let err = interpret_feed_response(503, " down ", None, BackendLocale::EnUs).unwrap_err();
    assert_eq!(err, "Public activity returned HTTP 503: down");
    let err_zh = interpret_feed_response(500, "", None, BackendLocale::ZhCn).unwrap_err();
    assert_eq!(err_zh, "公开活动接口返回状态码 500");

    let mut failed = JsonMap::new();
    failed.insert("success".into(), JsonValue::Bool(false));
    let err = interpret_feed_response(200, "{...}", Some(JsonValue::Object(failed)), BackendLocale::EnUs)
        .unwrap_err();
    assert_eq!(err, "Public activity returned failure");

    let mut doc = JsonMap::new();
    doc.insert("data".into(), JsonValue::Text("feed".into()));
    let ok = interpret_feed_response(200, "{...}", Some(JsonValue::Object(doc)), BackendLocale::EnUs)
        .unwrap();
    assert_eq!(ok, JsonValue::Text("feed".into()));

    let blank = interpret_feed_response(200, "  ", None, BackendLocale::EnUs).unwrap();
    assert_eq!(blank, JsonValue::Object(JsonMap::new()));
}

#[test]
fn discord_config_validation_order() {
    let mut config = ClientConfig::default();
    let err = validate_discord_presence_config(&config, BackendLocale::EnUs).unwrap_err();
    assert_eq!(err, "Site URL is required before Discord sync can start.");
    config.base_url = "https://example.com".into();
    let err = validate_discord_presence_config(&config, BackendLocale::ZhCn).unwrap_err();
    assert_eq!(err, "缺少 Discord Application ID，无法启动 Discord 同步。");
    config.discord_application_id = "123".into();
    let err = validate_discord_presence_config(&config, BackendLocale::EnUs).unwrap_err();
    assert_eq!(err, "Discord source ID is required before Discord sync can start.");
    assert!(!config_is_ready(&config));
    config.discord_source_id = "wwd-self".into();
    assert!(validate_discord_presence_config(&config, BackendLocale::EnUs).is_ok());
    assert!(config_is_ready(&config));
}

#[test]
fn sync_backoff_values() {
    assert_eq!(error_backoff(0), 15_000);
    assert_eq!(error_backoff(1), 15_000);
    assert_eq!(error_backoff(2), 30_000);
    assert_eq!(error_backoff(3), 60_000);
    assert_eq!(error_backoff(4), 60_000);
    assert_eq!(error_backoff(u32::MAX), 60_000);
}

#[test]
fn sync_backoff_is_bounded_and_monotone() {
    let mut last = 0;
    for n in 0..100u32 {
        let b = error_backoff(n);
        assert!((15_000..=60_000).contains(&b));
        assert!(b >= last);
        last = b;
    }
}

#[test]
fn loop_resets_after_success() {
    let mut l = DiscordLoop::new();
    assert_eq!(l.record_failure(), 15_000);
    assert_eq!(l.record_failure(), 30_000);
    assert_eq!(l.record_success(), 15_000);
    assert_eq!(l.consecutive_errors, 0);
    assert_eq!(l.record_failure(), 15_000);
}

#[test]
fn stale_runs_do_not_change_state() {
    let mut s = DiscordPresenceState::new();
    assert!(s.begin_run(7));
    assert!(!s.begin_run(8));
    s.update_presence(true, None, Some("A".into()), 99, "t".into());
    assert!(!s.connected);
    assert_eq!(s.current_summary, None);
    s.update_presence(true, None, Some("A".into()), 7, "t1".into());
    assert!(s.connected);
    assert_eq!(s.current_summary.as_deref(), Some("A"));
    assert_eq!(s.last_sync_at.as_deref(), Some("t1"));
    s.set_error(Some("boom".into()), false, 99);
    assert_eq!(s.last_error, None);
    s.set_error_preserving_connection(Some("feed".into()), 7);
    assert!(s.connected);
    assert_eq!(s.last_error.as_deref(), Some("feed"));
    s.mark_stopped(7);
    assert!(!s.running);
    assert!(!s.connected);
    s.update_presence(true, None, Some("B".into()), 7, "t2".into());
    assert_eq!(s.current_summary.as_deref(), Some("A"));
    let snap = s.snapshot();
    assert!(!snap.running);
    assert_eq!(snap.last_error.as_deref(), Some("feed"));
}

#[test]
fn end_run_clears_connection() {
    let mut s = DiscordPresenceState::new();
    s.begin_run(1);
    s.update_presence(true, None, None, 1, "t".into());
    s.end_run();
    assert!(!s.running);
    assert!(!s.connected);
    assert_eq!(s.active_run_id, None);
    assert!(s.begin_run(2));
}

#[test]
fn plan_sync_applies_or_clears() {
    let feed = PublicActivityFeed {
        active_statuses: vec![PublicActivityItem {
            metadata: metadata_with_source("wwd-self"),
            status_text: Some("Reviewing".into()),
            device: Some("Laptop".into()),
            ..Default::default()
        }],
    };
    match plan_sync(&feed, "wwd-self") {
        SyncAction::Apply(p) => assert_eq!(p.summary, "Reviewing · Laptop"),
        SyncAction::Clear => panic!("expected a presence"),
    }
    assert!(matches!(plan_sync(&feed, "wwd-other"), SyncAction::Clear));
}

#[test]
fn ipc_session_retries_once() {
    let (mut session, step) = IpcSession::start(false);
    assert!(matches!(step, IpcStep::Connect));
    assert!(matches!(session.step(IpcEvent::Connected, BackendLocale::EnUs), IpcStep::Run));
    assert!(matches!(session.step(IpcEvent::Failed, BackendLocale::EnUs), IpcStep::Connect));
    assert!(matches!(session.step(IpcEvent::Connected, BackendLocale::EnUs), IpcStep::Run));
    match session.step(IpcEvent::Failed, BackendLocale::EnUs) {
        IpcStep::Finish(Err(e)) => {
            assert_eq!(e, "Discord IPC is unavailable. Make sure Discord Desktop is running.")
        }
        _ => panic!("expected the session to end"),
    }
    let (mut open, step) = IpcSession::start(true);
    assert!(matches!(step, IpcStep::Run));
    assert!(matches!(open.step(IpcEvent::Succeeded, BackendLocale::ZhCn), IpcStep::Finish(Ok(()))));
    let (mut fail, _) = IpcSession::start(false);
    match fail.step(IpcEvent::ConnectFailed("no pipe".into()), BackendLocale::ZhCn) {
        IpcStep::Finish(Err(e)) => assert_eq!(e, "no pipe"),
        _ => panic!("expected the connection error"),
    }
}
