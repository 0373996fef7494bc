use waken_reporter::commands::app_state::{
    get_client_capabilities, parse_imported_integration_config, settings_payload_failure,
    settings_validation_failure, suggested_reporter_timing_values, suggested_timing_value,
    validate_reporter_timing_payload, validate_timing_field,
};
use waken_reporter::commands::helpers::{
    build_activity_report_body, build_connectivity_probe_body, build_inspiration_asset_body,
    build_inspiration_entry_body, discord_start_error_code, normalize_optional_trimmed,
    reporter_start_error_code, validate_image_data_url, with_dc_source_metadata,
};
use waken_reporter::commands::http::{inspiration_entries_path, validation_failure};
use waken_reporter::commands::{
    accessibility_permission_answer, discord_start_answer, reporter_start_answer,
    self_test_answer, self_test_spawn_error, SelfTestOutcome,
};
use waken_reporter::http_client::{
    authorization_header, interpret_json_payload_response, interpret_json_response,
    normalize_base_url, read_failure, request_url, send_failure,
};
use waken_reporter::import_config::{import_candidates, parse_import_payload};
use waken_reporter::json::{JsonMap, JsonNumber, JsonValue};
use waken_reporter::models::{ActivityPayload, ClientConfig, InspirationEntryCreateInput, DiscordPresenceSnapshot};

fn object(entries: Vec<(&str, JsonValue)>) -> JsonValue {
    let mut m = JsonMap::new();
    for (k, v) in entries {
        m.insert(k.to_string(), v);
    }
    JsonValue::Object(m)
}

fn num(n: u64) -> JsonValue {
    JsonValue::Number(JsonNumber::PosInt(n))
}

fn payload(device: Option<&str>) -> ActivityPayload {
    ActivityPayload {
        generated_hash_key: "  ".into(),
        process_name: " code ".into(),
        device: device.map(str::to_string),
        process_title: Some("  ".into()),
        persist_minutes: Some(5),
        battery_level: None,
        is_charging: Some(true),
        device_type: Some(" desktop ".into()),
        push_mode: None,
        metadata: None,
    }
}

#[test]
fn normalize_optional_trimmed_drops_blank() {
    assert_eq!(normalize_optional_trimmed(Some("  a ".into())), Some("a".into()));
    assert_eq!(normalize_optional_trimmed(Some("   ".into())), None);
    assert_eq!(normalize_optional_trimmed(None), None);
}

#[test]
fn dc_source_metadata_added_when_configured() {
    let with = with_dc_source_metadata(Some(object(vec![("a", num(1))])), " wwd ");
    assert_eq!(with.get("dc_source"), Some(&JsonValue::Text("wwd".into())));
    assert_eq!(with.get("a"), Some(&num(1)));
    let without = with_dc_source_metadata(Some(JsonValue::Bool(true)), "  ");
    assert_eq!(without, JsonValue::Object(JsonMap::new()));
}

#[test]
fn activity_report_body_fields() {
    let mut config = ClientConfig::default();
    config.generated_hash_key = " key ".into();
    config.discord_source_id = "src".into();
    let body = build_activity_report_body(&config, payload(Some(" Phone ")));
    assert_eq!(body.get("generatedHashKey"), Some(&JsonValue::Text("key".into())));
    assert_eq!(body.get("process_name"), Some(&JsonValue::Text("code".into())));
    assert_eq!(body.get("device"), Some(&JsonValue::Text("Phone".into())));
    assert_eq!(body.get("process_title"), Some(&JsonValue::Null));
    assert_eq!(body.get("persist_minutes"), Some(&num(5)));
    assert_eq!(body.get("battery_level"), Some(&JsonValue::Null));
    assert_eq!(body.get("is_charging"), Some(&JsonValue::Bool(true)));
    assert_eq!(body.get("device_type"), Some(&JsonValue::Text("desktop".into())));
    assert_eq!(body.get("push_mode"), Some(&JsonValue::Null));
    let metadata = body.get("metadata").unwrap();
    assert_eq!(metadata.get("dc_source"), Some(&JsonValue::Text("src".into())));
    config.device = " Desk ".into();
    let body = build_activity_report_body(&config, payload(None));
    assert_eq!(body.get("device"), Some(&JsonValue::Text("Desk".into())));
}

#[test]
fn probe_and_asset_bodies() {
    let mut config = ClientConfig::default();
    config.generated_hash_key = " k ".into();
    config.device = "Desk".into();
    config.device_type = " mobile ".into();
    let probe = build_connectivity_probe_body(&config);
    assert_eq!(
        probe,
        object(vec![
            ("generatedHashKey", JsonValue::Text("k".into())),
            ("device", JsonValue::Text("Desk".into())),
            ("deviceType", JsonValue::Text("mobile".into())),
        ])
    );
    let asset = build_inspiration_asset_body(&config, "data:image/png;base64,AA".into());
    assert_eq!(asset.get("imageDataUrl"), Some(&JsonValue::Text("data:image/png;base64,AA".into())));
    assert_eq!(asset.get("generatedHashKey"), Some(&JsonValue::Text("k".into())));
}

#[test]
fn inspiration_entry_body_trims_title_and_content() {
    let input = InspirationEntryCreateInput {
        title: " T ".into(),
        content: " C ".into(),
        content_lexical: None,
        image_data_url: None,
        generated_hash_key: Some("k".into()),
        attach_current_status: Some(false),
        pre_computed_status_snapshot: None,
        attach_status_device_hash: None,
        attach_status_activity_key: None,
        attach_status_include_device_info: None,
    };
    let body = build_inspiration_entry_body(input);
    assert_eq!(body.get("title"), Some(&JsonValue::Text("T".into())));
    assert_eq!(body.get("content"), Some(&JsonValue::Text("C".into())));
    assert_eq!(body.get("generatedHashKey"), Some(&JsonValue::Text("k".into())));
    assert_eq!(body.get("attachCurrentStatus"), Some(&JsonValue::Bool(false)));
    assert_eq!(body.get("contentLexical"), Some(&JsonValue::Null));
}

#[test]
fn image_data_url_checks() {
    assert!(validate_image_data_url(None).is_ok());
    assert!(validate_image_data_url(Some("   ")).is_ok());
    assert!(validate_image_data_url(Some(" data:image/png;base64,AA ")).is_ok());
    let err = validate_image_data_url(Some("http://x/a.png")).unwrap_err();
    assert_eq!(err.code, "backendErrors.imageInvalidType");
    assert!(err.params.is_none());
    let big = format!("data:image/png;base64,{}", "A".repeat(7 * 1024 * 1024));
    let err = validate_image_data_url(Some(&big)).unwrap_err();
    assert_eq!(err.code, "backendErrors.imageTooLarge");
    assert_eq!(err.params, Some(object(vec![("maxBytes", num(7 * 1024 * 1024))])));
    let exact = "data:image/".to_string() + &"A".repeat(7 * 1024 * 1024 - 11);
    assert!(validate_image_data_url(Some(&exact)).is_ok());
    let answer = validation_failure(err);
    assert_eq!(answer.status, 400);
    assert_eq!(answer.error.unwrap().code.as_deref(), Some("backendErrors.imageTooLarge"));
}

#[test]
fn start_error_codes() {
    assert_eq!(
        reporter_start_error_code("Site URL is required before background sync can start."),
        Some("backendErrors.reporterConfigBaseUrlMissing")
    );
    assert_eq!(
        reporter_start_error_code("缺少 GeneratedHashKey，无法启动后台同步。"),
        Some("backendErrors.reporterConfigGeneratedHashKeyMissing")
    );
    assert_eq!(
        reporter_start_error_code("Realtime reporter is still stopping."),
        Some("backendErrors.reporterWorkerStopping")
    );
    assert_eq!(reporter_start_error_code("other"), None);
    assert_eq!(
        discord_start_error_code("缺少 Discord 来源标识，无法启动 Discord 同步。"),
        Some("backendErrors.discordConfigSourceIdMissing")
    );
    assert_eq!(
        discord_start_error_code("Discord Application ID is required"),
        Some("backendErrors.discordConfigAppIdMissing")
    );
    assert_eq!(discord_start_error_code(""), None);
}

#[test]
fn start_answers() {
    let err = discord_start_answer(Err("Site URL is required before Discord sync can start.".into()));
    assert!(!err.success);
    assert_eq!(err.status, 400);
    let e = err.error.unwrap();
    assert_eq!(e.code.as_deref(), Some("backendErrors.discordConfigBaseUrlMissing"));
    let ok = discord_start_answer(Ok(DiscordPresenceSnapshot {
        running: true,
        connected: false,
        last_sync_at: None,
        last_error: None,
        current_summary: None,
    }));
    assert!(ok.success);
    assert_eq!(ok.status, 200);
    let r = reporter_start_answer(Err("x".into()));
    assert_eq!(r.error.unwrap().code, None);
    let a = accessibility_permission_answer(Err("no".into()));
    assert_eq!(a.error.unwrap().code.as_deref(), Some("backendErrors.accessibilityPermissionUnsupported"));
    assert_eq!(accessibility_permission_answer(Ok(true)).data, Some(true));
}

#[test]
fn self_test_answers() {
    let t = self_test_answer(SelfTestOutcome::TimedOut);
    assert_eq!(t.status, 408);
    assert_eq!(t.error.unwrap().details, Some(object(vec![("timeoutMs", num(4000))])));
    assert_eq!(self_test_answer(SelfTestOutcome::AlreadyRunning).status, 409);
    assert_eq!(self_test_answer(SelfTestOutcome::Disconnected).status, 500);
    let w = self_test_answer(SelfTestOutcome::WaitFailed("join".into()));
    assert_eq!(w.error.unwrap().message, "平台检测线程执行失败：join");
    assert_eq!(self_test_spawn_error("e"), "启动平台检测线程失败：e");
}

#[test]
fn timing_validation_reasons() {
    let config = object(vec![
        ("pollIntervalMs", num(500)),
        ("heartbeatIntervalMs", JsonValue::Null),
    ]);
    let doc = object(vec![("config", config.duplicate())]);
    let issues = validate_reporter_timing_payload(&doc);
    assert_eq!(issues.len(), 2);
    assert_eq!(issues[0].field, "pollIntervalMs");
    assert_eq!(issues[0].reason, "tooSmall");
    assert_eq!(issues[0].suggested_value, 1000);
    assert_eq!(issues[0].expected, "integer >= 1000");
    assert_eq!(issues[1].reason, "empty");
    assert_eq!(issues[1].suggested_value, 60000);
    assert_eq!(issues[1].expected, "integer >= 0");
    let text = object(vec![("pollIntervalMs", JsonValue::Text("2s".into()))]);
    let issue = validate_timing_field(Some(&text), "pollIntervalMs", "config.pollIntervalMs", 1000, 2000)
        .unwrap();
    assert_eq!(issue.reason, "notInteger");
    assert_eq!(issue.suggested_value, 2000);
    let fine = object(vec![("config", object(vec![("pollIntervalMs", num(3000))]))]);
    assert!(validate_reporter_timing_payload(&fine).is_empty());
    assert!(settings_validation_failure(&fine).is_none());
}

#[test]
fn suggested_values() {
    assert_eq!(suggested_timing_value(Some(&num(10)), 1000, 2000), 1000);
    assert_eq!(suggested_timing_value(Some(&num(5000)), 1000, 2000), 5000);
    assert_eq!(suggested_timing_value(Some(&JsonValue::Null), 1000, 2000), 2000);
    assert_eq!(suggested_timing_value(None, 0, 60000), 60000);
    let doc = object(vec![("config", object(vec![("pollIntervalMs", num(1))]))]);
    assert_eq!(
        suggested_reporter_timing_values(&doc),
        object(vec![("pollIntervalMs", num(1000)), ("heartbeatIntervalMs", num(60000))])
    );
    let failure = settings_validation_failure(&doc).unwrap();
    assert_eq!(failure.status, 400);
    let e = failure.error.unwrap();
    assert_eq!(e.code.as_deref(), Some("backendErrors.settingsConfigInvalid"));
    assert_eq!(e.params, Some(object(vec![("count", num(1))])));
    let parse = settings_payload_failure("missing field");
    assert_eq!(parse.error.unwrap().message, "设置数据格式错误：missing field");
}

#[test]
fn import_rejects_blank_and_large_input() {
    let blank = parse_imported_integration_config("  ".into(), vec![]);
    assert_eq!(blank.error.unwrap().code.as_deref(), Some("backendErrors.importConfigEmpty"));
    let large = "a".repeat(512 * 1024 + 1);
    let big = parse_imported_integration_config(large, vec![]);
    let e = big.error.unwrap();
    assert_eq!(e.code.as_deref(), Some("backendErrors.importConfigTooLarge"));
    assert_eq!(e.message, "输入内容过大（524289 字节），最大允许 524288 字节。");
    let none = parse_imported_integration_config("zzz".into(), vec![None, None]);
    assert_eq!(none.error.unwrap().message, "无法将输入解析为 Base64 配置或 JSON。");
}

#[test]
fn import_reads_current_and_legacy_forms() {
    let item = object(vec![("token", JsonValue::Text("T1".into())), ("name", JsonValue::Text("N1".into()))]);
    let token_block = object(vec![
        ("reportEndpoint", JsonValue::Text("https://r".into())),
        ("items", JsonValue::Array(vec![JsonValue::Null, item])),
    ]);
    let mut raw = JsonMap::new();
    raw.insert("token".into(), token_block);
    raw.insert("apiKey".into(), JsonValue::Text("legacy".into()));
    let parsed = parse_import_payload("{...}", vec![Some(raw)]).unwrap();
    assert_eq!(parsed.report_endpoint.as_deref(), Some("https://r"));
    assert_eq!(parsed.token.as_deref(), Some("T1"));
    assert_eq!(parsed.token_name.as_deref(), Some("N1"));

    let mut legacy = JsonMap::new();
    legacy.insert("endpoint".into(), JsonValue::Text("https://old".into()));
    legacy.insert("apiKey".into(), JsonValue::Text("K".into()));
    legacy.insert("tokenName".into(), JsonValue::Text("Old".into()));
    let parsed = parse_import_payload("x", vec![None, Some(legacy)]).unwrap();
    assert_eq!(parsed.report_endpoint.as_deref(), Some("https://old"));
    assert_eq!(parsed.token.as_deref(), Some("K"));
    assert_eq!(parsed.token_name.as_deref(), Some("Old"));
    let answer = parse_imported_integration_config("x".into(), vec![Some(JsonMap::new())]);
    assert!(answer.success);
}

#[test]
fn import_candidates_decode_base64() {
    // "{\"a\":1}" in standard Base64
    let candidates = import_candidates("  eyJhIjoxfQ==  ");
    assert_eq!(candidates[0], "eyJhIjoxfQ==");
    assert!(candidates.iter().any(|c| c == "{\"a\":1}"));
    let unpadded = import_candidates("eyJhIjoxfQ");
    assert!(unpadded.iter().any(|c| c == "{\"a\":1}"));
    let plain = import_candidates("{\"a\":1}");
    assert_eq!(plain, vec!["{\"a\":1}".to_string()]);
}

#[test]
fn http_addresses_and_headers() {
    assert_eq!(normalize_base_url(" https://x.com//"), "https://x.com");
    assert_eq!(normalize_base_url("https://x.com/ "), "https://x.com/");
    assert_eq!(request_url("https://x.com/", "/api/activity"), "https://x.com/api/activity");
    assert_eq!(authorization_header(Some(" t ")), Some("Bearer t".into()));
    assert_eq!(authorization_header(Some("  ")), None);
    assert_eq!(authorization_header(None), None);
    assert_eq!(inspiration_entries_path(None, None), "/api/inspiration/entries");
    assert_eq!(inspiration_entries_path(Some(10), None), "/api/inspiration/entries?limit=10");
    assert_eq!(inspiration_entries_path(None, Some(5)), "/api/inspiration/entries?offset=5");
    assert_eq!(
        inspiration_entries_path(Some(10), Some(20)),
        "/api/inspiration/entries?limit=10&offset=20"
    );
}

#[test]
fn json_response_interpretation() {
    let ok = interpret_json_response(200, "{}", Some(object(vec![("data", num(7))])));
    assert!(ok.success);
    assert_eq!(ok.data, Some(num(7)));
    let whole = interpret_json_payload_response(200, "{}", Some(object(vec![("data", num(7))])));
    assert_eq!(whole.data, Some(object(vec![("data", num(7))])));
    let failed = interpret_json_response(200, "{}", Some(object(vec![
        ("success", JsonValue::Bool(false)),
        ("message", JsonValue::Text("nope".into())),
    ])));
    assert!(!failed.success);
    assert_eq!(failed.error.unwrap().message, "nope");
    let status = interpret_json_response(404, "Not Found", None);
    let e = status.error.unwrap();
    assert_eq!(e.message, "请求失败");
    assert_eq!(e.details, Some(object(vec![("raw", JsonValue::Text("Not Found".into()))])));
    let blank = interpret_json_response(204, "", None);
    assert_eq!(blank.data, Some(JsonValue::Object(JsonMap::new())));
    let overridden = interpret_json_response(500, "{}", Some(object(vec![("success", JsonValue::Bool(true))])));
    assert!(!overridden.success);
    assert_eq!(send_failure("timeout").error.unwrap().message, "请求失败：timeout");
    assert_eq!(read_failure(502, "eof").status, 502);
}

#[test]
fn capabilities_answer() {
    let desktop = get_client_capabilities(true);
    assert!(desktop.success);
    let caps = desktop.data.unwrap();
    assert!(caps.realtime_reporter && caps.tray && caps.discord_presence);
    let mobile = get_client_capabilities(false).data.unwrap();
    assert!(!mobile.tray && !mobile.autostart);
}
