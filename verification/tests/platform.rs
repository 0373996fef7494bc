use waken_reporter::platform::android::{
    foreground_from_android, now_playing_from_android, open_android_reporter_notification_settings,
    AndroidForegroundReading, AndroidMediaReading,
};
use waken_reporter::platform::linux::media::{
    artwork_data_url, artwork_source, command_result, detect_image_content_type, if_empty,
    looks_like_svg, media_from_playerctl, mpris_destination_of, normalize_playback_state,
    parse_microseconds_to_ms, playerctl_failure, ArtworkSource,
};
use waken_reporter::platform::linux::self_test::{linux_detail, linux_guidance, ProbeKind};
use waken_reporter::platform::linux::wayland::{
    gnome_snapshot_from, kdotool_snapshot, parse_gdbus_string_tuple, wayland_failure,
};
use waken_reporter::platform::linux::x11::{
    extract_quoted_values, parse_active_window_id, parse_window_pid, parse_window_title,
    parse_wm_class,
};
use waken_reporter::platform::linux::{active_window_from_xprop, x11_detail_args, x11_snapshot};
use waken_reporter::platform::macos::{
    adapter_failure, decode_base64_image_payload, get_foreground_snapshot_for_reporting,
    normalize_text, AdapterError,
};
use waken_reporter::platform::windows::{
    matches_process_candidate, media_from_session, process_name_candidates, timespan_to_ms,
    SessionPlaybackStatus, SessionReading, TimelineTicks,
};
use waken_reporter::platform::{
    media_for_reporting, media_timestamps_from_position, stub, ForegroundSnapshot, MediaInfo,
};
use waken_reporter::json::{JsonMap, JsonValue};

#[test]
fn stub_platform_reports_nothing() {
    assert_eq!(stub::get_foreground_snapshot().unwrap_err(), "当前平台暂不支持实时采集。");
    assert_eq!(stub::get_foreground_snapshot_for_reporting(true, true).unwrap().process_name, "");
    assert!(stub::get_now_playing().unwrap().is_empty());
    assert!(stub::get_now_playing_for_reporting(true, true).unwrap().is_empty());
    assert!(stub::request_accessibility_permission().is_err());
    let r = stub::run_self_test();
    assert_eq!(r.platform, "unsupported");
    assert!(!r.foreground.success && !r.window_title.success && !r.media.success);
}

#[test]
fn xprop_active_window() {
    let out = "_NET_ACTIVE_WINDOW(WINDOW): window id # 0x3e00007\n";
    assert_eq!(parse_active_window_id(out), Some("0x3e00007".into()));
    assert_eq!(parse_active_window_id("no hash"), None);
    assert_eq!(parse_active_window_id("x #   "), None);
    assert_eq!(active_window_from_xprop("a # 0x0").unwrap_err(), "当前没有活动窗口。");
    assert_eq!(active_window_from_xprop("?").unwrap_err(), "无法解析 _NET_ACTIVE_WINDOW。");
    assert_eq!(active_window_from_xprop("a # 0x1, 0x2").unwrap(), "0x1,");
}

#[test]
fn xprop_window_details() {
    let out = "WM_CLASS(STRING) = \"code\", \"Code\"\n_NET_WM_PID(CARDINAL) = 4242\n_NET_WM_NAME(UTF8_STRING) = \"main.rs - proj\"\nWM_NAME(STRING) = \"old\"\n";
    assert_eq!(parse_wm_class(out), Some("Code".into()));
    assert_eq!(parse_window_pid(out), Some(4242));
    assert_eq!(parse_window_title(out), Some("main.rs - proj".into()));
    assert_eq!(parse_window_title("WM_NAME(STRING) = \"only\""), Some("only".into()));
    assert_eq!(parse_wm_class("WM_CLASS(STRING) = \"single\""), Some("single".into()));
    assert_eq!(parse_window_pid("_NET_WM_PID(CARDINAL) = nope\n_NET_WM_PID = 7"), Some(7));
    assert_eq!(parse_window_pid("_NET_WM_PID without equals\n_NET_WM_PID = 7"), None);
    assert_eq!(parse_window_pid("_NET_WM_PID = 99999999999"), None);
    assert_eq!(
        extract_quoted_values("a \"x\" b \"y z\" \"open"),
        vec!["x".to_string(), "y z".to_string()]
    );
    let snap = x11_snapshot(out, true, true, None);
    assert_eq!(snap.process_name, "Code");
    assert_eq!(snap.process_title, "main.rs - proj");
    let with_pid = x11_snapshot(out, true, false, Some("code".into()));
    assert_eq!(with_pid.process_name, "code");
    assert_eq!(with_pid.process_title, "");
    assert_eq!(x11_snapshot("", true, true, None).process_name, "unknown");
    assert_eq!(
        x11_detail_args("0x1", true, false),
        vec!["-id".to_string(), "0x1".into(), "WM_CLASS".into(), "_NET_WM_PID".into()]
    );
}

#[test]
fn gdbus_and_kdotool() {
    assert_eq!(
        parse_gdbus_string_tuple("('{\"a\":\"x\\\\ny\"}',)"),
        Some("{\"a\":\"x\\ny\"}".into())
    );
    assert_eq!(parse_gdbus_string_tuple("('a\\nb',)"), Some("a\nb".into()));
    assert_eq!(parse_gdbus_string_tuple("('unterminated"), None);
    assert_eq!(parse_gdbus_string_tuple("no quote"), None);
    let mut m = JsonMap::new();
    m.insert("wm_class".into(), JsonValue::Text(" firefox ".into()));
    m.insert("title".into(), JsonValue::Text(" Page ".into()));
    let s = gnome_snapshot_from(&JsonValue::Object(m)).unwrap();
    assert_eq!(s.process_name, "firefox");
    assert_eq!(s.process_title, "Page");
    assert!(gnome_snapshot_from(&JsonValue::Object(JsonMap::new())).is_err());
    assert_eq!(kdotool_snapshot("0", None, None).unwrap_err(), "当前没有活动窗口。");
    assert_eq!(kdotool_snapshot("5", Some(String::new()), None).unwrap_err(), "kdotool 未返回窗口类名。");
    let k = kdotool_snapshot("5", Some("konsole".into()), Some("shell".into())).unwrap();
    assert_eq!(k.process_name, "konsole");
    assert_eq!(
        wayland_failure("a", "b"),
        "Wayland 前台窗口采集失败。GNOME Focused Window D-Bus：a；KDE kdotool：b"
    );
}

#[test]
fn playerctl_output() {
    let out = "Song\nArtist\nAlbum\nspotify\nhttps://i/1.jpg\nPlaying\n30000000\n180000000\n";
    let m = media_from_playerctl(out, "data:x".into(), 1_000_000);
    assert_eq!(m.title, "Song");
    assert_eq!(m.source_app_id, "spotify");
    assert_eq!(m.playback_state, "playing");
    assert_eq!(m.position_ms, Some(30_000));
    assert_eq!(m.duration_ms, Some(180_000));
    assert_eq!(m.start_timestamp_ms, Some(970_000));
    assert_eq!(m.end_timestamp_ms, Some(1_150_000));
    assert_eq!(m.cover_url, "data:x");
    assert!(media_from_playerctl("\n\n\nvlc\n", String::new(), 0).is_empty());
    assert_eq!(normalize_playback_state(" PAUSE "), "paused");
    assert_eq!(normalize_playback_state("buffering"), "");
    assert_eq!(parse_microseconds_to_ms(" -5 "), None);
    assert_eq!(parse_microseconds_to_ms("+2500"), Some(2));
    assert_eq!(parse_microseconds_to_ms("x"), None);
    assert!(playerctl_failure("", "No players found").unwrap().is_empty());
    assert_eq!(playerctl_failure("", "  ").unwrap_err(), "读取媒体信息失败：playerctl 返回失败");
    assert_eq!(if_empty("  ", "fallback"), "fallback");
    assert_eq!(command_result(true, " first \nsecond", "").unwrap(), "first");
    assert_eq!(command_result(false, " out ", " ").unwrap_err(), "out");
    assert_eq!(command_result(false, "", "").unwrap_err(), "命令返回失败");
    assert_eq!(mpris_destination_of("vlc"), Some("org.mpris.MediaPlayer2.vlc".into()));
    assert_eq!(mpris_destination_of("org.mpris.MediaPlayer2.mpv"), Some("org.mpris.MediaPlayer2.mpv".into()));
    assert_eq!(mpris_destination_of(" "), None);
}

#[test]
fn artwork_handling() {
    assert!(matches!(artwork_source(" data:image/png;base64,AA "), ArtworkSource::Inline(u) if u == "data:image/png;base64,AA"));
    assert!(matches!(artwork_source("https://x/y.jpg"), ArtworkSource::Download(_)));
    assert!(matches!(artwork_source("file:///tmp/a.png"), ArtworkSource::Missing));
    assert!(matches!(artwork_source("   "), ArtworkSource::Missing));
    assert_eq!(detect_image_content_type(&vec![0xFF, 0xD8, 0xFF, 0x00]), "image/jpeg");
    assert_eq!(detect_image_content_type(&vec![0x89, b'P', b'N', b'G', 13, 10, 26, 10]), "image/png");
    assert_eq!(detect_image_content_type(&b"GIF89a....".to_vec()), "image/gif");
    assert_eq!(detect_image_content_type(&b"RIFF1234WEBPxxxx".to_vec()), "image/webp");
    assert_eq!(detect_image_content_type(&vec![0, 0, 1, 0, 5]), "image/x-icon");
    assert_eq!(detect_image_content_type(&b"<?xml?><SVG>".to_vec()), "image/svg+xml");
    assert_eq!(detect_image_content_type(&b"random".to_vec()), "image/jpeg");
    assert!(looks_like_svg(&b"xx<sVg".to_vec()));
    let mut late = vec![b' '; 600];
    late.extend_from_slice(b"<svg");
    assert!(!looks_like_svg(&late));
    assert_eq!(artwork_data_url(Some("image/png".into()), &vec![1, 2, 3]), "data:image/png;base64,AQID");
    assert_eq!(artwork_data_url(Some("text/html".into()), &vec![0xFF, 0xD8, 0xFF]), "data:image/jpeg;base64,/9j/");
    assert_eq!(artwork_data_url(None, &vec![]), "");
}

#[test]
fn linux_self_test_texts() {
    let d = linux_detail("调用 XPROP 失败", ProbeKind::Foreground);
    assert_eq!(d.key, Some("platformSelfTest.detail.linuxForegroundXpropMissing"));
    let m = linux_detail("playerctl missing", ProbeKind::Media);
    assert_eq!(m.key, Some("platformSelfTest.detail.linuxMediaPlayerctlMissing"));
    let g = linux_guidance("kdotool failed", ProbeKind::Window);
    assert_eq!(g.len(), 1);
    assert_eq!(g[0].key, Some("platformSelfTest.guidance.linuxInstallKdotool"));
    let f = linux_guidance("", ProbeKind::Foreground);
    assert_eq!(f.len(), 3);
    let other = linux_guidance("weird", ProbeKind::Window);
    assert_eq!(other[0].key, Some("platformSelfTest.guidance.linuxCheckDesktopPermission"));
    let r = waken_reporter::platform::linux::self_test::run_self_test(
        Ok(ForegroundSnapshot { process_name: "code".into(), process_title: "t".into() }),
        Err("xprop: not found".into()),
        Ok(MediaInfo::default()),
    );
    assert_eq!(r.platform, "linux");
    assert!(r.foreground.success);
    assert_eq!(r.foreground.detail, "当前前台应用：code");
    assert!(!r.window_title.success);
    assert_eq!(r.media.summary_key.as_deref(), Some("platformSelfTest.summary.mediaNone"));
}

#[test]
fn macos_readings() {
    assert_eq!(normalize_text(Some(" NULL ".into())), "");
    assert_eq!(normalize_text(Some(" Song ".into())), "Song");
    let s = get_foreground_snapshot_for_reporting(false, true, None, Some("T".into())).unwrap();
    assert_eq!(s.process_name, "");
    assert_eq!(s.process_title, "T");
    assert!(get_foreground_snapshot_for_reporting(true, false, Some(" ".into()), None).is_err());
    let s = get_foreground_snapshot_for_reporting(true, false, Some("Finder".into()), Some("T".into())).unwrap();
    assert_eq!(s.process_title, "");
    assert!(adapter_failure("null", "").unwrap().is_empty());
    match adapter_failure("", "\n  boom \n") {
        Err(AdapterError::Failed(d)) => assert_eq!(d, "boom"),
        _ => panic!("expected a failure"),
    }
    assert_eq!(AdapterError::TimedOut.into_user_message(), "调用 mediaremote-adapter 超时（>5000ms）。");
    let msg = AdapterError::NotFound { path: "/bin".into(), attempted: vec!["a".into(), "b".into()] }
        .into_user_message();
    assert_eq!(msg, "调用 mediaremote-adapter 失败：未在资源目录中找到脚本或框架。已尝试：a, b。PATH=/bin");
    assert_eq!(decode_base64_image_payload("data:image/png;base64,AQID"), Some(vec![1, 2, 3]));
    assert_eq!(decode_base64_image_payload("null"), None);
    assert_eq!(decode_base64_image_payload("%%%"), None);
}

#[test]
fn windows_readings() {
    assert_eq!(timespan_to_ms(25_000), Some(2));
    assert_eq!(timespan_to_ms(-1), None);
    let c = process_name_candidates("Microsoft.ZuneMusic_8wekyb3d8bbwe!Microsoft.ZuneMusic");
    assert_eq!(c, vec!["Microsoft.ZuneMusic".to_string(), "ZuneMusic".into(), "Microsoft.ZuneMusic.exe".into(), "ZuneMusic.exe".into()]);
    let exe = process_name_candidates("C:\\Apps\\Spotify.exe");
    assert_eq!(exe, vec!["Spotify.exe".to_string(), "exe".into(), "exe.exe".into()]);
    assert!(matches_process_candidate("SPOTIFY.EXE", &exe));
    assert!(!matches_process_candidate("code.exe", &exe));
    let m = media_from_session(
        SessionReading {
            source_app_id: "Spotify.exe".into(),
            status: Some(SessionPlaybackStatus::Playing),
            timeline: Some(TimelineTicks { position: Some(10_000_000), start: Some(0), end: Some(60_000_000) }),
            title: "T".into(),
            artist: "A".into(),
            album: String::new(),
            cover_url: String::new(),
        },
        true,
        true,
        10_000,
    );
    assert_eq!(m.position_ms, Some(1000));
    assert_eq!(m.duration_ms, Some(6000));
    assert_eq!(m.start_timestamp_ms, Some(9000));
    assert_eq!(m.end_timestamp_ms, Some(15000));
    assert_eq!(m.playback_state, "playing");
}

#[test]
fn android_readings() {
    let denied = foreground_from_android(AndroidForegroundReading {
        process_name: "app".into(),
        process_title: "t".into(),
        usage_access_granted: false,
        error: None,
    })
    .unwrap();
    assert_eq!(denied.process_name, "");
    let err = foreground_from_android(AndroidForegroundReading {
        process_name: String::new(),
        process_title: String::new(),
        usage_access_granted: true,
        error: Some("jni".into()),
    });
    assert_eq!(err.unwrap_err(), "jni");
    let m = now_playing_from_android(
        AndroidMediaReading {
            title: "T".into(),
            artist: String::new(),
            album: String::new(),
            source_app_id: "com.app".into(),
            cover_data_url: String::new(),
            playback_state: " playing ".into(),
            position_ms: Some(1000),
            duration_ms: Some(3000),
            reported_at_ms: None,
            notification_listener_granted: true,
            error: Some("  ".into()),
        },
        5000,
    )
    .unwrap();
    assert_eq!(m.playback_state, "playing");
    assert_eq!(m.reported_at_ms, Some(5000));
    assert_eq!(m.start_timestamp_ms, Some(4000));
    let r = open_android_reporter_notification_settings(Err("a".into()), Some(Err("b".into())));
    assert_eq!(r.unwrap_err(), "打开 Android 通知设置失败：a；打开应用设置也失败：b");
    assert_eq!(open_android_reporter_notification_settings(Ok(()), None), Ok(false));
}

#[test]
fn reporting_subsets() {
    let mut m = MediaInfo::default();
    m.title = "T".into();
    m.source_app_id = "app".into();
    let none = media_for_reporting(false, false, Err("ignored".into())).unwrap();
    assert!(none.is_empty());
    let source_only = media_for_reporting(false, true, Ok(m.clone())).unwrap();
    assert_eq!(source_only.title, "");
    assert_eq!(source_only.source_app_id, "app");
    assert_eq!(media_for_reporting(true, false, Err("e".into())).unwrap_err(), "e");
    assert_eq!(media_timestamps_from_position("paused", Some(1), Some(2), 10), (None, None));
    assert_eq!(media_timestamps_from_position("playing", Some(5000), Some(3000), 10_000), (Some(7000), Some(10_000)));
}
