//! Android: what the collector's readings mean.  The collector is a Java
//! class called through JNI by the caller; it answers with JSON that the
//! caller reads into the structures here.
use vstd::prelude::*;

use crate::models::{PlatformProbeResult, PlatformSelfTestResult};
use crate::platform::probes::{
    failed_probe, foreground_ok_probe, foreground_probe_is, guidance_is, media_none_probe,
    media_ok_probe, media_probe_is, probe_from, probe_is, push_guidance, single_text_object,
};
use crate::platform::{
    build_self_test_result, localized_text, media_empty, media_is_default,
    media_timestamps_from_position, timestamps_from_position, ForegroundSnapshot, MediaInfo,
    ProbeTextSpec, TargetPlatform,
};
use crate::text::{is_blank, is_blank_str, opt_seq, trim, trim_str};

verus! {

/// The collector's reading of the foreground application.
#[derive(Debug)]
pub struct AndroidForegroundReading {
    pub process_name: String,
    pub process_title: String,
    pub usage_access_granted: bool,
    pub error: Option<String>,
}

/// The collector reports an error (a non-blank one).
pub open spec fn reports_error(error: Option<String>) -> bool {
    error is Some && !is_blank(error->Some_0@)
}

fn has_error(error: &Option<String>) -> (b: bool)
    ensures
        b == reports_error(*error),
{
    match error {
        Some(e) => !is_blank_str(e.as_str()),
        None => false,
    }
}

/// The permissions the collector reports.
#[derive(Debug)]
pub struct AndroidPermissionStatus {
    pub usage_access_granted: bool,
    pub notification_listener_granted: bool,
    pub error: Option<String>,
}

/// The permissions from the collector's reading: its error, if it reports
/// one, else the reading as it is.
pub fn get_permission_status(reading: AndroidPermissionStatus) -> (r: Result<
    AndroidPermissionStatus,
    String,
>)
    ensures
        reports_error(reading.error) ==> r == Err::<AndroidPermissionStatus, String>(
            reading.error->Some_0,
        ),
        !reports_error(reading.error) ==> r == Ok::<AndroidPermissionStatus, String>(reading),
{
    if has_error(&reading.error) {
        return match reading.error {
            Some(e) => Err(e),
            None => Err(String::new()),
        };
    }
    Ok(reading)
}

/// The foreground window from the collector's reading: its error, if it
/// reports one; nothing without the usage-access permission; else the
/// application and its title.
pub fn foreground_from_android(reading: AndroidForegroundReading) -> (r: Result<ForegroundSnapshot, String>)
    ensures
        reports_error(reading.error) ==> r == Err::<ForegroundSnapshot, String>(reading.error->Some_0),
        !reports_error(reading.error) && !reading.usage_access_granted ==> r is Ok
            && r->Ok_0.process_name@.len() == 0 && r->Ok_0.process_title@.len() == 0,
        !reports_error(reading.error) && reading.usage_access_granted ==> r is Ok
            && r->Ok_0.process_name == reading.process_name && r->Ok_0.process_title
            == reading.process_title,
{
    if has_error(&reading.error) {
        return match reading.error {
            Some(e) => Err(e),
            None => Err(String::new()),
        };
    }
    if !reading.usage_access_granted {
        return Ok(ForegroundSnapshot::default());
    }
    Ok(ForegroundSnapshot { process_name: reading.process_name, process_title: reading.process_title })
}

/// The collector's reading of the playing media.
#[derive(Debug)]
pub struct AndroidMediaReading {
    pub title: String,
    pub artist: String,
    pub album: String,
    pub source_app_id: String,
    pub cover_data_url: String,
    pub playback_state: String,
    pub position_ms: Option<i64>,
    pub duration_ms: Option<i64>,
    pub reported_at_ms: Option<i64>,
    pub notification_listener_granted: bool,
    pub error: Option<String>,
}

/// The media the collector reports, with its time of reading (`now_ms`
/// when it gives none).
pub open spec fn android_media_ok(m: MediaInfo, info: AndroidMediaReading, now_ms: i64) -> bool {
    let reported = match info.reported_at_ms {
        Some(t) => t,
        None => now_ms,
    };
    let state = trim(info.playback_state@);
    let ts = timestamps_from_position(state, info.position_ms, info.duration_ms, reported);
    &&& m.title == info.title
    &&& m.artist == info.artist
    &&& m.album == info.album
    &&& m.source_app_id == info.source_app_id
    &&& m.cover_url == info.cover_data_url
    &&& m.playback_state@ == state
    &&& m.position_ms == info.position_ms
    &&& m.duration_ms == info.duration_ms
    &&& m.start_timestamp_ms == ts.0
    &&& m.end_timestamp_ms == ts.1
    &&& m.reported_at_ms == Some(reported)
}

/// The media the collector reports.
pub fn media_info_from_android(info: AndroidMediaReading, now_ms: i64) -> (r: MediaInfo)
    ensures
        android_media_ok(r, info, now_ms),
{
    let reported_at_ms = match info.reported_at_ms {
        Some(t) => t,
        None => now_ms,
    };
    let playback_state = trim_str(info.playback_state.as_str());
    let (start_timestamp_ms, end_timestamp_ms) = media_timestamps_from_position(
        playback_state.as_str(),
        info.position_ms,
        info.duration_ms,
        reported_at_ms,
    );
    MediaInfo {
        title: info.title,
        artist: info.artist,
        album: info.album,
        source_app_id: info.source_app_id,
        cover_url: info.cover_data_url,
        playback_state,
        position_ms: info.position_ms,
        duration_ms: info.duration_ms,
        start_timestamp_ms,
        end_timestamp_ms,
        reported_at_ms: Some(reported_at_ms),
    }
}

/// What is playing, from the collector's reading: its error, if it
/// reports one; nothing without the notification permission; else the
/// media it reports.
pub fn now_playing_from_android(info: AndroidMediaReading, now_ms: i64) -> (r: Result<MediaInfo, String>)
    ensures
        reports_error(info.error) ==> r == Err::<MediaInfo, String>(info.error->Some_0),
        !reports_error(info.error) && !info.notification_listener_granted ==> r is Ok
            && media_is_default(r->Ok_0),
        !reports_error(info.error) && info.notification_listener_granted ==> r is Ok
            && android_media_ok(r->Ok_0, info, now_ms),
{
    if has_error(&info.error) {
        return match info.error {
            Some(e) => Err(e),
            None => Err(String::new()),
        };
    }
    if !info.notification_listener_granted {
        return Ok(MediaInfo::default());
    }
    Ok(media_info_from_android(info, now_ms))
}

/// Asking for the accessibility permission opens its settings and reports
/// it as not yet granted; a failure to open them is the error.
pub fn request_accessibility_permission(opened: Result<bool, String>) -> (r: Result<bool, String>)
    ensures
        opened is Ok ==> r == Ok::<bool, String>(false),
        opened is Err ==> r == opened,
{
    match opened {
        Ok(_) => Ok(false),
        Err(e) => Err(e),
    }
}

/// Asking for usage access, once the permissions were read (`status`)
/// and its settings page was asked to open (`opened`): whether it was
/// granted already, or the failure to open the page.
pub fn request_android_usage_access(status: &AndroidPermissionStatus, opened: Result<(), String>) -> (r:
    Result<bool, String>)
    ensures
        opened is Ok ==> r == Ok::<bool, String>(status.usage_access_granted),
        opened is Err ==> r == Err::<bool, String>(opened->Err_0),
{
    match opened {
        Ok(()) => Ok(status.usage_access_granted),
        Err(e) => Err(e),
    }
}

/// Asking for notification access, once the permissions were read
/// (`status`) and its settings page was asked to open (`opened`): whether
/// it was granted already, or the failure to open the page.
pub fn request_android_notification_access(
    status: &AndroidPermissionStatus,
    opened: Result<(), String>,
) -> (r: Result<bool, String>)
    ensures
        opened is Ok ==> r == Ok::<bool, String>(status.notification_listener_granted),
        opened is Err ==> r == Err::<bool, String>(opened->Err_0),
{
    match opened {
        Ok(()) => Ok(status.notification_listener_granted),
        Err(e) => Err(e),
    }
}

/// Asking for the accessibility permission once its settings page was
/// asked to open (`opened`): not granted yet, or the failure to open it.
pub fn request_android_accessibility_permission(opened: Result<(), String>) -> (r: Result<bool, String>)
    ensures
        opened is Ok ==> r == Ok::<bool, String>(false),
        opened is Err ==> r == Err::<bool, String>(opened->Err_0),
{
    match opened {
        Ok(()) => Ok(false),
        Err(e) => Err(e),
    }
}

/// The message when neither the notification settings nor the app's
/// settings could be opened.
pub fn notification_settings_failure(notification_error: &str, fallback_error: &str) -> (r: String)
    ensures
        r@ == "打开 Android 通知设置失败："@ + notification_error@ + "；打开应用设置也失败："@
            + fallback_error@,
{
    let mut m = "打开 Android 通知设置失败：".to_owned();
    m.append(notification_error);
    m.append("；打开应用设置也失败：");
    m.append(fallback_error);
    proof {
        reveal_strlit("打开 Android 通知设置失败：");
        reveal_strlit("；打开应用设置也失败：");
    }
    m
}

/// Opening the reporter's notification settings: the app notification
/// settings, else the app's details page; it answers `false` (nothing is
/// granted yet) unless both fail.
pub fn open_android_reporter_notification_settings(
    notification: Result<(), String>,
    fallback: Option<Result<(), String>>,
) -> (r: Result<bool, String>)
    ensures
        notification is Ok ==> r == Ok::<bool, String>(false),
        notification is Err && fallback is Some && fallback->Some_0 is Ok ==> r == Ok::<bool, String>(false),
        notification is Err && fallback is Some && fallback->Some_0 is Err ==> r is Err
            && r->Err_0@ == "打开 Android 通知设置失败："@ + notification->Err_0@ + "；打开应用设置也失败："@
            + fallback->Some_0->Err_0@,
        notification is Err && fallback is None ==> r is Err,
{
    match notification {
        Ok(()) => Ok(false),
        Err(notification_error) => match fallback {
            Some(Ok(())) => Ok(false),
            Some(Err(fallback_error)) => Err(
                notification_settings_failure(notification_error.as_str(), fallback_error.as_str()),
            ),
            None => Err(notification_error),
        },
    }
}

/// The usage-access hint of the Android self-test.
pub open spec fn usage_access_hint() -> (Seq<char>, Seq<char>) {
    (
        "platformSelfTest.guidance.androidUsageAccessSettings"@,
        "点“打开权限设置”，为 Waken-Wa 允许使用情况访问。"@,
    )
}

/// The window-title hint of the Android self-test.
pub open spec fn window_title_hint() -> (Seq<char>, Seq<char>) {
    (
        "platformSelfTest.guidance.androidWindowTitleFallback"@,
        "为减少打扰，当前版本不默认启用无障碍读取页面标题。"@,
    )
}

/// The check of the foreground application from a reading that worked:
/// passed with the application when it was read with usage access; else
/// failed for want of usage access (in the reading or as the collector
/// reports it), or because nothing was read.
pub open spec fn android_foreground_probe_is(
    r: PlatformProbeResult,
    s: AndroidForegroundReading,
    usage_access_granted: bool,
) -> bool {
    if s.usage_access_granted && !is_blank(s.process_name@) {
        foreground_probe_is(r, s.process_name@)
    } else if !s.usage_access_granted || !usage_access_granted {
        probe_is(
            r,
            false,
            "platformSelfTest.summary.foregroundFailed"@,
            "前台应用采集失败"@,
            "platformSelfTest.detail.androidUsageAccessRequired"@,
            "Android 前台应用采集需要开启“使用情况访问权限”。"@,
            None,
            seq![usage_access_hint()],
        )
    } else {
        probe_is(
            r,
            false,
            "platformSelfTest.summary.foregroundFailed"@,
            "前台应用采集失败"@,
            "platformSelfTest.detail.foregroundReadFailed"@,
            "无法读取前台应用。"@,
            None,
            seq![
                (
                    "platformSelfTest.guidance.androidOpenRecentApp"@,
                    "打开一个应用后回到 Waken-Wa 再检测。"@,
                ),
            ],
        )
    }
}

/// The check of the window title from a reading that worked: the
/// application's name stands for the title when it was read with usage
/// access; else failed for want of usage access, or empty.
pub open spec fn android_window_title_probe_is(r: PlatformProbeResult, s: AndroidForegroundReading) -> bool {
    if s.usage_access_granted && !is_blank(s.process_title@) {
        probe_is(
            r,
            true,
            "platformSelfTest.summary.windowTitleOk"@,
            "窗口标题采集正常"@,
            "platformSelfTest.detail.androidWindowTitleFallback"@,
            "Android 当前以应用名称作为标题："@ + s.process_title@,
            Some(single_text_object("processTitle"@, s.process_title@)),
            seq![window_title_hint()],
        )
    } else if !s.usage_access_granted {
        probe_is(
            r,
            false,
            "platformSelfTest.summary.windowTitleFailed"@,
            "窗口标题采集失败"@,
            "platformSelfTest.detail.androidUsageAccessRequired"@,
            "Android 前台应用采集需要开启“使用情况访问权限”。"@,
            None,
            seq![usage_access_hint()],
        )
    } else {
        probe_is(
            r,
            false,
            "platformSelfTest.summary.windowTitleEmpty"@,
            "窗口标题为空"@,
            "platformSelfTest.detail.windowTitleEmpty"@,
            "当前前台窗口没有可用标题。"@,
            None,
            seq![window_title_hint()],
        )
    }
}

/// The check of the media from a reading that worked: failed for want of
/// notification access (in the reading or as the collector reports it);
/// else the check of the media the reading gives.
pub open spec fn android_media_probe_is(
    r: PlatformProbeResult,
    m: AndroidMediaReading,
    notification_listener_granted: bool,
    now_ms: i64,
) -> bool {
    if !m.notification_listener_granted || !notification_listener_granted {
        probe_is(
            r,
            false,
            "platformSelfTest.summary.mediaFailed"@,
            "媒体采集失败"@,
            "platformSelfTest.detail.androidNotificationAccessRequired"@,
            "Android 媒体采集需要开启“通知使用权”。"@,
            None,
            seq![
                (
                    "platformSelfTest.guidance.androidNotificationAccessSettings"@,
                    "点“打开权限设置”，为 Waken-Wa 允许通知使用权。"@,
                ),
            ],
        )
    } else {
        exists|mi: MediaInfo|
            #[trigger] android_media_ok(mi, m, now_ms) && media_probe_is(r, mi, "先播放媒体再重试。"@)
    }
}

/// The Android self-test from its readings: the foreground reading with
/// the application, the one with the title, the media reading, the
/// permissions as the collector reports them (usage access and
/// notification access), and the time of the readings.
pub fn run_self_test(
    foreground: Result<AndroidForegroundReading, String>,
    window: Result<AndroidForegroundReading, String>,
    media: Result<AndroidMediaReading, String>,
    usage_access_granted: bool,
    notification_listener_granted: bool,
    now_ms: i64,
) -> (r: PlatformSelfTestResult)
    ensures
        r.platform@ == "unsupported"@,
        match foreground {
            Ok(s) => android_foreground_probe_is(r.foreground, s, usage_access_granted),
            Err(e) => probe_is(
                r.foreground,
                false,
                "platformSelfTest.summary.foregroundFailed"@,
                "前台应用采集失败"@,
                "platformSelfTest.detail.foregroundReadFailed"@,
                e@,
                None,
                Seq::empty(),
            ),
        },
        match window {
            Ok(s) => android_window_title_probe_is(r.window_title, s),
            Err(e) => probe_is(
                r.window_title,
                false,
                "platformSelfTest.summary.windowTitleFailed"@,
                "窗口标题采集失败"@,
                "platformSelfTest.detail.windowTitleReadFailed"@,
                e@,
                None,
                Seq::empty(),
            ),
        },
        match media {
            Ok(m) => android_media_probe_is(r.media, m, notification_listener_granted, now_ms),
            Err(e) => probe_is(
                r.media,
                false,
                "platformSelfTest.summary.mediaFailed"@,
                "媒体采集失败"@,
                "platformSelfTest.detail.mediaReadFailed"@,
                e@,
                None,
                Seq::empty(),
            ),
        },
{
    let usage_hint_key = "platformSelfTest.guidance.androidUsageAccessSettings";
    let usage_hint = "点“打开权限设置”，为 Waken-Wa 允许使用情况访问。";
    let fg = match foreground {
        Ok(snapshot) => {
            if snapshot.usage_access_granted && !is_blank_str(snapshot.process_name.as_str()) {
                foreground_ok_probe(snapshot.process_name.as_str())
            } else if !snapshot.usage_access_granted || !usage_access_granted {
                let mut g: Vec<ProbeTextSpec> = Vec::new();
                push_guidance(&mut g, usage_hint_key, usage_hint, Ghost(Seq::empty()));
                probe_from(
                    false,
                    "platformSelfTest.summary.foregroundFailed",
                    "前台应用采集失败",
                    localized_text(
                        "platformSelfTest.detail.androidUsageAccessRequired",
                        None,
                        "Android 前台应用采集需要开启“使用情况访问权限”。".to_owned(),
                    ),
                    g,
                    Ghost(Seq::empty().push((usage_hint_key@, usage_hint@))),
                )
            } else {
                let mut g: Vec<ProbeTextSpec> = Vec::new();
                push_guidance(
                    &mut g,
                    "platformSelfTest.guidance.androidOpenRecentApp",
                    "打开一个应用后回到 Waken-Wa 再检测。",
                    Ghost(Seq::empty()),
                );
                probe_from(
                    false,
                    "platformSelfTest.summary.foregroundFailed",
                    "前台应用采集失败",
                    localized_text(
                        "platformSelfTest.detail.foregroundReadFailed",
                        None,
                        "无法读取前台应用。".to_owned(),
                    ),
                    g,
                    Ghost(
                        Seq::empty().push(
                            (
                                "platformSelfTest.guidance.androidOpenRecentApp"@,
                                "打开一个应用后回到 Waken-Wa 再检测。"@,
                            ),
                        ),
                    ),
                )
            }
        },
        Err(error) => failed_probe(
            "platformSelfTest.summary.foregroundFailed",
            "前台应用采集失败",
            localized_text("platformSelfTest.detail.foregroundReadFailed", None, error),
            Vec::new(),
            Ghost(Seq::empty()),
        ),
    };
    let title_hint_key = "platformSelfTest.guidance.androidWindowTitleFallback";
    let title_hint = "为减少打扰，当前版本不默认启用无障碍读取页面标题。";
    let title = match window {
        Ok(snapshot) => {
            if snapshot.usage_access_granted && !is_blank_str(snapshot.process_title.as_str()) {
                let mut g: Vec<ProbeTextSpec> = Vec::new();
                push_guidance(&mut g, title_hint_key, title_hint, Ghost(Seq::empty()));
                let mut detail_text = "Android 当前以应用名称作为标题：".to_owned();
                detail_text.append(snapshot.process_title.as_str());
                let mut params = crate::json::JsonMap::new();
                params.push_new(
                    "processTitle".to_owned(),
                    crate::json::JsonValue::text(snapshot.process_title.as_str()),
                );
                probe_from(
                    true,
                    "platformSelfTest.summary.windowTitleOk",
                    "窗口标题采集正常",
                    localized_text(
                        "platformSelfTest.detail.androidWindowTitleFallback",
                        Some(crate::json::JsonValue::Object(params)),
                        detail_text,
                    ),
                    g,
                    Ghost(Seq::empty().push((title_hint_key@, title_hint@))),
                )
            } else if !snapshot.usage_access_granted {
                let mut g: Vec<ProbeTextSpec> = Vec::new();
                push_guidance(&mut g, usage_hint_key, usage_hint, Ghost(Seq::empty()));
                probe_from(
                    false,
                    "platformSelfTest.summary.windowTitleFailed",
                    "窗口标题采集失败",
                    localized_text(
                        "platformSelfTest.detail.androidUsageAccessRequired",
                        None,
                        "Android 前台应用采集需要开启“使用情况访问权限”。".to_owned(),
                    ),
                    g,
                    Ghost(Seq::empty().push((usage_hint_key@, usage_hint@))),
                )
            } else {
                let mut g: Vec<ProbeTextSpec> = Vec::new();
                push_guidance(&mut g, title_hint_key, title_hint, Ghost(Seq::empty()));
                probe_from(
                    false,
                    "platformSelfTest.summary.windowTitleEmpty",
                    "窗口标题为空",
                    localized_text(
                        "platformSelfTest.detail.windowTitleEmpty",
                        None,
                        "当前前台窗口没有可用标题。".to_owned(),
                    ),
                    g,
                    Ghost(Seq::empty().push((title_hint_key@, title_hint@))),
                )
            }
        },
        Err(error) => failed_probe(
            "platformSelfTest.summary.windowTitleFailed",
            "窗口标题采集失败",
            localized_text("platformSelfTest.detail.windowTitleReadFailed", None, error),
            Vec::new(),
            Ghost(Seq::empty()),
        ),
    };
    let md = match media {
        Ok(info) => {
            if !info.notification_listener_granted || !notification_listener_granted {
                let mut g: Vec<ProbeTextSpec> = Vec::new();
                push_guidance(
                    &mut g,
                    "platformSelfTest.guidance.androidNotificationAccessSettings",
                    "点“打开权限设置”，为 Waken-Wa 允许通知使用权。",
                    Ghost(Seq::empty()),
                );
                probe_from(
                    false,
                    "platformSelfTest.summary.mediaFailed",
                    "媒体采集失败",
                    localized_text(
                        "platformSelfTest.detail.androidNotificationAccessRequired",
                        None,
                        "Android 媒体采集需要开启“通知使用权”。".to_owned(),
                    ),
                    g,
                    Ghost(
                        Seq::empty().push(
                            (
                                "platformSelfTest.guidance.androidNotificationAccessSettings"@,
                                "点“打开权限设置”，为 Waken-Wa 允许通知使用权。"@,
                            ),
                        ),
                    ),
                )
            } else {
                let m = media_info_from_android(info, now_ms);
                if m.is_empty() {
                    media_none_probe("先播放媒体再重试。")
                } else {
                    media_ok_probe(&m)
                }
            }
        },
        Err(error) => failed_probe(
            "platformSelfTest.summary.mediaFailed",
            "媒体采集失败",
            localized_text("platformSelfTest.detail.mediaReadFailed", None, error),
            Vec::new(),
            Ghost(Seq::empty()),
        ),
    };
    build_self_test_result(TargetPlatform::Other, fg, title, md)
}

} // verus!
