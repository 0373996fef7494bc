//! The platform readings on a system without collectors: nothing can be
//! read, and the reporting variants report nothing.
use vstd::prelude::*;

use super::{
    build_self_test_result, localized_text, make_probe, media_is_default, ForegroundSnapshot,
    MediaInfo, TargetPlatform,
};
use crate::models::{PlatformProbeResult, PlatformSelfTestResult};

verus! {

/// The message when this system has no collectors.
pub open spec fn unsupported_message() -> Seq<char> {
    "当前平台暂不支持实时采集。"@
}

/// The foreground window cannot be read here.
pub fn get_foreground_snapshot() -> (r: Result<ForegroundSnapshot, String>)
    ensures
        r is Err,
        r->Err_0@ == unsupported_message(),
{
    Err("当前平台暂不支持实时采集。".to_owned())
}

/// Nothing of the foreground window is reported here.
pub fn get_foreground_snapshot_for_reporting(
    include_process_name: bool,
    include_process_title: bool,
) -> (r: Result<ForegroundSnapshot, String>)
    ensures
        r is Ok,
        r->Ok_0.process_name@.len() == 0,
        r->Ok_0.process_title@.len() == 0,
{
    Ok(ForegroundSnapshot::default())
}

/// No media is playing, as far as this system tells.
pub fn get_now_playing() -> (r: Result<MediaInfo, String>)
    ensures
        r is Ok,
        media_is_default(r->Ok_0),
{
    Ok(MediaInfo::default())
}

/// No media is reported here.
pub fn get_now_playing_for_reporting(include_media: bool, include_play_source: bool) -> (r: Result<
    MediaInfo,
    String,
>)
    ensures
        r is Ok,
        media_is_default(r->Ok_0),
{
    Ok(MediaInfo::default())
}

/// No cover art is reported here.
pub fn get_now_playing_artwork_for_reporting(include_play_source: bool) -> (r: Result<
    MediaInfo,
    String,
>)
    ensures
        r is Ok,
        media_is_default(r->Ok_0),
{
    Ok(MediaInfo::default())
}

fn unsupported_probe(summary_key: &'static str, summary: &str) -> (r: PlatformProbeResult)
    ensures
        !r.success,
        r.summary@ == summary@,
        r.detail@ == unsupported_message(),
        crate::text::opt_seq(r.summary_key) == Some(summary_key@),
        crate::text::opt_seq(r.detail_key) == Some(
            "platformSelfTest.detail.unsupportedPlatform"@,
        ),
        r.guidance@.len() == 0,
{
    make_probe(
        false,
        localized_text(summary_key, None, summary.to_owned()),
        localized_text(
            "platformSelfTest.detail.unsupportedPlatform",
            None,
            "当前平台暂不支持实时采集。".to_owned(),
        ),
        Vec::new(),
    )
}

/// The self-test here: every check fails as unsupported.
pub fn run_self_test() -> (r: PlatformSelfTestResult)
    ensures
        r.platform@ == "unsupported"@,
        !r.foreground.success,
        !r.window_title.success,
        !r.media.success,
        r.foreground.summary@ == "前台应用采集不支持"@,
        r.window_title.summary@ == "窗口标题采集不支持"@,
        r.media.summary@ == "媒体采集不支持"@,
        r.foreground.detail@ == unsupported_message(),
        r.window_title.detail@ == unsupported_message(),
        r.media.detail@ == unsupported_message(),
{
    build_self_test_result(
        TargetPlatform::Other,
        unsupported_probe("platformSelfTest.summary.foregroundFailed", "前台应用采集不支持"),
        unsupported_probe("platformSelfTest.summary.windowTitleFailed", "窗口标题采集不支持"),
        unsupported_probe("platformSelfTest.summary.mediaFailed", "媒体采集不支持"),
    )
}

/// The accessibility permission cannot be requested here.
pub fn request_accessibility_permission() -> (r: Result<bool, String>)
    ensures
        r is Err,
        r->Err_0@ == "当前平台不支持辅助功能权限申请。"@,
{
    Err("当前平台不支持辅助功能权限申请。".to_owned())
}

} // verus!
