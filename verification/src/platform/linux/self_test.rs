//! The Linux self-test: its checks, from the readings it made.
use vstd::prelude::*;

use crate::json::opt_data;
use crate::models::{PlatformProbeResult, PlatformSelfTestResult};
use crate::platform::probes::{
    failed_probe, foreground_ok_probe, guidance_is, media_none_probe, media_ok_probe, media_probe_is,
    probe_is, push_guidance, window_title_probe, window_title_probe_is,
};
use crate::platform::{
    build_self_test_result, key_seq, localized_text, media_empty, ForegroundSnapshot, MediaInfo,
    ProbeTextSpec, TargetPlatform,
};
use crate::text::{contains, contains_str, to_lowercase, unicode_lowercase};

verus! {

/// Which check a detail or a hint is for.
#[derive(Clone, Copy, Debug, PartialEq, Eq, Structural)]
pub enum ProbeKind {
    Foreground,
    Window,
    Media,
}

/// The key of the detail for a failed Linux reading: it names the tool
/// that the error mentions.
pub open spec fn linux_detail_key(error: Seq<char>, probe: ProbeKind) -> Seq<char> {
    let lower = unicode_lowercase(error);
    if probe == ProbeKind::Media {
        if contains(lower, "playerctl"@) {
            "platformSelfTest.detail.linuxMediaPlayerctlMissing"@
        } else {
            "platformSelfTest.detail.linuxMediaUnavailable"@
        }
    } else if contains(lower, "focused window d-bus"@) || contains(lower, "gdbus"@) {
        "platformSelfTest.detail.linuxForegroundGnomeSupportMissing"@
    } else if contains(lower, "kdotool"@) {
        "platformSelfTest.detail.linuxForegroundKdeSupportMissing"@
    } else if contains(lower, "xprop"@) {
        "platformSelfTest.detail.linuxForegroundXpropMissing"@
    } else {
        "platformSelfTest.detail.linuxForegroundUnavailable"@
    }
}

/// The detail for a failed Linux reading: the error, under a key that
/// names the tool it mentions.
pub fn linux_detail(error: &str, probe: ProbeKind) -> (r: ProbeTextSpec)
    ensures
        key_seq(r.key) == Some(linux_detail_key(error@, probe)),
        r.params is None,
        r.fallback@ == error@,
{
    let lower = to_lowercase(error);
    let l = lower.as_str();
    if probe == ProbeKind::Media {
        if contains_str(l, "playerctl") {
            return localized_text(
                "platformSelfTest.detail.linuxMediaPlayerctlMissing",
                None,
                error.to_owned(),
            );
        }
        return localized_text("platformSelfTest.detail.linuxMediaUnavailable", None, error.to_owned());
    }
    if contains_str(l, "focused window d-bus") || contains_str(l, "gdbus") {
        return localized_text(
            "platformSelfTest.detail.linuxForegroundGnomeSupportMissing",
            None,
            error.to_owned(),
        );
    }
    if contains_str(l, "kdotool") {
        return localized_text(
            "platformSelfTest.detail.linuxForegroundKdeSupportMissing",
            None,
            error.to_owned(),
        );
    }
    if contains_str(l, "xprop") {
        return localized_text(
            "platformSelfTest.detail.linuxForegroundXpropMissing",
            None,
            error.to_owned(),
        );
    }
    localized_text("platformSelfTest.detail.linuxForegroundUnavailable", None, error.to_owned())
}

/// `items` when `cond` holds, else nothing.
pub open spec fn when(cond: bool, items: Seq<(Seq<char>, Seq<char>)>) -> Seq<(Seq<char>, Seq<char>)> {
    if cond {
        items
    } else {
        Seq::empty()
    }
}

/// The hints for a failed Linux reading, as (key, text) pairs: how to read
/// the foreground window on each desktop, and how to install each tool the
/// error mentions; a general hint when none applies.
pub open spec fn linux_guidance_spec(error: Seq<char>, probe: ProbeKind) -> Seq<(Seq<char>, Seq<char>)> {
    let lower = unicode_lowercase(error);
    let g = when(
        probe == ProbeKind::Foreground || contains(lower, "wayland"@),
        seq![
            ("platformSelfTest.guidance.linuxX11"@, "X11 会话可直接通过 xprop 读取前台窗口。"@),
            (
                "platformSelfTest.guidance.linuxGnomeFocusedWindow"@,
                "GNOME Wayland 可安装 Focused Window D-Bus 扩展，客户端会直接通过 gdbus 读取前台窗口。"@,
            ),
            (
                "platformSelfTest.guidance.linuxKdeKdotool"@,
                "KDE Plasma Wayland 可安装 kdotool，客户端会直接读取活动窗口类名和标题。"@,
            ),
        ],
    ) + when(
        contains(lower, "xprop"@),
        seq![
            (
                "platformSelfTest.guidance.linuxInstallXprop"@,
                "请安装 xprop（通常由 xorg-xprop / x11-utils 提供）。"@,
            ),
        ],
    ) + when(
        contains(lower, "focused window d-bus"@) || contains(lower, "gdbus"@),
        seq![
            (
                "platformSelfTest.guidance.linuxGnomeFocusedWindow"@,
                "GNOME 请安装 Focused Window D-Bus 扩展，并确认系统存在 gdbus。"@,
            ),
        ],
    ) + when(
        contains(lower, "kdotool"@),
        seq![("platformSelfTest.guidance.linuxInstallKdotool"@, "KDE Plasma 请安装 kdotool。"@)],
    ) + when(
        probe == ProbeKind::Media || contains(lower, "playerctl"@),
        seq![
            (
                "platformSelfTest.guidance.linuxInstallPlayerctl"@,
                "请安装 playerctl，并确认播放器实现了 MPRIS。"@,
            ),
        ],
    );
    if g.len() == 0 {
        seq![
            (
                "platformSelfTest.guidance.linuxCheckDesktopPermission"@,
                "请先确认当前桌面环境是否允许采集前台窗口/媒体信息。"@,
            ),
        ]
    } else {
        g
    }
}

/// The hints for a failed Linux reading.
pub fn linux_guidance(error: &str, probe: ProbeKind) -> (r: Vec<ProbeTextSpec>)
    ensures
        guidance_is(r@, linux_guidance_spec(error@, probe)),
{
    let lower = to_lowercase(error);
    let l = lower.as_str();
    let mut g: Vec<ProbeTextSpec> = Vec::new();
    let ghost mut exp: Seq<(Seq<char>, Seq<char>)> = Seq::empty();
    let ghost lw = unicode_lowercase(error@);
    if probe == ProbeKind::Foreground || contains_str(l, "wayland") {
        push_guidance(&mut g, "platformSelfTest.guidance.linuxX11", "X11 会话可直接通过 xprop 读取前台窗口。", Ghost(exp));
        proof { exp = exp.push(("platformSelfTest.guidance.linuxX11"@, "X11 会话可直接通过 xprop 读取前台窗口。"@)); }
        push_guidance(
            &mut g,
            "platformSelfTest.guidance.linuxGnomeFocusedWindow",
            "GNOME Wayland 可安装 Focused Window D-Bus 扩展，客户端会直接通过 gdbus 读取前台窗口。",
            Ghost(exp),
        );
        proof { exp = exp.push(("platformSelfTest.guidance.linuxGnomeFocusedWindow"@, "GNOME Wayland 可安装 Focused Window D-Bus 扩展，客户端会直接通过 gdbus 读取前台窗口。"@)); }
        push_guidance(
            &mut g,
            "platformSelfTest.guidance.linuxKdeKdotool",
            "KDE Plasma Wayland 可安装 kdotool，客户端会直接读取活动窗口类名和标题。",
            Ghost(exp),
        );
        proof { exp = exp.push(("platformSelfTest.guidance.linuxKdeKdotool"@, "KDE Plasma Wayland 可安装 kdotool，客户端会直接读取活动窗口类名和标题。"@)); }
    }
    let ghost e1 = exp;
    if contains_str(l, "xprop") {
        push_guidance(&mut g, "platformSelfTest.guidance.linuxInstallXprop", "请安装 xprop（通常由 xorg-xprop / x11-utils 提供）。", Ghost(exp));
        proof { exp = exp.push(("platformSelfTest.guidance.linuxInstallXprop"@, "请安装 xprop（通常由 xorg-xprop / x11-utils 提供）。"@)); }
    }
    let ghost e2 = exp;
    if contains_str(l, "focused window d-bus") || contains_str(l, "gdbus") {
        push_guidance(&mut g, "platformSelfTest.guidance.linuxGnomeFocusedWindow", "GNOME 请安装 Focused Window D-Bus 扩展，并确认系统存在 gdbus。", Ghost(exp));
        proof { exp = exp.push(("platformSelfTest.guidance.linuxGnomeFocusedWindow"@, "GNOME 请安装 Focused Window D-Bus 扩展，并确认系统存在 gdbus。"@)); }
    }
    let ghost e3 = exp;
    if contains_str(l, "kdotool") {
        push_guidance(&mut g, "platformSelfTest.guidance.linuxInstallKdotool", "KDE Plasma 请安装 kdotool。", Ghost(exp));
        proof { exp = exp.push(("platformSelfTest.guidance.linuxInstallKdotool"@, "KDE Plasma 请安装 kdotool。"@)); }
    }
    let ghost e4 = exp;
    if probe == ProbeKind::Media || contains_str(l, "playerctl") {
        push_guidance(&mut g, "platformSelfTest.guidance.linuxInstallPlayerctl", "请安装 playerctl，并确认播放器实现了 MPRIS。", Ghost(exp));
        proof { exp = exp.push(("platformSelfTest.guidance.linuxInstallPlayerctl"@, "请安装 playerctl，并确认播放器实现了 MPRIS。"@)); }
    }
    let ghost e5 = exp;
    proof {
        let spec_g = when(
            probe == ProbeKind::Foreground || contains(lw, "wayland"@),
            seq![
                ("platformSelfTest.guidance.linuxX11"@, "X11 会话可直接通过 xprop 读取前台窗口。"@),
                (
                    "platformSelfTest.guidance.linuxGnomeFocusedWindow"@,
                    "GNOME Wayland 可安装 Focused Window D-Bus 扩展，客户端会直接通过 gdbus 读取前台窗口。"@,
                ),
                (
                    "platformSelfTest.guidance.linuxKdeKdotool"@,
                    "KDE Plasma Wayland 可安装 kdotool，客户端会直接读取活动窗口类名和标题。"@,
                ),
            ],
        );
        assert(e1 =~= spec_g);
    }
    if g.len() == 0 {
        push_guidance(&mut g, "platformSelfTest.guidance.linuxCheckDesktopPermission", "请先确认当前桌面环境是否允许采集前台窗口/媒体信息。", Ghost(exp));
        proof { exp = exp.push(("platformSelfTest.guidance.linuxCheckDesktopPermission"@, "请先确认当前桌面环境是否允许采集前台窗口/媒体信息。"@)); }
    }
    proof {
        assert(exp =~= linux_guidance_spec(error@, probe));
    }
    g
}

/// The result of the check of the foreground application from its
/// reading.
pub open spec fn foreground_check_ok(r: PlatformProbeResult, reading: Result<ForegroundSnapshot, String>) -> bool {
    match reading {
        Ok(s) => probe_is(
            r,
            true,
            "platformSelfTest.summary.foregroundOk"@,
            "前台应用采集正常"@,
            "platformSelfTest.detail.foregroundCurrent"@,
            "当前前台应用："@ + s.process_name@,
            Some(crate::platform::probes::single_text_object("processName"@, s.process_name@)),
            Seq::empty(),
        ),
        Err(e) => probe_is(
            r,
            false,
            "platformSelfTest.summary.foregroundFailed"@,
            "前台应用采集失败"@,
            linux_detail_key(e@, ProbeKind::Foreground),
            e@,
            None,
            linux_guidance_spec(e@, ProbeKind::Foreground),
        ),
    }
}

/// The hint when no media plays during the self-test.
pub open spec fn linux_media_hint() -> Seq<char> {
    "如需验证媒体采集，请先播放一段音频/视频后重试。"@
}

/// The Linux self-test from its readings: the foreground window read
/// twice (for the application, then for the title) and the media.
pub fn run_self_test(
    foreground: Result<ForegroundSnapshot, String>,
    window: Result<ForegroundSnapshot, String>,
    media: Result<MediaInfo, String>,
) -> (r: PlatformSelfTestResult)
    ensures
        r.platform@ == "linux"@,
        foreground_check_ok(r.foreground, foreground),
        match window {
            Ok(s) => window_title_probe_is(r.window_title, s.process_title@),
            Err(e) => probe_is(
                r.window_title,
                false,
                "platformSelfTest.summary.windowTitleFailed"@,
                "窗口标题采集失败"@,
                linux_detail_key(e@, ProbeKind::Window),
                e@,
                None,
                linux_guidance_spec(e@, ProbeKind::Foreground),
            ),
        },
        match media {
            Ok(m) => media_probe_is(r.media, m, linux_media_hint()),
            Err(e) => probe_is(
                r.media,
                false,
                "platformSelfTest.summary.mediaFailed"@,
                "媒体采集失败"@,
                linux_detail_key(e@, ProbeKind::Media),
                e@,
                None,
                linux_guidance_spec(e@, ProbeKind::Media),
            ),
        },
{
    let fg = match foreground {
        Ok(snapshot) => foreground_ok_probe(snapshot.process_name.as_str()),
        Err(error) => {
            let guidance = linux_guidance(error.as_str(), ProbeKind::Foreground);
            failed_probe(
                "platformSelfTest.summary.foregroundFailed",
                "前台应用采集失败",
                linux_detail(error.as_str(), ProbeKind::Foreground),
                guidance,
                Ghost(linux_guidance_spec(error@, ProbeKind::Foreground)),
            )
        },
    };
    let title = match window {
        Ok(snapshot) => window_title_probe(snapshot.process_title.as_str()),
        Err(error) => {
            let guidance = linux_guidance(error.as_str(), ProbeKind::Foreground);
            failed_probe(
                "platformSelfTest.summary.windowTitleFailed",
                "窗口标题采集失败",
                linux_detail(error.as_str(), ProbeKind::Window),
                guidance,
                Ghost(linux_guidance_spec(error@, ProbeKind::Foreground)),
            )
        },
    };
    let md = match media {
        Ok(info) => if !info.is_empty() {
            media_ok_probe(&info)
        } else {
            media_none_probe("如需验证媒体采集，请先播放一段音频/视频后重试。")
        },
        Err(error) => {
            let guidance = linux_guidance(error.as_str(), ProbeKind::Media);
            failed_probe(
                "platformSelfTest.summary.mediaFailed",
                "媒体采集失败",
                linux_detail(error.as_str(), ProbeKind::Media),
                guidance,
                Ghost(linux_guidance_spec(error@, ProbeKind::Media)),
            )
        },
    };
    build_self_test_result(TargetPlatform::Linux, fg, title, md)
}


} // verus!
