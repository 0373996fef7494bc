//! Linux: what is read from `xprop`, `gdbus`, `kdotool` and `playerctl`
//! output, and the self-test built from the readings.  Running those
//! programs is left to the caller.
use vstd::prelude::*;

pub mod app_icon;
pub mod media;
pub mod self_test;
pub mod wayland;
pub mod x11;

use crate::platform::ForegroundSnapshot;
use crate::text::{is_blank, is_blank_str, str_eq, trim, trim_str};
use media::{if_empty, or_if_blank};
use x11::{active_window_id, parse_active_window_id, parse_window_title, parse_wm_class, window_title_from, wm_class_from};

verus! {

/// The active window from `xprop -root _NET_ACTIVE_WINDOW` output: its
/// identifier, unless it cannot be read or is `0x0` (no active window).
pub fn active_window_from_xprop(stdout: &str) -> (r: Result<String, String>)
    ensures
        active_window_id(stdout@) is None ==> r is Err && r->Err_0@ == "无法解析 _NET_ACTIVE_WINDOW。"@,
        active_window_id(stdout@) == Some("0x0"@) ==> r is Err && r->Err_0@ == "当前没有活动窗口。"@,
        active_window_id(stdout@) is Some && active_window_id(stdout@) != Some("0x0"@) ==> r is Ok
            && Some(r->Ok_0@) == active_window_id(stdout@),
{
    let id = match parse_active_window_id(stdout) {
        Some(id) => id,
        None => {
            return Err("无法解析 _NET_ACTIVE_WINDOW。".to_owned());
        },
    };
    if str_eq(id.as_str(), "0x0") {
        return Err("当前没有活动窗口。".to_owned());
    }
    Ok(id)
}

/// The message when an `xprop` call failed: `context`, then its trimmed
/// error output, or `xprop 返回失败` when it printed none.
pub fn xprop_failure(context: &str, stderr: &str) -> (r: String)
    ensures
        r@ == context@ + or_if_blank(trim(stderr@), "xprop 返回失败"@),
{
    let mut m = context.to_owned();
    let e = trim_str(stderr);
    let tail = if_empty(e.as_str(), "xprop 返回失败");
    m.append(tail.as_str());
    m
}

/// The arguments of the `xprop` call that reads a window's details: its
/// class and process id when the process is wanted, its titles when the
/// title is.
pub open spec fn x11_detail_args_spec(window_id: Seq<char>, include_name: bool, include_title: bool) -> Seq<Seq<char>> {
    seq!["-id"@, window_id] + (if include_name {
        seq!["WM_CLASS"@, "_NET_WM_PID"@]
    } else {
        Seq::empty()
    }) + (if include_title {
        seq!["_NET_WM_NAME"@, "WM_NAME"@]
    } else {
        Seq::empty()
    })
}

/// The arguments of the `xprop` call that reads a window's details.
pub fn x11_detail_args(window_id: &str, include_name: bool, include_title: bool) -> (r: Vec<String>)
    ensures
        r@.map_values(|s: String| s@) == x11_detail_args_spec(window_id@, include_name, include_title),
{
    let mut args: Vec<String> = Vec::new();
    args.push("-id".to_owned());
    args.push(window_id.to_owned());
    if include_name {
        args.push("WM_CLASS".to_owned());
        args.push("_NET_WM_PID".to_owned());
    }
    if include_title {
        args.push("_NET_WM_NAME".to_owned());
        args.push("WM_NAME".to_owned());
    }
    assert(args@.map_values(|s: String| s@) =~= x11_detail_args_spec(window_id@, include_name, include_title));
    args
}

/// The process name in `/proc/<pid>/comm`: its content trimmed, unless
/// blank.
pub fn comm_process_name(content: &str) -> (r: Option<String>)
    ensures
        is_blank(content@) ==> r is None,
        !is_blank(content@) ==> r is Some && r->Some_0@ == trim(content@),
{
    if is_blank_str(content) {
        None
    } else {
        Some(trim_str(content))
    }
}

/// The foreground window from `xprop` details: the title when asked for
/// (empty when there is none); the process when asked for: the name of
/// the window's process (`pid_process_name`, read for the process id in
/// the details), else the window class when not blank, else `unknown`.
pub fn x11_snapshot(
    detail: &str,
    include_name: bool,
    include_title: bool,
    pid_process_name: Option<String>,
) -> (r: ForegroundSnapshot)
    ensures
        r.process_title@ == (if include_title {
            match window_title_from(crate::text::lines(detail@)) {
                Some(t) => t,
                None => Seq::empty(),
            }
        } else {
            Seq::empty()
        }),
        r.process_name@ == (if include_name {
            match pid_process_name {
                Some(n) => n@,
                None => match wm_class_from(crate::text::lines(detail@)) {
                    Some(c) => if is_blank(c) {
                        "unknown"@
                    } else {
                        c
                    },
                    None => "unknown"@,
                },
            }
        } else {
            Seq::empty()
        }),
{
    let process_title = if include_title {
        match parse_window_title(detail) {
            Some(t) => t,
            None => String::new(),
        }
    } else {
        String::new()
    };
    let process_name = if include_name {
        match pid_process_name {
            Some(n) => n,
            None => match parse_wm_class(detail) {
                Some(c) => if is_blank_str(c.as_str()) {
                    "unknown".to_owned()
                } else {
                    c
                },
                None => "unknown".to_owned(),
            },
        }
    } else {
        String::new()
    };
    ForegroundSnapshot { process_name, process_title }
}

/// The message when neither X11 nor Wayland gave the foreground window.
pub fn linux_foreground_failure(x11_error: &str, wayland_error: &str) -> (r: String)
    ensures
        r@ == "读取 Linux 前台窗口失败。X11："@ + x11_error@ + "；Wayland："@ + wayland_error@,
{
    let mut m = "读取 Linux 前台窗口失败。X11：".to_owned();
    m.append(x11_error);
    m.append("；Wayland：");
    m.append(wayland_error);
    proof {
        reveal_strlit("读取 Linux 前台窗口失败。X11：");
        reveal_strlit("；Wayland：");
    }
    m
}

/// Whether an environment variable names something: it is set and not
/// blank.
pub fn env_flag(value: Option<String>) -> (b: bool)
    ensures
        b == (value is Some && !is_blank(value->Some_0@)),
{
    match value {
        Some(v) => !is_blank_str(v.as_str()),
        None => false,
    }
}

/// A way of reading the foreground window.
#[derive(Clone, Copy, Debug, PartialEq, Eq, Structural)]
pub enum LinuxReader {
    X11,
    Wayland,
}

/// Which reader to try first, and which after it when the first fails,
/// when the application (`include_name`) or the window title
/// (`include_title`) is reported: in a Wayland session Wayland, then X11
/// when there is an X display too; else X11, then Wayland.  None when
/// neither is reported: nothing is read, and the snapshot is empty.
pub fn linux_reader_order(
    include_name: bool,
    include_title: bool,
    wayland_session: bool,
    has_display: bool,
) -> (r: Option<(LinuxReader, Option<LinuxReader>)>)
    ensures
        !include_name && !include_title ==> r is None,
        (include_name || include_title) && wayland_session ==> r == Some(
            (LinuxReader::Wayland, if has_display {
                Some(LinuxReader::X11)
            } else {
                None::<LinuxReader>
            }),
        ),
        (include_name || include_title) && !wayland_session ==> r == Some(
            (LinuxReader::X11, Some(LinuxReader::Wayland)),
        ),
{
    if !include_name && !include_title {
        None
    } else if wayland_session {
        Some((LinuxReader::Wayland, if has_display {
            Some(LinuxReader::X11)
        } else {
            None
        }))
    } else {
        Some((LinuxReader::X11, Some(LinuxReader::Wayland)))
    }
}

/// The foreground window from the readers tried in `linux_reader_order`:
/// the first reading that worked; when none did, in a Wayland session the
/// Wayland error, else both errors together.
pub open spec fn linux_foreground_outcome(
    wayland_session: bool,
    first: Result<ForegroundSnapshot, String>,
    second: Option<Result<ForegroundSnapshot, String>>,
) -> Result<ForegroundSnapshot, Seq<char>> {
    match first {
        Ok(s) => Ok(s),
        Err(e1) => match second {
            Some(Ok(s)) => Ok(s),
            Some(Err(e2)) => if wayland_session {
                Err(e1@)
            } else {
                Err("读取 Linux 前台窗口失败。X11："@ + e1@ + "；Wayland："@ + e2@)
            },
            None => Err(e1@),
        },
    }
}

/// The foreground window from the readings of the readers tried, in the
/// order of `linux_reader_order`; `second` is none when the first worked
/// or there was no second reader.
pub fn linux_foreground_result(
    wayland_session: bool,
    first: Result<ForegroundSnapshot, String>,
    second: Option<Result<ForegroundSnapshot, String>>,
) -> (r: Result<ForegroundSnapshot, String>)
    ensures
        match (r, linux_foreground_outcome(wayland_session, first, second)) {
            (Ok(a), Ok(b)) => a == b,
            (Err(a), Err(b)) => a@ == b,
            _ => false,
        },
{
    match first {
        Ok(s) => Ok(s),
        Err(e1) => match second {
            Some(Ok(s)) => Ok(s),
            Some(Err(e2)) => if wayland_session {
                Err(e1)
            } else {
                Err(linux_foreground_failure(e1.as_str(), e2.as_str()))
            },
            None => Err(e1),
        },
    }
}

/// The accessibility permission cannot be requested on Linux.
pub fn request_accessibility_permission() -> (r: Result<bool, String>)
    ensures
        r is Err,
        r->Err_0@ == "当前平台不支持辅助功能权限申请。"@,
{
    Err("当前平台不支持辅助功能权限申请。".to_owned())
}

} // verus!
