//! Messages of the Discord presence sync.
use vstd::prelude::*;

use crate::locale::{format_status, localized, pick, status_message, BackendLocale};

verus! {

/// The error for an HTTP error status from the public activity feed.
pub fn public_feed_status_error(locale: BackendLocale, status: u16, body: &str) -> (r: String)
    ensures
        r@ == status_message(
            locale,
            "公开活动接口返回状态码"@,
            "Public activity returned HTTP"@,
            status,
            body@,
        ),
{
    format_status(locale, "公开活动接口返回状态码", "Public activity returned HTTP", status, body)
}

pub fn default_public_feed_failure(locale: BackendLocale) -> (r: String)
    ensures
        r@ == pick(locale, "公开活动接口返回失败"@, "Public activity returned failure"@),
{
    localized(locale, "公开活动接口返回失败", "Public activity returned failure")
}

pub fn discord_worker_stopping(locale: BackendLocale) -> (r: String)
    ensures
        r@ == pick(
            locale,
            "Discord 同步仍在退出，请稍后重试。"@,
            "Discord sync is still stopping. Try again shortly."@,
        ),
{
    localized(
        locale,
        "Discord 同步仍在退出，请稍后重试。",
        "Discord sync is still stopping. Try again shortly.",
    )
}

pub fn discord_ipc_unavailable(locale: BackendLocale) -> (r: String)
    ensures
        r@ == pick(
            locale,
            "Discord IPC 不可用，请确认桌面端 Discord 已运行。"@,
            "Discord IPC is unavailable. Make sure Discord Desktop is running."@,
        ),
{
    localized(
        locale,
        "Discord IPC 不可用，请确认桌面端 Discord 已运行。",
        "Discord IPC is unavailable. Make sure Discord Desktop is running.",
    )
}

pub fn discord_config_base_url_missing(locale: BackendLocale) -> (r: String)
    ensures
        r@ == pick(
            locale,
            "缺少站点地址，无法启动 Discord 同步。"@,
            "Site URL is required before Discord sync can start."@,
        ),
{
    localized(
        locale,
        "缺少站点地址，无法启动 Discord 同步。",
        "Site URL is required before Discord sync can start.",
    )
}

pub fn discord_config_app_id_missing(locale: BackendLocale) -> (r: String)
    ensures
        r@ == pick(
            locale,
            "缺少 Discord Application ID，无法启动 Discord 同步。"@,
            "Discord Application ID is required before Discord sync can start."@,
        ),
{
    localized(
        locale,
        "缺少 Discord Application ID，无法启动 Discord 同步。",
        "Discord Application ID is required before Discord sync can start.",
    )
}

pub fn discord_config_source_id_missing(locale: BackendLocale) -> (r: String)
    ensures
        r@ == pick(
            locale,
            "缺少 Discord 来源标识，无法启动 Discord 同步。"@,
            "Discord source ID is required before Discord sync can start."@,
        ),
{
    localized(
        locale,
        "缺少 Discord 来源标识，无法启动 Discord 同步。",
        "Discord source ID is required before Discord sync can start.",
    )
}

} // verus!
