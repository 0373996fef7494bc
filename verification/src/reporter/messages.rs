//! Messages of the background reporter.
use vstd::prelude::*;

use crate::locale::{format_status, localized, pick, status_message, BackendLocale};

verus! {

pub fn reporter_worker_stopping(locale: BackendLocale) -> (r: String)
    ensures
        r@ == pick(
            locale,
            "后台同步仍在退出，请稍后重试。"@,
            "Background sync is still stopping. Try again shortly."@,
        ),
{
    localized(
        locale,
        "后台同步仍在退出，请稍后重试。",
        "Background sync is still stopping. Try again shortly.",
    )
}

pub fn reporter_config_base_url_missing(locale: BackendLocale) -> (r: String)
    ensures
        r@ == pick(
            locale,
            "缺少站点地址，无法启动后台同步。"@,
            "Site URL is required before background sync can start."@,
        ),
{
    localized(
        locale,
        "缺少站点地址，无法启动后台同步。",
        "Site URL is required before background sync can start.",
    )
}

pub fn reporter_config_api_token_missing(locale: BackendLocale) -> (r: String)
    ensures
        r@ == pick(
            locale,
            "缺少 API Token，无法启动后台同步。"@,
            "API Token is required before background sync can start."@,
        ),
{
    localized(
        locale,
        "缺少 API Token，无法启动后台同步。",
        "API Token is required before background sync can start.",
    )
}

pub fn reporter_config_generated_hash_key_missing(locale: BackendLocale) -> (r: String)
    ensures
        r@ == pick(
            locale,
            "缺少 GeneratedHashKey，无法启动后台同步。"@,
            "Device key is required before background sync can start."@,
        ),
{
    localized(
        locale,
        "缺少 GeneratedHashKey，无法启动后台同步。",
        "Device key is required before background sync can start.",
    )
}

/// The error for an HTTP error status from the server.
pub fn server_status_error(locale: BackendLocale, status: u16, body: &str) -> (r: String)
    ensures
        r@ == status_message(locale, "服务端返回状态码"@, "Server returned HTTP"@, status, body@),
{
    format_status(locale, "服务端返回状态码", "Server returned HTTP", status, body)
}

pub fn pending_approval_default(locale: BackendLocale) -> (r: String)
    ensures
        r@ == pick(locale, "设备待后台审核后可用"@, "Device is pending approval"@),
{
    localized(locale, "设备待后台审核后可用", "Device is pending approval")
}

pub fn server_failure_default(locale: BackendLocale) -> (r: String)
    ensures
        r@ == pick(locale, "服务端返回失败"@, "Server returned failure"@),
{
    localized(locale, "服务端返回失败", "Server returned failure")
}

} // verus!
