//! What the user interface's commands decide, apart from the requests and
//! files they use.
use vstd::prelude::*;

pub mod app_state;
pub mod helpers;
pub mod http;

use crate::json::{JsonData, JsonMap, JsonNumber, JsonValue};
use crate::models::{ApiResult, DiscordPresenceSnapshot, PlatformSelfTestResult, RealtimeReporterSnapshot};
use crate::text::opt_seq;
use helpers::{
    discord_start_error_code, discord_start_error_code_spec, reporter_start_error_code,
    reporter_start_error_code_spec,
};

verus! {

/// How long the platform self-test may take, in milliseconds.
pub const PLATFORM_SELF_TEST_TIMEOUT_MS: u64 = 4000;

fn owned_code(code: Option<&'static str>) -> (r: Option<String>)
    ensures
        opt_seq(r) == helpers::opt_str_view(code),
{
    match code {
        Some(c) => Some(c.to_owned()),
        None => None,
    }
}

/// The answer to a request to start the reporter: its state, or the
/// error with the code that names it.
pub fn reporter_start_answer(result: Result<RealtimeReporterSnapshot, String>) -> (r: ApiResult<
    RealtimeReporterSnapshot,
>)
    ensures
        r.success == result is Ok,
        result is Ok ==> r.status == 200 && r.data == Some(result->Ok_0) && r.error is None,
        result is Err ==> r.status == 400 && r.data is None && r.error is Some
            && r.error->Some_0.message == result->Err_0 && opt_seq(r.error->Some_0.code)
            == reporter_start_error_code_spec(result->Err_0@) && r.error->Some_0.params is None
            && r.error->Some_0.details is None,
{
    match result {
        Ok(snapshot) => ApiResult::success(200, snapshot),
        Err(error) => {
            let code = owned_code(reporter_start_error_code(error.as_str()));
            ApiResult::failure_localized(400, code, error, None, None)
        },
    }
}

/// The answer to a request to start the Discord sync.
pub fn discord_start_answer(result: Result<DiscordPresenceSnapshot, String>) -> (r: ApiResult<
    DiscordPresenceSnapshot,
>)
    ensures
        r.success == result is Ok,
        result is Ok ==> r.status == 200 && r.data == Some(result->Ok_0) && r.error is None,
        result is Err ==> r.status == 400 && r.data is None && r.error is Some
            && r.error->Some_0.message == result->Err_0 && opt_seq(r.error->Some_0.code)
            == discord_start_error_code_spec(result->Err_0@) && r.error->Some_0.params is None
            && r.error->Some_0.details is None,
{
    match result {
        Ok(snapshot) => ApiResult::success(200, snapshot),
        Err(error) => {
            let code = owned_code(discord_start_error_code(error.as_str()));
            ApiResult::failure_localized(400, code, error, None, None)
        },
    }
}

/// The answer to a request for the accessibility permission.
pub fn accessibility_permission_answer(result: Result<bool, String>) -> (r: ApiResult<bool>)
    ensures
        r.success == result is Ok,
        result is Ok ==> r.status == 200 && r.data == Some(result->Ok_0) && r.error is None,
        result is Err ==> r.status == 400 && r.data is None && r.error is Some
            && r.error->Some_0.message == result->Err_0 && opt_seq(r.error->Some_0.code) == Some(
            "backendErrors.accessibilityPermissionUnsupported"@,
        ),
{
    match result {
        Ok(granted) => ApiResult::success(200, granted),
        Err(error) => ApiResult::failure_localized(
            400,
            Some("backendErrors.accessibilityPermissionUnsupported".to_owned()),
            error,
            None,
            None,
        ),
    }
}

/// How a platform self-test ended.
#[derive(Debug)]
pub enum SelfTestOutcome {
    /// It finished with this result.
    Finished(PlatformSelfTestResult),
    /// An earlier test is still running.
    AlreadyRunning,
    /// It did not finish in time.
    TimedOut,
    /// Its thread ended without a result.
    Disconnected,
    /// Waiting for it failed, for this reason.
    WaitFailed(String),
}

/// The answer to a platform self-test request.
pub fn self_test_answer(outcome: SelfTestOutcome) -> (r: ApiResult<PlatformSelfTestResult>)
    ensures
        r.success == outcome is Finished,
        outcome is Finished ==> r.status == 200 && r.data == Some(outcome->Finished_0),
        outcome is AlreadyRunning ==> r.status == 409 && opt_seq(r.error->Some_0.code) == Some(
            "backendErrors.platformSelfTestAlreadyRunning"@,
        ) && r.error->Some_0.message@ == "上一次平台检测仍在等待 Windows API 返回，请稍后重试。"@,
        outcome is TimedOut ==> r.status == 408 && opt_seq(r.error->Some_0.code) == Some(
            "backendErrors.platformSelfTestTimedOut"@,
        ) && r.error->Some_0.message@ == "平台检测超时：某个 Windows 媒体或窗口 API 没有及时返回。"@
            && crate::json::opt_data(r.error->Some_0.details) == Some(
            JsonData::Object(seq![("timeoutMs"@, JsonData::PosInt(PLATFORM_SELF_TEST_TIMEOUT_MS))]),
        ),
        outcome is Disconnected ==> r.status == 500 && opt_seq(r.error->Some_0.code) == Some(
            "backendErrors.platformSelfTestFailed"@,
        ) && r.error->Some_0.message@ == "平台检测线程在返回结果前结束。"@,
        outcome is WaitFailed ==> r.status == 500 && opt_seq(r.error->Some_0.code) == Some(
            "backendErrors.platformSelfTestFailed"@,
        ) && r.error->Some_0.message@ == "平台检测线程执行失败："@ + outcome->WaitFailed_0@,
        !r.success ==> r.data is None && r.error is Some && r.error->Some_0.status == r.status,
{
    match outcome {
        SelfTestOutcome::Finished(result) => ApiResult::success(200, result),
        SelfTestOutcome::AlreadyRunning => ApiResult::failure_localized(
            409,
            Some("backendErrors.platformSelfTestAlreadyRunning".to_owned()),
            "上一次平台检测仍在等待 Windows API 返回，请稍后重试。".to_owned(),
            None,
            None,
        ),
        SelfTestOutcome::TimedOut => {
            let mut details = JsonMap::new();
            details.push_new(
                "timeoutMs".to_owned(),
                JsonValue::Number(JsonNumber::PosInt(PLATFORM_SELF_TEST_TIMEOUT_MS)),
            );
            let ghost ds = details@;
            proof {
                reveal_strlit("timeoutMs");
                assert(ds =~= seq![("timeoutMs"@, JsonData::PosInt(PLATFORM_SELF_TEST_TIMEOUT_MS))]);
            }
            ApiResult::failure_localized(
                408,
                Some("backendErrors.platformSelfTestTimedOut".to_owned()),
                "平台检测超时：某个 Windows 媒体或窗口 API 没有及时返回。".to_owned(),
                None,
                Some(JsonValue::Object(details)),
            )
        },
        SelfTestOutcome::Disconnected => ApiResult::failure_localized(
            500,
            Some("backendErrors.platformSelfTestFailed".to_owned()),
            "平台检测线程在返回结果前结束。".to_owned(),
            None,
            None,
        ),
        SelfTestOutcome::WaitFailed(error) => {
            let mut message = "平台检测线程执行失败：".to_owned();
            message.append(error.as_str());
            proof {
                reveal_strlit("平台检测线程执行失败：");
            }
            ApiResult::failure_localized(
                500,
                Some("backendErrors.platformSelfTestFailed".to_owned()),
                message,
                None,
                None,
            )
        },
    }
}

/// The message when the self-test thread could not be started.
pub fn self_test_spawn_error(error: &str) -> (r: String)
    ensures
        r@ == "启动平台检测线程失败："@ + error@,
{
    let mut message = "启动平台检测线程失败：".to_owned();
    message.append(error);
    proof {
        reveal_strlit("启动平台检测线程失败：");
    }
    message
}

} // verus!
