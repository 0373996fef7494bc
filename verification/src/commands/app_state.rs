//! Checks on the settings the user interface saves, and the answers to the
//! import and capability requests.
use vstd::prelude::*;

use crate::import_config::{first_object, imported_from_raw, parse_import_payload};
use crate::json::{field, opt_data, JsonData, JsonMap, JsonNumber, JsonValue};
use crate::models::{
    default_client_capabilities, default_heartbeat_interval_ms, default_poll_interval_ms,
    ApiError, ApiResult, AppStatePayload, ClientCapabilities, ImportedIntegrationConfig,
};
use crate::text::{decimal, is_blank, is_blank_str, trim, trim_str, u128_to_decimal, u64_to_decimal, utf8_len, utf8_len_of};

verus! {

/// The largest quick-connect input accepted, in bytes.
pub const MAX_IMPORT_INPUT_BYTES: u64 = 524288;

/// The shortest poll interval a user may save, in milliseconds.
pub const MIN_POLL_INTERVAL_MS: u64 = 1000;

/// The shortest heartbeat interval a user may save, in milliseconds.
pub const MIN_HEARTBEAT_INTERVAL_MS: u64 = 0;

/// A timing setting that cannot be saved, and the value to offer instead.
#[derive(Debug)]
pub struct ConfigValidationIssue {
    pub field: &'static str,
    pub path: &'static str,
    pub reason: &'static str,
    pub received: JsonValue,
    pub expected: String,
    pub min: u64,
    pub suggested_value: u64,
}

/// Why a timing setting cannot be saved.
#[derive(Clone, Copy, Debug, PartialEq, Eq, Structural)]
pub enum TimingProblem {
    /// It is `null`.
    Empty,
    /// It is not a non-negative integer.
    NotInteger,
    /// It is below the minimum.
    TooSmall,
}

/// The problem with the value `v` of a timing setting whose minimum is
/// `min`, if any.
pub open spec fn timing_problem(v: JsonData, min: u64) -> Option<TimingProblem> {
    match v {
        JsonData::Null => Some(TimingProblem::Empty),
        JsonData::PosInt(n) => if n < min {
            Some(TimingProblem::TooSmall)
        } else {
            None
        },
        _ => Some(TimingProblem::NotInteger),
    }
}

/// The name of a problem, as the user interface knows it.
pub open spec fn problem_name(p: TimingProblem) -> Seq<char> {
    match p {
        TimingProblem::Empty => "empty"@,
        TimingProblem::NotInteger => "notInteger"@,
        TimingProblem::TooSmall => "tooSmall"@,
    }
}

/// `issue` describes the problem `p` of the setting `field` at `path`,
/// whose value is `received`.
pub open spec fn issue_describes(
    issue: ConfigValidationIssue,
    field_name: Seq<char>,
    path: Seq<char>,
    p: TimingProblem,
    received: JsonData,
    min: u64,
    default_value: u64,
) -> bool {
    &&& issue.field@ == field_name
    &&& issue.path@ == path
    &&& issue.reason@ == problem_name(p)
    &&& issue.received@ == received
    &&& issue.expected@ == "integer >= "@ + decimal(min as nat)
    &&& issue.min == min
    &&& issue.suggested_value == if p == TimingProblem::TooSmall {
        min
    } else {
        default_value
    }
}

/// The issue for a setting with a problem.
pub fn timing_issue(
    field_name: &'static str,
    path: &'static str,
    reason: &'static str,
    received: JsonValue,
    min: u64,
    suggested_value: u64,
) -> (r: ConfigValidationIssue)
    ensures
        r.field == field_name,
        r.path == path,
        r.reason == reason,
        r.received == received,
        r.expected@ == "integer >= "@ + decimal(min as nat),
        r.min == min,
        r.suggested_value == suggested_value,
{
    let mut expected = "integer >= ".to_owned();
    let n = u64_to_decimal(min);
    expected.append(n.as_str());
    proof {
        reveal_strlit("integer >= ");
    }
    ConfigValidationIssue { field: field_name, path, reason, received, expected, min, suggested_value }
}

/// The value of setting `k` in `config`, the `config` part of the saved
/// document when there is one.
pub open spec fn setting_value(config: Option<JsonData>, k: Seq<char>) -> Option<JsonData> {
    match config {
        Some(c) => field(c, k),
        None => None,
    }
}

/// Checks one timing setting: none when it is absent or acceptable.
pub fn validate_timing_field(
    config: Option<&JsonValue>,
    field_name: &'static str,
    path: &'static str,
    min: u64,
    default_value: u64,
) -> (r: Option<ConfigValidationIssue>)
    ensures
        ({
            let v = setting_value(
                match config {
                    Some(c) => Some(c@),
                    None => None,
                },
                field_name@,
            );
            match r {
                None => v is None || timing_problem(v->Some_0, min) is None,
                Some(issue) => v is Some && timing_problem(v->Some_0, min) is Some
                    && issue_describes(
                    issue,
                    field_name@,
                    path@,
                    timing_problem(v->Some_0, min)->Some_0,
                    v->Some_0,
                    min,
                    default_value,
                ),
            }
        }),
{
    let value = match config {
        Some(c) => match c.get(field_name) {
            Some(v) => v,
            None => {
                return None;
            },
        },
        None => {
            return None;
        },
    };
    proof {
        reveal_strlit("empty");
        reveal_strlit("notInteger");
        reveal_strlit("tooSmall");
    }
    match value {
        JsonValue::Null => Some(timing_issue(field_name, path, "empty", value.duplicate(), min, default_value)),
        JsonValue::Number(JsonNumber::PosInt(n)) => if *n < min {
            Some(timing_issue(field_name, path, "tooSmall", value.duplicate(), min, min))
        } else {
            None
        },
        _ => Some(timing_issue(field_name, path, "notInteger", value.duplicate(), min, default_value)),
    }
}

/// The issues of the timing settings of a saved document, poll interval
/// first, then heartbeat interval.
pub open spec fn timing_issues_ok(issues: Seq<ConfigValidationIssue>, payload: JsonData) -> bool {
    let config = field(payload, "config"@);
    let poll = setting_value(config, "pollIntervalMs"@);
    let beat = setting_value(config, "heartbeatIntervalMs"@);
    let poll_bad = poll is Some && timing_problem(poll->Some_0, MIN_POLL_INTERVAL_MS) is Some;
    let beat_bad = beat is Some && timing_problem(beat->Some_0, MIN_HEARTBEAT_INTERVAL_MS) is Some;
    &&& issues.len() == (if poll_bad { 1int } else { 0 }) + (if beat_bad { 1int } else { 0 })
    &&& poll_bad ==> issue_describes(
        issues[0],
        "pollIntervalMs"@,
        "config.pollIntervalMs"@,
        timing_problem(poll->Some_0, MIN_POLL_INTERVAL_MS)->Some_0,
        poll->Some_0,
        MIN_POLL_INTERVAL_MS,
        2000,
    )
    &&& beat_bad ==> issue_describes(
        issues[issues.len() - 1],
        "heartbeatIntervalMs"@,
        "config.heartbeatIntervalMs"@,
        timing_problem(beat->Some_0, MIN_HEARTBEAT_INTERVAL_MS)->Some_0,
        beat->Some_0,
        MIN_HEARTBEAT_INTERVAL_MS,
        60000,
    )
}

/// The problems of the timing settings of a document the user interface
/// wants to save.
pub fn validate_reporter_timing_payload(payload: &JsonValue) -> (r: Vec<ConfigValidationIssue>)
    ensures
        timing_issues_ok(r@, payload@),
{
    proof {
        reveal_strlit("config");
    }
    let config = payload.get("config");
    let mut issues: Vec<ConfigValidationIssue> = Vec::new();
    if let Some(issue) = validate_timing_field(
        config,
        "pollIntervalMs",
        "config.pollIntervalMs",
        MIN_POLL_INTERVAL_MS,
        default_poll_interval_ms(),
    ) {
        issues.push(issue);
    }
    if let Some(issue) = validate_timing_field(
        config,
        "heartbeatIntervalMs",
        "config.heartbeatIntervalMs",
        MIN_HEARTBEAT_INTERVAL_MS,
        default_heartbeat_interval_ms(),
    ) {
        issues.push(issue);
    }
    issues
}

/// The value offered for a timing setting: its value raised to the
/// minimum when it is a non-negative integer, else the default.
pub open spec fn suggested_value_spec(value: Option<JsonData>, min: u64, default_value: u64) -> u64 {
    match value {
        Some(JsonData::PosInt(n)) => if n < min {
            min
        } else {
            n
        },
        _ => default_value,
    }
}

/// The value offered for a timing setting.
pub fn suggested_timing_value(value: Option<&JsonValue>, min: u64, default_value: u64) -> (r: u64)
    ensures
        r == suggested_value_spec(
            match value {
                Some(v) => Some(v@),
                None => None,
            },
            min,
            default_value,
        ),
{
    match value {
        Some(JsonValue::Number(JsonNumber::PosInt(n))) => if *n < min {
            min
        } else {
            *n
        },
        _ => default_value,
    }
}

/// The values offered for both timing settings of a document.
pub open spec fn suggested_values_data(payload: JsonData) -> JsonData {
    let config = field(payload, "config"@);
    JsonData::Object(
        seq![
            (
                "pollIntervalMs"@,
                JsonData::PosInt(
                    suggested_value_spec(
                        setting_value(config, "pollIntervalMs"@),
                        MIN_POLL_INTERVAL_MS,
                        2000,
                    ),
                ),
            ),
            (
                "heartbeatIntervalMs"@,
                JsonData::PosInt(
                    suggested_value_spec(
                        setting_value(config, "heartbeatIntervalMs"@),
                        MIN_HEARTBEAT_INTERVAL_MS,
                        60000,
                    ),
                ),
            ),
        ],
    )
}

fn setting_of<'a>(config: Option<&'a JsonValue>, k: &str) -> (r: Option<&'a JsonValue>)
    ensures
        opt_data(
            match r {
                Some(v) => Some(*v),
                None => None,
            },
        ) == setting_value(
            match config {
                Some(c) => Some(c@),
                None => None,
            },
            k@,
        ),
{
    match config {
        Some(c) => c.get(k),
        None => None,
    }
}

/// The values offered for both timing settings of a document.
pub fn suggested_reporter_timing_values(payload: &JsonValue) -> (r: JsonValue)
    ensures
        r@ == suggested_values_data(payload@),
{
    proof {
        reveal_strlit("config");
    }
    let config = payload.get("config");
    let poll = suggested_timing_value(
        setting_of(config, "pollIntervalMs"),
        MIN_POLL_INTERVAL_MS,
        default_poll_interval_ms(),
    );
    let beat = suggested_timing_value(
        setting_of(config, "heartbeatIntervalMs"),
        MIN_HEARTBEAT_INTERVAL_MS,
        default_heartbeat_interval_ms(),
    );
    let mut m = JsonMap::new();
    m.push_new("pollIntervalMs".to_owned(), JsonValue::Number(JsonNumber::PosInt(poll)));
    m.push_new("heartbeatIntervalMs".to_owned(), JsonValue::Number(JsonNumber::PosInt(beat)));
    let ghost es = m@;
    let r = JsonValue::Object(m);
    assert(es =~= suggested_values_data(payload@)->Object_0);
    r
}

/// An issue as the user interface reads it.
pub open spec fn issue_data(issue: ConfigValidationIssue) -> JsonData {
    JsonData::Object(
        seq![
            ("field"@, JsonData::Text(issue.field@)),
            ("path"@, JsonData::Text(issue.path@)),
            ("reason"@, JsonData::Text(issue.reason@)),
            ("received"@, issue.received@),
            ("expected"@, JsonData::Text(issue.expected@)),
            ("min"@, JsonData::PosInt(issue.min)),
            ("suggestedValue"@, JsonData::PosInt(issue.suggested_value)),
        ],
    )
}

/// An issue as a JSON object.
pub fn issue_to_json(issue: &ConfigValidationIssue) -> (r: JsonValue)
    ensures
        r@ == issue_data(*issue),
{
    let mut m = JsonMap::new();
    m.push_new("field".to_owned(), JsonValue::text(issue.field));
    m.push_new("path".to_owned(), JsonValue::text(issue.path));
    m.push_new("reason".to_owned(), JsonValue::text(issue.reason));
    m.push_new("received".to_owned(), issue.received.duplicate());
    m.push_new("expected".to_owned(), JsonValue::text(issue.expected.as_str()));
    m.push_new("min".to_owned(), JsonValue::Number(JsonNumber::PosInt(issue.min)));
    m.push_new(
        "suggestedValue".to_owned(),
        JsonValue::Number(JsonNumber::PosInt(issue.suggested_value)),
    );
    let ghost es = m@;
    let r = JsonValue::Object(m);
    assert(es =~= issue_data(*issue)->Object_0);
    r
}

/// The answer when the settings to save have timing problems: none when
/// they have none; else an error with the number of problems, the
/// problems and the values to offer.
pub fn settings_validation_failure(payload: &JsonValue) -> (r: Option<ApiResult<AppStatePayload>>)
    ensures
        ({
            let config = field(payload@, "config"@);
            let poll = setting_value(config, "pollIntervalMs"@);
            let beat = setting_value(config, "heartbeatIntervalMs"@);
            let bad = (poll is Some && timing_problem(poll->Some_0, MIN_POLL_INTERVAL_MS) is Some)
                || (beat is Some && timing_problem(beat->Some_0, MIN_HEARTBEAT_INTERVAL_MS) is Some);
            (r is Some <==> bad)
        }),
        r is Some ==> {
            let a = r->Some_0;
            &&& !a.success
            &&& a.status == 400
            &&& a.data is None
            &&& a.error is Some
            &&& a.error->Some_0.status == 400
            &&& crate::text::opt_seq(a.error->Some_0.code) == Some(
                "backendErrors.settingsConfigInvalid"@,
            )
            &&& a.error->Some_0.message@ == "设置参数错误。"@
            &&& a.error->Some_0.params is Some
            &&& exists|issues: Seq<ConfigValidationIssue>|
                #![trigger timing_issues_ok(issues, payload@)]
                {
                    &&& timing_issues_ok(issues, payload@)
                    &&& a.error->Some_0.params->Some_0@ == JsonData::Object(
                        seq![("count"@, JsonData::PosInt(issues.len() as u64))],
                    )
                    &&& a.error->Some_0.details is Some
                    &&& field(a.error->Some_0.details->Some_0@, "issues"@) == Some(
                        JsonData::Array(issues.map_values(|i: ConfigValidationIssue| issue_data(i))),
                    )
                }
            &&& a.error->Some_0.details is Some
            &&& field(a.error->Some_0.details->Some_0@, "values"@) == Some(
                suggested_values_data(payload@),
            )
        },
{
    let issues = validate_reporter_timing_payload(payload);
    if issues.len() == 0 {
        return None;
    }
    let mut list: Vec<JsonValue> = Vec::new();
    let mut i: usize = 0;
    while i < issues.len()
        invariant
            i <= issues.len(),
            list@.len() == i,
            forall|j: int| 0 <= j < i ==> #[trigger] list@[j]@ == issue_data(issues@[j]),
        decreases issues.len() - i,
    {
        list.push(issue_to_json(&issues[i]));
        i = i + 1;
    }
    let mut params = JsonMap::new();
    params.push_new("count".to_owned(), JsonValue::Number(JsonNumber::PosInt(issues.len() as u64)));
    let mut details = JsonMap::new();
    details.push_new("issues".to_owned(), JsonValue::Array(list));
    details.push_new("values".to_owned(), suggested_reporter_timing_values(payload));
    let ghost ds = details@;
    proof {
        reveal_strlit("values");
        reveal_strlit("issues");
        reveal_strlit("count");
        assert(ds.len() == 2);
        assert(ds[1].0 == "values"@);
        assert(crate::json::obj_get(ds, "values"@) == Some(ds[1].1));
        assert(ds[0].0 == "issues"@);
        assert("issues"@[0] != "values"@[0]);
        assert("issues"@ != "values"@);
        assert(ds.drop_last().len() == 1);
        assert(ds.drop_last().last() == ds[0]);
        assert(crate::json::obj_get(ds.drop_last(), "issues"@) == Some(ds[0].1));
        assert(crate::json::obj_get(ds, "issues"@) == Some(ds[0].1));
        crate::json::lemma_items_data(list@);
        assert forall|j: int| 0 <= j < list@.len() implies crate::json::items_data(list@)[j]
            == issue_data(issues@[j]) by {
            assert(list@[j]@ == issue_data(issues@[j]));
        }
        assert(crate::json::items_data(list@) =~= issues@.map_values(
            |i: ConfigValidationIssue| issue_data(i),
        ));
        assert(params@ =~= seq![("count"@, JsonData::PosInt(issues@.len() as u64))]);
        assert(timing_issues_ok(issues@, payload@));
    }
    Some(
        ApiResult::failure_localized(
            400,
            Some("backendErrors.settingsConfigInvalid".to_owned()),
            "设置参数错误。".to_owned(),
            Some(JsonValue::Object(params)),
            Some(JsonValue::Object(details)),
        ),
    )
}

/// The answer when the settings to save are not a valid state document:
/// the parser's message `error`.
pub fn settings_payload_failure(error: &str) -> (r: ApiResult<AppStatePayload>)
    ensures
        !r.success,
        r.status == 400,
        r.data is None,
        r.error is Some,
        crate::text::opt_seq(r.error->Some_0.code) == Some("backendErrors.settingsPayloadInvalid"@),
        r.error->Some_0.message@ == "设置数据格式错误："@ + error@,
        r.error->Some_0.params is None,
        opt_data(r.error->Some_0.details) == Some(
            JsonData::Object(seq![("error"@, JsonData::Text(error@))]),
        ),
{
    let mut message = "设置数据格式错误：".to_owned();
    message.append(error);
    let mut details = JsonMap::new();
    details.push_new("error".to_owned(), JsonValue::text(error));
    let ghost ds = details@;
    proof {
        reveal_strlit("设置数据格式错误：");
        reveal_strlit("error");
        assert(ds =~= seq![("error"@, JsonData::Text(error@))]);
    }
    ApiResult::failure_localized(
        400,
        Some("backendErrors.settingsPayloadInvalid".to_owned()),
        message,
        None,
        Some(JsonValue::Object(details)),
    )
}

/// The answer to an import request: `parsed` gives, for each text of
/// `import_candidates(input)` in order, the object it holds as JSON.
/// Blank input and input over `MAX_IMPORT_INPUT_BYTES` bytes (once
/// trimmed) are refused before parsing.
pub fn parse_imported_integration_config(input: String, parsed: Vec<Option<JsonMap>>) -> (r:
    ApiResult<ImportedIntegrationConfig>)
    ensures
        r.success == (!is_blank(input@) && utf8_len(trim(input@)) <= MAX_IMPORT_INPUT_BYTES
            && first_object(parsed@) is Some),
        r.success ==> r.status == 200 && r.data is Some && r.error is None,
        !r.success ==> r.status == 400 && r.data is None && r.error is Some,
        is_blank(input@) ==> crate::text::opt_seq(r.error->Some_0.code) == Some(
            "backendErrors.importConfigEmpty"@,
        ) && r.error->Some_0.message@ == "请先粘贴 Base64 或 JSON 配置。"@,
        !is_blank(input@) && utf8_len(trim(input@)) > MAX_IMPORT_INPUT_BYTES ==> crate::text::opt_seq(
            r.error->Some_0.code,
        ) == Some("backendErrors.importConfigTooLarge"@) && r.error->Some_0.message@ == "输入内容过大（"@
            + decimal(utf8_len(trim(input@))) + " 字节），最大允许 524288 字节。"@ && opt_data(
            r.error->Some_0.params,
        ) == Some(
            JsonData::Object(
                seq![
                    ("size"@, JsonData::PosInt(utf8_len(trim(input@)) as u64)),
                    ("maxSize"@, JsonData::PosInt(MAX_IMPORT_INPUT_BYTES)),
                ],
            ),
        ),
        !is_blank(input@) && utf8_len(trim(input@)) <= MAX_IMPORT_INPUT_BYTES && !r.success
            ==> crate::text::opt_seq(r.error->Some_0.code) == Some(
            "backendErrors.importConfigInvalid"@,
        ) && r.error->Some_0.message@ == "无法将输入解析为 Base64 配置或 JSON。"@,
        r.success ==> r.data->Some_0.raw@ == first_object(parsed@)->Some_0 && (
            crate::text::opt_seq(r.data->Some_0.report_endpoint),
            crate::text::opt_seq(r.data->Some_0.token),
            crate::text::opt_seq(r.data->Some_0.token_name),
        ) == imported_from_raw(first_object(parsed@)->Some_0),
{
    if is_blank_str(input.as_str()) {
        return ApiResult::failure_localized(
            400,
            Some("backendErrors.importConfigEmpty".to_owned()),
            "请先粘贴 Base64 或 JSON 配置。".to_owned(),
            None,
            None,
        );
    }
    let trimmed = trim_str(input.as_str());
    let size = utf8_len_of(trimmed.as_str());
    if size > MAX_IMPORT_INPUT_BYTES as u128 {
        let mut message = "输入内容过大（".to_owned();
        let size_text = u128_to_decimal(size);
        message.append(size_text.as_str());
        message.append(" 字节），最大允许 524288 字节。");
        let mut params = JsonMap::new();
        params.push_new("size".to_owned(), JsonValue::Number(JsonNumber::PosInt(size as u64)));
        params.push_new("maxSize".to_owned(), JsonValue::Number(JsonNumber::PosInt(MAX_IMPORT_INPUT_BYTES)));
        let ghost ps = params@;
        proof {
            reveal_strlit("输入内容过大（");
            reveal_strlit(" 字节），最大允许 524288 字节。");
            assert(ps =~= seq![
                ("size"@, JsonData::PosInt(size as u64)),
                ("maxSize"@, JsonData::PosInt(MAX_IMPORT_INPUT_BYTES)),
            ]);
        }
        return ApiResult::failure_localized(
            400,
            Some("backendErrors.importConfigTooLarge".to_owned()),
            message,
            Some(JsonValue::Object(params)),
            None,
        );
    }
    match parse_import_payload(input.as_str(), parsed) {
        Ok(config) => ApiResult::success(200, config),
        Err(error) => ApiResult::failure_localized(
            400,
            Some("backendErrors.importConfigInvalid".to_owned()),
            error,
            None,
            None,
        ),
    }
}

/// The answer to the capability request on a desktop (`true`) or mobile
/// build.
pub fn get_client_capabilities(desktop: bool) -> (r: ApiResult<ClientCapabilities>)
    ensures
        r.success,
        r.status == 200,
        r.error is None,
        r.data is Some,
        r.data->Some_0 == (ClientCapabilities {
            realtime_reporter: desktop,
            tray: desktop,
            platform_self_test: desktop,
            discord_presence: desktop,
            autostart: desktop,
        }),
{
    ApiResult::success(200, default_client_capabilities(desktop))
}

} // verus!
