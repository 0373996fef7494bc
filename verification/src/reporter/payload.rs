//! What the background reporter sends, and how it reads the server's answer.
use vstd::prelude::*;

use crate::json::{
    bool_of, error_message, error_message_of, field, obj_get, opt_data, opt_field, opt_text_of,
    response_document, response_value, text_field, JsonData, JsonMap, JsonValue,
};
use crate::locale::{format_error, pick, prefixed_error, status_message, BackendLocale};
use crate::models::{effective_device_name, ActivityPayload, ClientConfig};
use crate::platform::{media_empty, media_signature, ForegroundSnapshot, MediaInfo};
use crate::discord::feed::{trim_end_char, trim_trailing_slashes};
use crate::text::{is_blank, is_blank_str, opt_seq, trim, trim_str};

use super::messages::{
    pending_approval_default, reporter_config_api_token_missing,
    reporter_config_base_url_missing, reporter_config_generated_hash_key_missing,
    server_failure_default, server_status_error,
};

verus! {

/// The first setting the reporter cannot start without, if one is missing.
#[derive(Debug)]
pub enum MissingReporterSetting {
    BaseUrl,
    ApiToken,
    GeneratedHashKey,
}

/// Which required reporter setting is blank first: site URL, API token,
/// then device key.
pub open spec fn reporter_config_problem(config: ClientConfig) -> Option<MissingReporterSetting> {
    if is_blank(config.base_url@) {
        Some(MissingReporterSetting::BaseUrl)
    } else if is_blank(config.api_token@) {
        Some(MissingReporterSetting::ApiToken)
    } else if is_blank(config.generated_hash_key@) {
        Some(MissingReporterSetting::GeneratedHashKey)
    } else {
        None
    }
}

/// The message for a missing reporter setting.
pub open spec fn reporter_problem_message(
    locale: BackendLocale,
    problem: MissingReporterSetting,
) -> Seq<char> {
    match problem {
        MissingReporterSetting::BaseUrl => pick(
            locale,
            "缺少站点地址，无法启动后台同步。"@,
            "Site URL is required before background sync can start."@,
        ),
        MissingReporterSetting::ApiToken => pick(
            locale,
            "缺少 API Token，无法启动后台同步。"@,
            "API Token is required before background sync can start."@,
        ),
        MissingReporterSetting::GeneratedHashKey => pick(
            locale,
            "缺少 GeneratedHashKey，无法启动后台同步。"@,
            "Device key is required before background sync can start."@,
        ),
    }
}

/// Checks that the settings the reporter needs are present.
pub fn validate_reporter_config(config: &ClientConfig, locale: BackendLocale) -> (r: Result<
    (),
    String,
>)
    ensures
        r is Ok <==> reporter_config_problem(*config) is None,
        r is Err ==> r->Err_0@ == reporter_problem_message(
            locale,
            reporter_config_problem(*config).unwrap(),
        ),
{
    if is_blank_str(config.base_url.as_str()) {
        return Err(reporter_config_base_url_missing(locale));
    }
    if is_blank_str(config.api_token.as_str()) {
        return Err(reporter_config_api_token_missing(locale));
    }
    if is_blank_str(config.generated_hash_key.as_str()) {
        return Err(reporter_config_generated_hash_key_missing(locale));
    }
    Ok(())
}

/// Whether the reporter could start with these settings.
pub fn config_is_ready(config: &ClientConfig) -> (b: bool)
    ensures
        b == (reporter_config_problem(*config) is None),
{
    validate_reporter_config(config, BackendLocale::ZhCn).is_ok()
}

/// What the reporter metadata setting means: nothing when blank, the
/// object it holds, or an error.
pub open spec fn metadata_outcome_ok(input: Seq<char>, parsed: Result<JsonValue, String>) -> bool {
    is_blank(input) || (parsed is Ok && parsed->Ok_0 is Object)
}

/// The extra metadata sent with every report, from the setting's text
/// `input` and `parsed`, the outcome of parsing `input` trimmed as JSON
/// (the parser's message on failure).  Blank text means no metadata; the
/// text must otherwise hold a JSON object.
pub fn parse_reporter_metadata(
    input: &str,
    parsed: Result<JsonValue, String>,
    locale: BackendLocale,
) -> (r: Result<JsonMap, String>)
    ensures
        r is Ok <==> metadata_outcome_ok(input@, parsed),
        is_blank(input@) ==> r is Ok && r->Ok_0@.len() == 0,
        !is_blank(input@) && parsed is Ok && parsed->Ok_0 is Object ==> r is Ok && r->Ok_0@
            == parsed->Ok_0@->Object_0,
        !is_blank(input@) && parsed is Ok && !(parsed->Ok_0 is Object) ==> r is Err
            && r->Err_0@ == pick(
            locale,
            "实时上报元数据必须是 JSON 对象。"@,
            "Reporter metadata must be a JSON object."@,
        ),
        !is_blank(input@) && parsed is Err ==> r is Err && r->Err_0@ == prefixed_error(
            locale,
            "解析实时上报元数据失败"@,
            "Failed to parse reporter metadata"@,
            parsed->Err_0@,
        ),
{
    if is_blank_str(input) {
        return Ok(JsonMap::new());
    }
    match parsed {
        Ok(JsonValue::Object(map)) => Ok(map),
        Ok(_) => Err(
            if locale.is_en() {
                "Reporter metadata must be a JSON object.".to_owned()
            } else {
                "实时上报元数据必须是 JSON 对象。".to_owned()
            },
        ),
        Err(error) => Err(
            format_error(
                locale,
                "解析实时上报元数据失败",
                "Failed to parse reporter metadata",
                error.as_str(),
            ),
        ),
    }
}

/// Whether the metadata gets a `dc_source` entry: Discord sync is on and
/// has a source.
pub open spec fn adds_dc_source(config: ClientConfig) -> bool {
    config.discord_enabled && !is_blank(config.discord_source_id@)
}

/// Whether the metadata gets a `media` entry: media is reported and known.
pub open spec fn adds_media(config: ClientConfig, media: MediaInfo) -> bool {
    config.report_media && !media_empty(media)
}

/// The metadata under `k` once `dc_source` and `media` are set.
pub open spec fn metadata_with_dc_and_media(
    config: ClientConfig,
    media: MediaInfo,
    md: Seq<(Seq<char>, JsonData)>,
    k: Seq<char>,
) -> Option<JsonData> {
    if adds_media(config, media) && k == "media"@ {
        Some(JsonData::Object(crate::platform::media_metadata_entries(media)))
    } else if adds_dc_source(config) && k == "dc_source"@ {
        Some(JsonData::Text(trim(config.discord_source_id@)))
    } else {
        obj_get(md, k)
    }
}

/// Whether the metadata gets a `play_source` entry: the source is reported
/// and known, and the configured metadata does not set one already.
pub open spec fn adds_play_source(
    config: ClientConfig,
    media: MediaInfo,
    md: Seq<(Seq<char>, JsonData)>,
) -> bool {
    config.report_play_source && !is_blank(media.source_app_id@) && metadata_with_dc_and_media(
        config,
        media,
        md,
        "play_source"@,
    ) is None
}

/// The value under `k` of a report's metadata built from the configured
/// metadata `md`.
pub open spec fn report_metadata_get(
    config: ClientConfig,
    media: MediaInfo,
    md: Seq<(Seq<char>, JsonData)>,
    k: Seq<char>,
) -> Option<JsonData> {
    if adds_play_source(config, media, md) && k == "play_source"@ {
        Some(JsonData::Text(trim(media.source_app_id@)))
    } else {
        metadata_with_dc_and_media(config, media, md, k)
    }
}

/// Whether a report carries metadata at all.
pub open spec fn report_has_metadata(
    config: ClientConfig,
    media: MediaInfo,
    md: Seq<(Seq<char>, JsonData)>,
) -> bool {
    md.len() > 0 || adds_dc_source(config) || adds_media(config, media) || adds_play_source(
        config,
        media,
        md,
    )
}

/// The report that the reporter sends for a foreground reading and a media
/// reading, with the configured metadata.
pub fn build_payload(
    config: &ClientConfig,
    snapshot: &ForegroundSnapshot,
    media: &MediaInfo,
    metadata: JsonMap,
) -> (r: ActivityPayload)
    ensures
        r.generated_hash_key@ == trim(config.generated_hash_key@),
        r.process_name@ == (if config.report_foreground_app || snapshot.process_name@.len() > 0 {
            snapshot.process_name@
        } else {
            Seq::empty()
        }),
        r.device is Some,
        !is_blank(config.device@) ==> r.device.unwrap()@ == trim(config.device@),
        is_blank(config.device@) ==> exists|host: Option<Seq<char>>|
            r.device.unwrap()@ == #[trigger] crate::models::device_name_for_host(host),
        opt_seq(r.process_title) == (if (config.report_window_title
            || snapshot.process_title@.len() > 0) && snapshot.process_title@.len() > 0 {
            Some(snapshot.process_title@)
        } else {
            None
        }),
        r.persist_minutes is None,
        r.battery_level is None,
        r.is_charging is None,
        opt_seq(r.device_type) == (if trim(config.device_type@).len() > 0 {
            Some(trim(config.device_type@))
        } else {
            None
        }),
        opt_seq(r.push_mode) == (if trim(config.push_mode@).len() > 0 {
            Some(trim(config.push_mode@))
        } else {
            None
        }),
        r.metadata is Some == report_has_metadata(*config, *media, metadata@),
        r.metadata is Some ==> r.metadata.unwrap() is Object && forall|k: Seq<char>|
            #[trigger] obj_get(r.metadata.unwrap()@->Object_0, k) == report_metadata_get(
                *config,
                *media,
                metadata@,
                k,
            ),
{
    let ghost md = metadata@;
    let mut metadata = metadata;
    proof {
        reveal_strlit("dc_source");
        reveal_strlit("media");
        reveal_strlit("play_source");
        assert("dc_source"@.len() == 9);
        assert("media"@.len() == 5);
        assert("play_source"@.len() == 11);
        assert("dc_source"@ != "media"@);
        assert("play_source"@ != "media"@);
        assert("play_source"@ != "dc_source"@);
    }
    if config.discord_enabled && !is_blank_str(config.discord_source_id.as_str()) {
        metadata.insert(
            "dc_source".to_owned(),
            JsonValue::Text(trim_str(config.discord_source_id.as_str())),
        );
    }
    let ghost after_dc = metadata@;
    assert forall|k: Seq<char>| #[trigger] obj_get(after_dc, k) == (if adds_dc_source(*config)
        && k == "dc_source"@ {
        Some(JsonData::Text(trim(config.discord_source_id@)))
    } else {
        obj_get(md, k)
    }) by {}
    if config.report_media {
        if let Some(media_map) = media.as_metadata_map() {
            metadata.insert("media".to_owned(), JsonValue::Object(media_map));
        }
    }
    let ghost after_media = metadata@;
    assert forall|k: Seq<char>| #[trigger] obj_get(after_media, k) == metadata_with_dc_and_media(
        *config,
        *media,
        md,
        k,
    ) by {
        assert(obj_get(after_dc, k) == (if adds_dc_source(*config) && k == "dc_source"@ {
            Some(JsonData::Text(trim(config.discord_source_id@)))
        } else {
            obj_get(md, k)
        }));
    }
    if config.report_play_source && !is_blank_str(media.source_app_id.as_str())
        && !metadata.contains_key("play_source") {
        metadata.insert(
            "play_source".to_owned(),
            JsonValue::Text(trim_str(media.source_app_id.as_str())),
        );
    }
    let ghost after_all = metadata@;
    assert forall|k: Seq<char>| #[trigger] obj_get(after_all, k) == report_metadata_get(
        *config,
        *media,
        md,
        k,
    ) by {
        assert(obj_get(after_media, k) == metadata_with_dc_and_media(*config, *media, md, k));
        assert(obj_get(after_media, "play_source"@) == metadata_with_dc_and_media(
            *config,
            *media,
            md,
            "play_source"@,
        ));
    }
    proof {
        if !report_has_metadata(*config, *media, md) {
            assert(after_all == md);
        }
    }
    let process_name = if config.report_foreground_app || !snapshot.process_name.as_str().is_empty() {
        snapshot.process_name.clone()
    } else {
        String::new()
    };
    let process_title = if (config.report_window_title || !snapshot.process_title.as_str().is_empty())
        && !snapshot.process_title.as_str().is_empty() {
        Some(snapshot.process_title.clone())
    } else {
        None
    };
    let device_type = trim_str(config.device_type.as_str());
    let device_type = if device_type.as_str().is_empty() {
        None
    } else {
        Some(device_type)
    };
    let push_mode = trim_str(config.push_mode.as_str());
    let push_mode = if push_mode.as_str().is_empty() {
        None
    } else {
        Some(push_mode)
    };
    let is_empty = metadata.is_empty();
    ActivityPayload {
        generated_hash_key: trim_str(config.generated_hash_key.as_str()),
        process_name,
        device: Some(effective_device_name(config.device.as_str())),
        process_title,
        persist_minutes: None,
        battery_level: None,
        is_charging: None,
        device_type,
        push_mode,
        metadata: if is_empty {
            None
        } else {
            Some(JsonValue::Object(metadata))
        },
    }
}

/// The address and `Authorization` header of a report: the site address
/// without its trailing slashes, then `/api/activity`; `Bearer` and the
/// trimmed token, sent even when the token is blank.
pub fn activity_request(base_url: &str, api_token: &str) -> (r: (String, String))
    ensures
        r.0@ == trim_end_char(base_url@, '/') + "/api/activity"@,
        r.1@ == "Bearer "@ + trim(api_token@),
{
    let mut url = trim_trailing_slashes(base_url);
    url.append("/api/activity");
    let mut header = "Bearer ".to_owned();
    let token = trim_str(api_token);
    header.append(token.as_str());
    (url, header)
}

/// How the server took a report.
#[derive(Debug)]
pub enum PostActivityResult {
    /// Accepted; the server may say where it stored the cover art.
    Success { media_cover_url: Option<String>, response_text: String },
    /// The device waits for approval on the site.
    PendingApproval { message: String, approval_url: Option<String>, response_text: String },
}

/// The cover URL the server stored for the report's media, if it says.
pub open spec fn stored_cover_url(d: JsonData) -> Option<Seq<char>> {
    opt_text_of(opt_field(opt_field(opt_field(field(d, "data"@), "metadata"@), "media"@), "coverUrl"@))
}

/// The server's answer to a report: an HTTP error status fails with the
/// status and the trimmed body; `202` with `pending: true` means the device
/// waits for approval; `success: false` fails with the server's message;
/// anything else is accepted.
pub open spec fn post_outcome_kind(status: u16, d: JsonData) -> int {
    if status >= 400 {
        0
    } else if status == 202 && field(d, "pending"@) is Some && bool_of(field(d, "pending"@).unwrap()) == Some(true) {
        1
    } else if field(d, "success"@) is Some && bool_of(field(d, "success"@).unwrap()) == Some(false) {
        2
    } else {
        3
    }
}

/// Interprets the server's answer to a report: its HTTP `status`, its body
/// `text` and `parsed`, the body parsed as JSON when it is JSON.
pub fn interpret_post_response(
    status: u16,
    text: String,
    parsed: Option<JsonValue>,
    locale: BackendLocale,
) -> (r: Result<PostActivityResult, String>)
    ensures
        ({
            let d = response_document(text@, opt_data(parsed));
            let kind = post_outcome_kind(status, d);
            &&& kind == 0 ==> r is Err && r->Err_0@ == status_message(
                locale,
                "服务端返回状态码"@,
                "Server returned HTTP"@,
                status,
                trim(text@),
            )
            &&& kind == 1 ==> r is Ok && match r->Ok_0 {
                PostActivityResult::PendingApproval { message, approval_url, response_text } => {
                    &&& message@ == match error_message_of(d) {
                        Some(m) => m,
                        None => pick(
                            locale,
                            "设备待后台审核后可用"@,
                            "Device is pending approval"@,
                        ),
                    }
                    &&& opt_seq(approval_url) == text_field(d, "approvalUrl"@)
                    &&& response_text@ == text@
                },
                _ => false,
            }
            &&& kind == 2 ==> r is Err && r->Err_0@ == match error_message_of(d) {
                Some(m) => m,
                None => pick(locale, "服务端返回失败"@, "Server returned failure"@),
            }
            &&& kind == 3 ==> r is Ok && match r->Ok_0 {
                PostActivityResult::Success { media_cover_url, response_text } => {
                    &&& opt_seq(media_cover_url) == stored_cover_url(d)
                    &&& response_text@ == text@
                },
                _ => false,
            }
        }),
{
    if status >= 400 {
        let body = trim_str(text.as_str());
        return Err(server_status_error(locale, status, body.as_str()));
    }
    let doc = response_value(text.as_str(), parsed);
    proof {
        reveal_strlit("pending");
        reveal_strlit("success");
        reveal_strlit("approvalUrl");
        reveal_strlit("data");
        reveal_strlit("metadata");
        reveal_strlit("media");
        reveal_strlit("coverUrl");
    }
    let success = match doc.get("success") {
        Some(v) => match v.as_bool() {
            Some(b) => b,
            None => true,
        },
        None => true,
    };
    let pending = match doc.get("pending") {
        Some(v) => match v.as_bool() {
            Some(b) => b,
            None => false,
        },
        None => false,
    };
    if status == 202 && pending {
        let message = match error_message(&doc) {
            Some(m) => m,
            None => pending_approval_default(locale),
        };
        let approval_url = match doc.get("approvalUrl") {
            Some(v) => match v.as_str() {
                Some(s) => Some(s.to_owned()),
                None => None,
            },
            None => None,
        };
        return Ok(PostActivityResult::PendingApproval { message, approval_url, response_text: text });
    }
    if !success {
        return Err(
            match error_message(&doc) {
                Some(m) => m,
                None => server_failure_default(locale),
            },
        );
    }
    let mut cover: Option<String> = None;
    if let Some(data) = doc.get("data") {
        if let Some(metadata) = data.get("metadata") {
            if let Some(media) = metadata.get("media") {
                if let Some(url) = media.get("coverUrl") {
                    if let Some(s) = url.as_str() {
                        cover = Some(s.to_owned());
                    }
                }
            }
        }
    }
    Ok(PostActivityResult::Success { media_cover_url: cover, response_text: text })
}

} // verus!
