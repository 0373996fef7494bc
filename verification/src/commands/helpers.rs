//! The request bodies the client sends, and the checks made before sending.
use vstd::prelude::*;

use crate::json::{obj_get, opt_data, same_except, JsonData, JsonMap, JsonNumber, JsonValue};
use crate::models::{effective_device_name, device_name_for_host, ActivityPayload, ClientConfig, InspirationEntryCreateInput};
use crate::text::{
    contains, contains_str, has_prefix, is_blank, is_blank_str, nonblank_trimmed, opt_seq,
    starts_with, trim, trim_str, utf8_len, utf8_len_of,
};

verus! {

/// The largest image data URL accepted, in bytes.
pub const MAX_IMAGE_DATA_URL_BYTES: usize = 7340032;

/// Why a request was refused before it was sent.
#[derive(Debug)]
pub struct ValidationError {
    pub code: &'static str,
    pub message: String,
    pub params: Option<JsonValue>,
}

/// `Some(trim(s))` when `s` is present and not blank.
pub fn normalize_optional_trimmed(value: Option<String>) -> (r: Option<String>)
    ensures
        opt_seq(r) == nonblank_trimmed(value),
{
    match value {
        Some(v) => if is_blank_str(v.as_str()) {
            None
        } else {
            Some(trim_str(v.as_str()))
        },
        None => None,
    }
}

/// The entries of a report's metadata before `dc_source` is set: those
/// of `metadata` when it is an object, else none.
pub open spec fn base_metadata_entries(metadata: Option<JsonData>) -> Seq<(Seq<char>, JsonData)> {
    match metadata {
        Some(JsonData::Object(es)) => es,
        _ => Seq::empty(),
    }
}

/// `m` is `metadata` with `dc_source` set to the trimmed source when the
/// source is not blank.
pub open spec fn dc_metadata_ok(m: JsonData, metadata: Option<JsonData>, dc_source: Seq<char>) -> bool {
    &&& m is Object
    &&& if is_blank(dc_source) {
        m->Object_0 == base_metadata_entries(metadata)
    } else {
        &&& obj_get(m->Object_0, "dc_source"@) == Some(JsonData::Text(trim(dc_source)))
        &&& same_except(m->Object_0, base_metadata_entries(metadata), "dc_source"@)
    }
}

/// A report's metadata with this device's Discord source added.
pub fn with_dc_source_metadata(metadata: Option<JsonValue>, dc_source: &str) -> (r: JsonValue)
    ensures
        dc_metadata_ok(r@, opt_data(metadata), dc_source@),
{
    let mut map = match metadata {
        Some(JsonValue::Object(map)) => map,
        _ => JsonMap::new(),
    };
    if !is_blank_str(dc_source) {
        map.insert("dc_source".to_owned(), JsonValue::Text(trim_str(dc_source)));
    }
    JsonValue::Object(map)
}

/// The device a report names: the payload's device when it has one, else
/// the configured device, else the machine's name `host_name`.
pub open spec fn report_device(payload: ActivityPayload, config: ClientConfig, host_name: Seq<char>) -> Seq<char> {
    match nonblank_trimmed(payload.device) {
        Some(d) => d,
        None => if is_blank(config.device@) {
            host_name
        } else {
            trim(config.device@)
        },
    }
}

/// The device key a report carries: the payload's, else the configured one.
pub open spec fn report_hash_key(payload: ActivityPayload, config: ClientConfig) -> Seq<char> {
    if is_blank(payload.generated_hash_key@) {
        trim(config.generated_hash_key@)
    } else {
        trim(payload.generated_hash_key@)
    }
}

/// The body of an activity report, for the device `device` and the
/// metadata `metadata`.
pub open spec fn activity_report_body(
    config: ClientConfig,
    payload: ActivityPayload,
    device: Seq<char>,
    metadata: JsonData,
) -> JsonData {
    JsonData::Object(
        seq![
            ("generatedHashKey"@, JsonData::Text(report_hash_key(payload, config))),
            ("process_name"@, JsonData::Text(trim(payload.process_name@))),
            ("device"@, JsonData::Text(device)),
            ("process_title"@, crate::json::opt_text_data(nonblank_trimmed(payload.process_title))),
            ("persist_minutes"@, crate::json::opt_int_data(payload.persist_minutes)),
            ("battery_level"@, crate::json::opt_int_data(payload.battery_level)),
            ("is_charging"@, crate::json::opt_bool_data(payload.is_charging)),
            ("device_type"@, crate::json::opt_text_data(nonblank_trimmed(payload.device_type))),
            ("push_mode"@, crate::json::opt_text_data(nonblank_trimmed(payload.push_mode))),
            ("metadata"@, metadata),
        ],
    )
}

fn text_value(s: String) -> (r: JsonValue)
    ensures
        r@ == JsonData::Text(s@),
{
    JsonValue::Text(s)
}

/// The body of an activity report; the device is the machine's name only
/// when neither the payload nor the settings name one.
pub fn build_activity_report_body(config: &ClientConfig, payload: ActivityPayload) -> (r: JsonValue)
    ensures
        exists|host: Option<Seq<char>>, metadata: JsonData|
            r@ == activity_report_body(
                *config,
                payload,
                report_device(payload, *config, device_name_for_host(host)),
                metadata,
            ) && dc_metadata_ok(metadata, opt_data(payload.metadata), config.discord_source_id@),
{
    let ghost p = payload;
    let generated_hash_key = if is_blank_str(payload.generated_hash_key.as_str()) {
        trim_str(config.generated_hash_key.as_str())
    } else {
        trim_str(payload.generated_hash_key.as_str())
    };
    let resolved_device = match normalize_optional_trimmed(payload.device) {
        Some(d) => d,
        None => effective_device_name(config.device.as_str()),
    };
    let ghost host: Option<Seq<char>> = choose|host: Option<Seq<char>>|
        resolved_device@ == report_device(p, *config, device_name_for_host(host));
    proof {
        if nonblank_trimmed(p.device) is None && is_blank(config.device@) {
            let h = choose|h: Option<Seq<char>>| resolved_device@ == device_name_for_host(h);
            assert(resolved_device@ == report_device(p, *config, device_name_for_host(h)));
        } else {
            assert(resolved_device@ == report_device(p, *config, device_name_for_host(None)));
        }
    }
    let process_title = normalize_optional_trimmed(payload.process_title);
    let device_type = normalize_optional_trimmed(payload.device_type);
    let push_mode = normalize_optional_trimmed(payload.push_mode);
    let metadata = with_dc_source_metadata(payload.metadata, config.discord_source_id.as_str());
    let ghost md = metadata@;
    let mut m = JsonMap::new();
    m.push_new("generatedHashKey".to_owned(), text_value(generated_hash_key));
    m.push_new("process_name".to_owned(), text_value(trim_str(payload.process_name.as_str())));
    m.push_new("device".to_owned(), text_value(resolved_device));
    m.push_new("process_title".to_owned(), JsonValue::opt_text(process_title));
    m.push_new("persist_minutes".to_owned(), JsonValue::opt_int(payload.persist_minutes));
    m.push_new("battery_level".to_owned(), JsonValue::opt_int(payload.battery_level));
    m.push_new("is_charging".to_owned(), JsonValue::opt_bool(payload.is_charging));
    m.push_new("device_type".to_owned(), JsonValue::opt_text(device_type));
    m.push_new("push_mode".to_owned(), JsonValue::opt_text(push_mode));
    m.push_new("metadata".to_owned(), metadata);
    let ghost es = m@;
    let r = JsonValue::Object(m);
    proof {
        reveal_strlit("generatedHashKey");
        reveal_strlit("process_name");
        reveal_strlit("device");
        reveal_strlit("process_title");
        reveal_strlit("persist_minutes");
        reveal_strlit("battery_level");
        reveal_strlit("is_charging");
        reveal_strlit("device_type");
        reveal_strlit("push_mode");
        reveal_strlit("metadata");
        let body = activity_report_body(*config, p, report_device(p, *config, device_name_for_host(host)), md);
        assert(es =~= body->Object_0);
        assert(r@ == body);
    }
    r
}

/// The body of a connectivity probe, for the device `device`.
pub open spec fn connectivity_probe_body(config: ClientConfig, device: Seq<char>) -> JsonData {
    JsonData::Object(
        seq![
            ("generatedHashKey"@, JsonData::Text(trim(config.generated_hash_key@))),
            ("device"@, JsonData::Text(device)),
            ("deviceType"@, JsonData::Text(trim(config.device_type@))),
        ],
    )
}

/// The body of a connectivity probe; the device is the configured one,
/// or the machine's name when none is configured.
pub fn build_connectivity_probe_body(config: &ClientConfig) -> (r: JsonValue)
    ensures
        !is_blank(config.device@) ==> r@ == connectivity_probe_body(*config, trim(config.device@)),
        is_blank(config.device@) ==> exists|host: Option<Seq<char>>|
            r@ == connectivity_probe_body(*config, device_name_for_host(host)),
{
    let device = effective_device_name(config.device.as_str());
    let ghost dv = device@;
    let mut m = JsonMap::new();
    m.push_new("generatedHashKey".to_owned(), text_value(trim_str(config.generated_hash_key.as_str())));
    m.push_new("device".to_owned(), text_value(device));
    m.push_new("deviceType".to_owned(), text_value(trim_str(config.device_type.as_str())));
    let ghost es = m@;
    let r = JsonValue::Object(m);
    assert(es =~= connectivity_probe_body(*config, dv)->Object_0);
    r
}

/// The body of a new inspiration entry.
pub open spec fn inspiration_entry_body(input: InspirationEntryCreateInput) -> JsonData {
    JsonData::Object(
        seq![
            ("title"@, JsonData::Text(trim(input.title@))),
            ("content"@, JsonData::Text(trim(input.content@))),
            ("contentLexical"@, crate::json::opt_text_data(opt_seq(input.content_lexical))),
            ("imageDataUrl"@, crate::json::opt_text_data(opt_seq(input.image_data_url))),
            ("generatedHashKey"@, crate::json::opt_text_data(opt_seq(input.generated_hash_key))),
            ("attachCurrentStatus"@, crate::json::opt_bool_data(input.attach_current_status)),
            (
                "preComputedStatusSnapshot"@,
                crate::json::opt_text_data(opt_seq(input.pre_computed_status_snapshot)),
            ),
            (
                "attachStatusDeviceHash"@,
                crate::json::opt_text_data(opt_seq(input.attach_status_device_hash)),
            ),
            (
                "attachStatusActivityKey"@,
                crate::json::opt_text_data(opt_seq(input.attach_status_activity_key)),
            ),
            (
                "attachStatusIncludeDeviceInfo"@,
                crate::json::opt_bool_data(input.attach_status_include_device_info),
            ),
        ],
    )
}

/// The body of a new inspiration entry: title and content trimmed, the
/// rest as given.
pub fn build_inspiration_entry_body(input: InspirationEntryCreateInput) -> (r: JsonValue)
    ensures
        r@ == inspiration_entry_body(input),
{
    let ghost i = input;
    let mut m = JsonMap::new();
    m.push_new("title".to_owned(), text_value(trim_str(input.title.as_str())));
    m.push_new("content".to_owned(), text_value(trim_str(input.content.as_str())));
    m.push_new("contentLexical".to_owned(), JsonValue::opt_text(input.content_lexical));
    m.push_new("imageDataUrl".to_owned(), JsonValue::opt_text(input.image_data_url));
    m.push_new("generatedHashKey".to_owned(), JsonValue::opt_text(input.generated_hash_key));
    m.push_new("attachCurrentStatus".to_owned(), JsonValue::opt_bool(input.attach_current_status));
    m.push_new(
        "preComputedStatusSnapshot".to_owned(),
        JsonValue::opt_text(input.pre_computed_status_snapshot),
    );
    m.push_new(
        "attachStatusDeviceHash".to_owned(),
        JsonValue::opt_text(input.attach_status_device_hash),
    );
    m.push_new(
        "attachStatusActivityKey".to_owned(),
        JsonValue::opt_text(input.attach_status_activity_key),
    );
    m.push_new(
        "attachStatusIncludeDeviceInfo".to_owned(),
        JsonValue::opt_bool(input.attach_status_include_device_info),
    );
    let ghost es = m@;
    let r = JsonValue::Object(m);
    assert(es =~= inspiration_entry_body(i)->Object_0);
    r
}

/// The body of an image upload.
pub open spec fn inspiration_asset_body(config: ClientConfig, image_data_url: Seq<char>) -> JsonData {
    JsonData::Object(
        seq![
            ("imageDataUrl"@, JsonData::Text(image_data_url)),
            ("generatedHashKey"@, JsonData::Text(trim(config.generated_hash_key@))),
        ],
    )
}

/// The body of an image upload.
pub fn build_inspiration_asset_body(config: &ClientConfig, image_data_url: String) -> (r: JsonValue)
    ensures
        r@ == inspiration_asset_body(*config, image_data_url@),
{
    let ghost u = image_data_url@;
    let mut m = JsonMap::new();
    m.push_new("imageDataUrl".to_owned(), text_value(image_data_url));
    m.push_new("generatedHashKey".to_owned(), text_value(trim_str(config.generated_hash_key.as_str())));
    let ghost es = m@;
    let r = JsonValue::Object(m);
    assert(es =~= inspiration_asset_body(*config, u)->Object_0);
    r
}

/// Why an image data URL is refused, if it is: too many bytes once
/// trimmed, or not a `data:image/` URL.  A missing or blank URL is fine.
#[derive(Debug)]
pub enum ImageProblem {
    TooLarge,
    InvalidType,
}

/// The problem with an optional image data URL.
pub open spec fn image_data_url_problem(value: Option<Seq<char>>) -> Option<ImageProblem> {
    match value {
        Some(v) => if is_blank(v) {
            None
        } else if utf8_len(trim(v)) > MAX_IMAGE_DATA_URL_BYTES {
            Some(ImageProblem::TooLarge)
        } else if !has_prefix(trim(v), "data:image/"@) {
            Some(ImageProblem::InvalidType)
        } else {
            None
        },
        None => None,
    }
}

/// Checks an image data URL before it is sent.
pub fn validate_image_data_url(value: Option<&str>) -> (r: Result<(), ValidationError>)
    ensures
        r is Ok <==> image_data_url_problem(
            match value {
                Some(v) => Some(v@),
                None => None,
            },
        ) is None,
        image_data_url_problem(
            match value {
                Some(v) => Some(v@),
                None => None,
            },
        ) == Some(ImageProblem::TooLarge) ==> r is Err && r->Err_0.code@
            == "backendErrors.imageTooLarge"@ && r->Err_0.message@ == "图片数据过大，请选择更小的图片。"@
            && opt_data(r->Err_0.params) == Some(
            JsonData::Object(seq![("maxBytes"@, JsonData::PosInt(MAX_IMAGE_DATA_URL_BYTES as u64))]),
        ),
        image_data_url_problem(
            match value {
                Some(v) => Some(v@),
                None => None,
            },
        ) == Some(ImageProblem::InvalidType) ==> r is Err && r->Err_0.code@
            == "backendErrors.imageInvalidType"@ && r->Err_0.message@ == "图片格式无效，请重新选择图片。"@
            && r->Err_0.params is None,
{
    let v = match value {
        Some(v) => v,
        None => {
            return Ok(());
        },
    };
    if is_blank_str(v) {
        return Ok(());
    }
    let t = trim_str(v);
    if utf8_len_of(t.as_str()) > MAX_IMAGE_DATA_URL_BYTES as u128 {
        let mut params = JsonMap::new();
        params.push_new(
            "maxBytes".to_owned(),
            JsonValue::Number(JsonNumber::PosInt(MAX_IMAGE_DATA_URL_BYTES as u64)),
        );
        let ghost pv = params@;
        proof {
            reveal_strlit("maxBytes");
            assert(pv =~= seq![("maxBytes"@, JsonData::PosInt(MAX_IMAGE_DATA_URL_BYTES as u64))]);
        }
        return Err(
            ValidationError {
                code: "backendErrors.imageTooLarge",
                message: "图片数据过大，请选择更小的图片。".to_owned(),
                params: Some(JsonValue::Object(params)),
            },
        );
    }
    proof {
        reveal_strlit("data:image/");
    }
    if !starts_with(t.as_str(), "data:image/") {
        return Err(
            ValidationError {
                code: "backendErrors.imageInvalidType",
                message: "图片格式无效，请重新选择图片。".to_owned(),
                params: None,
            },
        );
    }
    Ok(())
}

/// Some text of `e` is one of the two given ones.
pub open spec fn mentions(e: Seq<char>, a: Seq<char>, b: Seq<char>) -> bool {
    contains(e, a) || contains(e, b)
}

/// The error code for a message from starting the reporter: which
/// missing setting or which state it names, in either language.
pub open spec fn reporter_start_error_code_spec(e: Seq<char>) -> Option<Seq<char>> {
    if mentions(e, "缺少站点地址"@, "Site URL is required"@) {
        Some("backendErrors.reporterConfigBaseUrlMissing"@)
    } else if mentions(e, "缺少 API Token"@, "API Token is required"@) {
        Some("backendErrors.reporterConfigApiTokenMissing"@)
    } else if mentions(e, "缺少 GeneratedHashKey"@, "Device key is required"@) {
        Some("backendErrors.reporterConfigGeneratedHashKeyMissing"@)
    } else if mentions(e, "仍在退出"@, "still stopping"@) {
        Some("backendErrors.reporterWorkerStopping"@)
    } else {
        None
    }
}

/// The view of an optional static text.
pub open spec fn opt_str_view(o: Option<&'static str>) -> Option<Seq<char>> {
    match o {
        Some(s) => Some(s@),
        None => None,
    }
}

fn mentions_either(e: &str, a: &str, b: &str) -> (r: bool)
    ensures
        r == mentions(e@, a@, b@),
{
    contains_str(e, a) || contains_str(e, b)
}

/// The error code for a message from starting the reporter.
pub fn reporter_start_error_code(error: &str) -> (r: Option<&'static str>)
    ensures
        opt_str_view(r) == reporter_start_error_code_spec(error@),
{
    if mentions_either(error, "缺少站点地址", "Site URL is required") {
        Some("backendErrors.reporterConfigBaseUrlMissing")
    } else if mentions_either(error, "缺少 API Token", "API Token is required") {
        Some("backendErrors.reporterConfigApiTokenMissing")
    } else if mentions_either(error, "缺少 GeneratedHashKey", "Device key is required") {
        Some("backendErrors.reporterConfigGeneratedHashKeyMissing")
    } else if mentions_either(error, "仍在退出", "still stopping") {
        Some("backendErrors.reporterWorkerStopping")
    } else {
        None
    }
}

/// The error code for a message from starting the Discord sync.
pub open spec fn discord_start_error_code_spec(e: Seq<char>) -> Option<Seq<char>> {
    if mentions(e, "缺少站点地址"@, "Site URL is required"@) {
        Some("backendErrors.discordConfigBaseUrlMissing"@)
    } else if mentions(e, "缺少 Discord Application ID"@, "Discord Application ID is required"@) {
        Some("backendErrors.discordConfigAppIdMissing"@)
    } else if mentions(e, "缺少 Discord 来源标识"@, "Discord source ID is required"@) {
        Some("backendErrors.discordConfigSourceIdMissing"@)
    } else if mentions(e, "仍在退出"@, "still stopping"@) {
        Some("backendErrors.discordWorkerStopping"@)
    } else {
        None
    }
}

/// The error code for a message from starting the Discord sync.
pub fn discord_start_error_code(error: &str) -> (r: Option<&'static str>)
    ensures
        opt_str_view(r) == discord_start_error_code_spec(error@),
{
    if mentions_either(error, "缺少站点地址", "Site URL is required") {
        Some("backendErrors.discordConfigBaseUrlMissing")
    } else if mentions_either(
        error,
        "缺少 Discord Application ID",
        "Discord Application ID is required",
    ) {
        Some("backendErrors.discordConfigAppIdMissing")
    } else if mentions_either(error, "缺少 Discord 来源标识", "Discord source ID is required") {
        Some("backendErrors.discordConfigSourceIdMissing")
    } else if mentions_either(error, "仍在退出", "still stopping") {
        Some("backendErrors.discordWorkerStopping")
    } else {
        None
    }
}

} // verus!
