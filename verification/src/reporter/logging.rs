//! The texts of the reporter's log.
use vstd::prelude::*;

use crate::json::{entries_data, items_data, json_data, lemma_entries_data, lemma_items_data, JsonData, JsonMap, JsonValue};
use crate::locale::{pick, BackendLocale};
use crate::platform::{join, media_empty, summary_parts, ForegroundSnapshot, MediaInfo};
use crate::text::{is_blank, is_blank_str, str_eq};

verus! {

/// A log text: a translation key with its parameters, and the text shown
/// when the key has no translation.
#[derive(Debug)]
pub struct LogTextSpec {
    pub key: Option<&'static str>,
    pub params: Option<JsonValue>,
    pub fallback: String,
}

/// A text without a translation key.
pub fn fallback_text(value: String) -> (r: LogTextSpec)
    ensures
        r.key is None,
        r.params is None,
        r.fallback == value,
{
    LogTextSpec { key: None, params: None, fallback: value }
}

/// A text with a translation key.
pub fn localized_text(key: &'static str, params: Option<JsonValue>, fallback: String) -> (r:
    LogTextSpec)
    ensures
        r.key == Some(key),
        r.params == params,
        r.fallback == fallback,
{
    LogTextSpec { key: Some(key), params, fallback }
}

/// The word for what was sent: a heartbeat or a report.
pub open spec fn action_word(locale: BackendLocale, is_heartbeat: bool) -> Seq<char> {
    if is_heartbeat {
        pick(locale, "心跳"@, "Heartbeat"@)
    } else {
        pick(locale, "上报"@, "Report"@)
    }
}

/// The fallback text of a sent activity: action, foreground application and
/// window title, and the media summary when media is known.
pub open spec fn log_detail_text(
    snapshot: ForegroundSnapshot,
    media: MediaInfo,
    is_heartbeat: bool,
    locale: BackendLocale,
) -> Seq<char> {
    let head = action_word(locale, is_heartbeat) + pick(locale, "："@, ": "@)
        + snapshot.process_name@ + " / "@ + snapshot.process_title@;
    if media_empty(media) {
        head
    } else {
        head + " | "@ + pick(locale, "媒体："@, Seq::empty()) + join(summary_parts(media), " / "@)
    }
}

/// The translation key of a sent activity's detail.
pub open spec fn log_detail_key(media: MediaInfo, is_heartbeat: bool) -> Seq<char> {
    if media_empty(media) {
        if is_heartbeat {
            "reporterLogs.activityHeartbeat.detail"@
        } else {
            "reporterLogs.activityReported.detail"@
        }
    } else {
        if is_heartbeat {
            "reporterLogs.activityHeartbeat.detailWithMedia"@
        } else {
            "reporterLogs.activityReported.detailWithMedia"@
        }
    }
}

/// The translation parameters of a sent activity's detail.
pub open spec fn log_detail_params(snapshot: ForegroundSnapshot, media: MediaInfo) -> Seq<
    (Seq<char>, JsonData),
> {
    let base = seq![
        ("processName"@, JsonData::Text(snapshot.process_name@)),
        ("processTitle"@, JsonData::Text(snapshot.process_title@)),
    ];
    if media_empty(media) {
        base
    } else {
        base.push(("mediaSummary"@, JsonData::Text(join(summary_parts(media), " / "@))))
    }
}

/// The detail line logged for a sent activity.
pub fn build_log_detail(
    snapshot: &ForegroundSnapshot,
    media: &MediaInfo,
    is_heartbeat: bool,
    locale: BackendLocale,
) -> (r: LogTextSpec)
    ensures
        r.key is Some && r.key.unwrap()@ == log_detail_key(*media, is_heartbeat),
        r.params is Some && r.params.unwrap()@ == JsonData::Object(
            log_detail_params(*snapshot, *media),
        ),
        r.fallback@ == log_detail_text(*snapshot, *media, is_heartbeat, locale),
{
    let mut text = if locale.is_en() {
        if is_heartbeat {
            "Heartbeat".to_owned()
        } else {
            "Report".to_owned()
        }
    } else if is_heartbeat {
        "心跳".to_owned()
    } else {
        "上报".to_owned()
    };
    if locale.is_en() {
        text.append(": ");
    } else {
        text.append("：");
    }
    text.append(snapshot.process_name.as_str());
    text.append(" / ");
    text.append(snapshot.process_title.as_str());
    let mut params = JsonMap::new();
    params.push_new("processName".to_owned(), JsonValue::Text(snapshot.process_name.clone()));
    params.push_new("processTitle".to_owned(), JsonValue::Text(snapshot.process_title.clone()));
    if media.is_empty() {
        assert(params@ =~= log_detail_params(*snapshot, *media));
        let key = if is_heartbeat {
            "reporterLogs.activityHeartbeat.detail"
        } else {
            "reporterLogs.activityReported.detail"
        };
        localized_text(key, Some(JsonValue::Object(params)), text)
    } else {
        let summary = media.summary();
        text.append(" | ");
        if !locale.is_en() {
            text.append("媒体：");
        }
        text.append(summary.as_str());
        params.push_new("mediaSummary".to_owned(), JsonValue::Text(summary));
        assert(params@ =~= log_detail_params(*snapshot, *media));
        let key = if is_heartbeat {
            "reporterLogs.activityHeartbeat.detailWithMedia"
        } else {
            "reporterLogs.activityReported.detailWithMedia"
        };
        localized_text(key, Some(JsonValue::Object(params)), text)
    }
}

/// The fixed texts of the reporter's log.
#[derive(Clone, Copy, Debug, PartialEq, Eq, Structural)]
pub enum ReporterLogText {
    StartedTitle,
    StartedDetail,
    StoppedTitle,
    StoppedDetail,
    StoppedPendingDetail,
    ClientCreateFailedTitle,
    MetadataInvalidTitle,
    MediaReadFailedTitle,
    ActivityHeartbeatTitle,
    ActivityReportedTitle,
    PendingApprovalTitle,
    ReportFailedTitle,
    ForegroundCaptureFailedTitle,
}

/// The translation key and fallback of a fixed log text.
pub open spec fn log_text_spec(text: ReporterLogText) -> (Seq<char>, Seq<char>) {
    match text {
        ReporterLogText::StartedTitle => ("reporterLogs.started.title"@, "实时上报已启动"@),
        ReporterLogText::StartedDetail => ("reporterLogs.started.detail"@, "后台轮询任务已经开始。"@),
        ReporterLogText::StoppedTitle => ("reporterLogs.stopped.title"@, "实时上报已停止"@),
        ReporterLogText::StoppedDetail => ("reporterLogs.stopped.detail"@, "后台轮询任务已停止。"@),
        ReporterLogText::StoppedPendingDetail => (
            "reporterLogs.stopped.pendingDetail"@,
            "停止信号已发送，后台线程会在当前操作完成后退出。"@,
        ),
        ReporterLogText::ClientCreateFailedTitle => (
            "reporterLogs.clientCreateFailed.title"@,
            "创建实时上报客户端失败"@,
        ),
        ReporterLogText::MetadataInvalidTitle => (
            "reporterLogs.metadataInvalid.title"@,
            "实时上报元数据无效"@,
        ),
        ReporterLogText::MediaReadFailedTitle => (
            "reporterLogs.mediaReadFailed.title"@,
            "媒体信息读取失败"@,
        ),
        ReporterLogText::ActivityHeartbeatTitle => (
            "reporterLogs.activityHeartbeat.title"@,
            "活动心跳"@,
        ),
        ReporterLogText::ActivityReportedTitle => (
            "reporterLogs.activityReported.title"@,
            "活动已上报"@,
        ),
        ReporterLogText::PendingApprovalTitle => (
            "reporterLogs.pendingApproval.title"@,
            "设备待审核"@,
        ),
        ReporterLogText::ReportFailedTitle => ("reporterLogs.reportFailed.title"@, "实时上报失败"@),
        ReporterLogText::ForegroundCaptureFailedTitle => (
            "reporterLogs.foregroundCaptureFailed.title"@,
            "采集前台窗口失败"@,
        ),
    }
}

/// A fixed log text.
pub fn reporter_log_text(text: ReporterLogText) -> (r: LogTextSpec)
    ensures
        r.key is Some && r.key.unwrap()@ == log_text_spec(text).0,
        r.params is None,
        r.fallback@ == log_text_spec(text).1,
{
    let (key, fallback): (&'static str, &'static str) = match text {
        ReporterLogText::StartedTitle => ("reporterLogs.started.title", "实时上报已启动"),
        ReporterLogText::StartedDetail => ("reporterLogs.started.detail", "后台轮询任务已经开始。"),
        ReporterLogText::StoppedTitle => ("reporterLogs.stopped.title", "实时上报已停止"),
        ReporterLogText::StoppedDetail => ("reporterLogs.stopped.detail", "后台轮询任务已停止。"),
        ReporterLogText::StoppedPendingDetail => (
            "reporterLogs.stopped.pendingDetail",
            "停止信号已发送，后台线程会在当前操作完成后退出。",
        ),
        ReporterLogText::ClientCreateFailedTitle => (
            "reporterLogs.clientCreateFailed.title",
            "创建实时上报客户端失败",
        ),
        ReporterLogText::MetadataInvalidTitle => (
            "reporterLogs.metadataInvalid.title",
            "实时上报元数据无效",
        ),
        ReporterLogText::MediaReadFailedTitle => (
            "reporterLogs.mediaReadFailed.title",
            "媒体信息读取失败",
        ),
        ReporterLogText::ActivityHeartbeatTitle => ("reporterLogs.activityHeartbeat.title", "活动心跳"),
        ReporterLogText::ActivityReportedTitle => ("reporterLogs.activityReported.title", "活动已上报"),
        ReporterLogText::PendingApprovalTitle => ("reporterLogs.pendingApproval.title", "设备待审核"),
        ReporterLogText::ReportFailedTitle => ("reporterLogs.reportFailed.title", "实时上报失败"),
        ReporterLogText::ForegroundCaptureFailedTitle => (
            "reporterLogs.foregroundCaptureFailed.title",
            "采集前台窗口失败",
        ),
    };
    localized_text(key, None, fallback.to_owned())
}

/// A detail (its key, parameters and text) as logged when the device
/// waits for approval: with the approval URL when there is one that is
/// not blank.
pub open spec fn pending_detail_is(
    key: Option<Seq<char>>,
    params: Option<JsonData>,
    text: Seq<char>,
    message: Seq<char>,
    approval_url: Option<Seq<char>>,
) -> bool {
    if approval_url is Some && !is_blank(approval_url->Some_0) {
        &&& key == Some("reporterLogs.pendingApproval.withUrl"@)
        &&& params == Some(
            JsonData::Object(
                seq![
                    ("message"@, JsonData::Text(message)),
                    ("approvalUrl"@, JsonData::Text(approval_url->Some_0)),
                ],
            ),
        )
        &&& text == message + "。请前往设备管理完成审核："@ + approval_url->Some_0
    } else {
        &&& key == Some("reporterLogs.pendingApproval.withoutUrl"@)
        &&& params == Some(JsonData::Object(seq![("message"@, JsonData::Text(message))]))
        &&& text == message
    }
}

/// The detail logged when the device waits for approval: with the approval
/// URL when there is one.
pub fn pending_approval_detail(message: &String, approval_url: &Option<String>) -> (r: LogTextSpec)
    ensures
        pending_detail_is(
            crate::reporter::key_view(r.key),
            crate::json::opt_data(r.params),
            r.fallback@,
            message@,
            crate::text::opt_seq(*approval_url),
        ),
{
    let mut params = JsonMap::new();
    params.push_new("message".to_owned(), JsonValue::Text(message.clone()));
    match approval_url {
        Some(url) => {
            if !is_blank_str(url.as_str()) {
                params.push_new("approvalUrl".to_owned(), JsonValue::Text(url.clone()));
                let mut text = message.clone();
                text.append("。请前往设备管理完成审核：");
                text.append(url.as_str());
                assert(params@ =~= seq![
                    ("message"@, JsonData::Text(message@)),
                    ("approvalUrl"@, JsonData::Text(url@)),
                ]);
                return localized_text(
                    "reporterLogs.pendingApproval.withUrl",
                    Some(JsonValue::Object(params)),
                    text,
                );
            }
        },
        None => {},
    }
    assert(params@ =~= seq![("message"@, JsonData::Text(message@))]);
    localized_text(
        "reporterLogs.pendingApproval.withoutUrl",
        Some(JsonValue::Object(params)),
        message.clone(),
    )
}

/// The keys under which a report carries cover art.
pub open spec fn is_artwork_key(k: Seq<char>) -> bool {
    k == "coverDataUrl"@ || k == "cover_url"@
}

/// A JSON document with every cover-art entry taken out of its objects,
/// at any depth; what is logged of a report.
pub open spec fn without_artwork(d: JsonData) -> JsonData
    decreases d,
{
    match d {
        JsonData::Array(items) => JsonData::Array(items_without_artwork(items)),
        JsonData::Object(es) => JsonData::Object(entries_without_artwork(es)),
        _ => d,
    }
}

/// `without_artwork` of each item.
pub open spec fn items_without_artwork(s: Seq<JsonData>) -> Seq<JsonData>
    decreases s,
{
    if s.len() == 0 {
        Seq::empty()
    } else {
        items_without_artwork(s.drop_last()).push(without_artwork(s.last()))
    }
}

/// The entries that are not cover art, each value with its own cover art
/// taken out.
pub open spec fn entries_without_artwork(s: Seq<(Seq<char>, JsonData)>) -> Seq<(Seq<char>, JsonData)>
    decreases s,
{
    if s.len() == 0 {
        Seq::empty()
    } else {
        let prev = entries_without_artwork(s.drop_last());
        if is_artwork_key(s.last().0) {
            prev
        } else {
            prev.push((s.last().0, without_artwork(s.last().1)))
        }
    }
}

/// A report as it is logged: every cover-art entry (`coverDataUrl`,
/// `cover_url`) is taken out, at any depth.
pub fn omit_artwork_from_log_payload(value: &JsonValue) -> (r: JsonValue)
    ensures
        r@ == without_artwork(value@),
    decreases value,
{
    match value {
        JsonValue::Array(items) => {
            proof {
                assert(decreases_to!(*value => *items));
                lemma_items_data(items@);
            }
            let mut out: Vec<JsonValue> = Vec::new();
            let mut i: usize = 0;
            assert(items_data(items@).subrange(0, 0) =~= Seq::<JsonData>::empty());
            while i < items.len()
                invariant
                    *value == JsonValue::Array(*items),
                    decreases_to!(*value => *items),
                    i <= items.len(),
                    items_data(items@).len() == items@.len(),
                    forall|j: int| 0 <= j < items@.len() ==> #[trigger] items_data(items@)[j] == json_data(items@[j]),
                    items_data(out@) == items_without_artwork(items_data(items@).subrange(0, i as int)),
                decreases items.len() - i,
            {
                proof {
                    assert(decreases_to!(*items => items@));
                    assert(decreases_to!(items@ => items@[i as int]));
                    assert(decreases_to!(*value => items@[i as int]));
                }
                let item = omit_artwork_from_log_payload(&items[i]);
                let ghost before = out@;
                out.push(item);
                proof {
                    let src = items_data(items@).subrange(0, i + 1);
                    assert(src.drop_last() =~= items_data(items@).subrange(0, i as int));
                    assert(out@.drop_last() =~= before);
                }
                i = i + 1;
            }
            assert(items_data(items@).subrange(0, items.len() as int) =~= items_data(items@));
            JsonValue::Array(out)
        },
        JsonValue::Object(m) => {
            proof {
                assert(decreases_to!(*value => *m));
                assert(decreases_to!(*m => m.entries));
                lemma_entries_data(m.entries@);
            }
            let mut out: Vec<(String, JsonValue)> = Vec::new();
            let mut i: usize = 0;
            assert(m@.subrange(0, 0) =~= Seq::<(Seq<char>, JsonData)>::empty());
            while i < m.entries.len()
                invariant
                    *value == JsonValue::Object(*m),
                    decreases_to!(*value => m.entries),
                    i <= m.entries.len(),
                    m@ == entries_data(m.entries@),
                    entries_data(m.entries@).len() == m.entries@.len(),
                    forall|j: int|
                        0 <= j < m.entries@.len() ==> #[trigger] entries_data(m.entries@)[j] == (
                            m.entries@[j].0@,
                            json_data(m.entries@[j].1),
                        ),
                    entries_data(out@) == entries_without_artwork(m@.subrange(0, i as int)),
                decreases m.entries.len() - i,
            {
                proof {
                    assert(decreases_to!(m.entries => m.entries@));
                    assert(decreases_to!(m.entries@ => m.entries@[i as int]));
                    assert(decreases_to!(m.entries@[i as int] => m.entries@[i as int].1));
                    assert(decreases_to!(*value => m.entries@[i as int].1));
                    let src = m@.subrange(0, i + 1);
                    assert(src.drop_last() =~= m@.subrange(0, i as int));
                }
                let key = m.entries[i].0.as_str();
                if str_eq(key, "coverDataUrl") || str_eq(key, "cover_url") {
                } else {
                    let child = omit_artwork_from_log_payload(&m.entries[i].1);
                    let ghost before = out@;
                    out.push((m.entries[i].0.clone(), child));
                    proof {
                        assert(out@.drop_last() =~= before);
                    }
                }
                i = i + 1;
            }
            assert(m@.subrange(0, m.entries.len() as int) =~= m@);
            JsonValue::Object(JsonMap { entries: out })
        },
        JsonValue::Null => JsonValue::Null,
        JsonValue::Bool(b) => JsonValue::Bool(*b),
        JsonValue::Number(n) => JsonValue::Number(n.clone()),
        JsonValue::Text(t) => JsonValue::Text(t.clone()),
    }
}

} // verus!
