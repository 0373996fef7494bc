//! The checks of the platform self-test that every platform words alike.
use vstd::prelude::*;

use super::{
    join, key_seq, localized_text, make_probe, media_empty, summary_parts, MediaInfo, ProbeTextSpec,
};
use crate::json::{opt_data, JsonData, JsonMap, JsonValue};
use crate::models::PlatformProbeResult;
use crate::text::{is_blank, is_blank_str, opt_seq};

verus! {

/// A text with key `key`, no parameters and fallback `text`.
pub open spec fn text_is(t: ProbeTextSpec, key: Seq<char>, text: Seq<char>) -> bool {
    &&& key_seq(t.key) == Some(key)
    &&& t.params is None
    &&& t.fallback@ == text
}

/// `g` holds the texts `expected`, as (key, text) pairs, in order.
pub open spec fn guidance_is(g: Seq<ProbeTextSpec>, expected: Seq<(Seq<char>, Seq<char>)>) -> bool {
    &&& g.len() == expected.len()
    &&& forall|i: int| 0 <= i < g.len() ==> text_is(#[trigger] g[i], expected[i].0, expected[i].1)
}

/// A check's result: its success, summary and detail (key, text and
/// parameters) and its guidance lines.
pub open spec fn probe_is(
    r: PlatformProbeResult,
    success: bool,
    summary_key: Seq<char>,
    summary: Seq<char>,
    detail_key: Seq<char>,
    detail: Seq<char>,
    detail_params: Option<JsonData>,
    guidance: Seq<(Seq<char>, Seq<char>)>,
) -> bool {
    &&& r.success == success
    &&& opt_seq(r.summary_key) == Some(summary_key)
    &&& r.summary@ == summary
    &&& r.summary_params is None
    &&& opt_seq(r.detail_key) == Some(detail_key)
    &&& r.detail@ == detail
    &&& opt_data(r.detail_params) == detail_params
    &&& r.guidance@.len() == guidance.len()
    &&& r.guidance_entries@.len() == guidance.len()
    &&& forall|i: int|
        0 <= i < guidance.len() ==> {
            &&& (#[trigger] r.guidance@[i])@ == guidance[i].1
            &&& r.guidance_entries@[i].text@ == guidance[i].1
            &&& opt_seq(r.guidance_entries@[i].key) == Some(guidance[i].0)
            &&& r.guidance_entries@[i].params is None
        }
}

/// Adds a guidance line.
pub fn push_guidance(
    g: &mut Vec<ProbeTextSpec>,
    key: &'static str,
    text: &str,
    Ghost(expected): Ghost<Seq<(Seq<char>, Seq<char>)>>,
)
    requires
        guidance_is(old(g)@, expected),
    ensures
        guidance_is(final(g)@, expected.push((key@, text@))),
{
    g.push(localized_text(key, None, text.to_owned()));
    assert forall|i: int| 0 <= i < g@.len() implies text_is(
        #[trigger] g@[i],
        expected.push((key@, text@))[i].0,
        expected.push((key@, text@))[i].1,
    ) by {
        if i < expected.len() {
            assert(g@[i] == old(g)@[i]);
        }
    }
}

/// A check's result from its texts and guidance.
pub fn probe_from(
    success: bool,
    summary_key: &'static str,
    summary: &str,
    detail: ProbeTextSpec,
    guidance: Vec<ProbeTextSpec>,
    Ghost(expected): Ghost<Seq<(Seq<char>, Seq<char>)>>,
) -> (r: PlatformProbeResult)
    requires
        guidance_is(guidance@, expected),
        detail.key is Some,
    ensures
        probe_is(
            r,
            success,
            summary_key@,
            summary@,
            detail.key->Some_0@,
            detail.fallback@,
            opt_data(detail.params),
            expected,
        ),
{
    let ghost gs = guidance@;
    let r = make_probe(success, localized_text(summary_key, None, summary.to_owned()), detail, guidance);
    assert forall|i: int| 0 <= i < expected.len() implies {
        &&& (#[trigger] r.guidance@[i])@ == expected[i].1
        &&& r.guidance_entries@[i].text@ == expected[i].1
        &&& opt_seq(r.guidance_entries@[i].key) == Some(expected[i].0)
        &&& r.guidance_entries@[i].params is None
    } by {
        assert(text_is(gs[i], expected[i].0, expected[i].1));
        assert(r.guidance@[i]@ == gs[i].fallback@);
    }
    r
}

/// A one-entry JSON object with a string.
pub open spec fn single_text_object(k: Seq<char>, v: Seq<char>) -> JsonData {
    JsonData::Object(seq![(k, JsonData::Text(v))])
}

fn single_text(k: &str, v: &str) -> (r: JsonValue)
    ensures
        r@ == single_text_object(k@, v@),
{
    let mut m = JsonMap::new();
    m.push_new(k.to_owned(), JsonValue::text(v));
    let ghost es = m@;
    assert(es =~= seq![(k@, JsonData::Text(v@))]);
    JsonValue::Object(m)
}

/// The check of the foreground application when it was read.
pub fn foreground_ok_probe(process_name: &str) -> (r: PlatformProbeResult)
    ensures
        foreground_probe_is(r, process_name@),
{
    let mut detail_text = "当前前台应用：".to_owned();
    detail_text.append(process_name);
    proof {
        reveal_strlit("当前前台应用：");
    }
    let detail = localized_text(
        "platformSelfTest.detail.foregroundCurrent",
        Some(single_text("processName", process_name)),
        detail_text,
    );
    probe_from(
        true,
        "platformSelfTest.summary.foregroundOk",
        "前台应用采集正常",
        detail,
        Vec::new(),
        Ghost(Seq::empty()),
    )
}

/// The check of the media when something is playing: its summary.
pub fn media_ok_probe(info: &MediaInfo) -> (r: PlatformProbeResult)
    ensures
        media_current_probe_is(r, *info),
{
    let summary = info.summary();
    let detail = localized_text(
        "platformSelfTest.detail.mediaCurrent",
        Some(single_text("mediaSummary", summary.as_str())),
        summary,
    );
    probe_from(
        true,
        "platformSelfTest.summary.mediaOk",
        "媒体采集正常",
        detail,
        Vec::new(),
        Ghost(Seq::empty()),
    )
}

/// The check of the media when nothing is playing, with one hint.
pub fn media_none_probe(hint: &str) -> (r: PlatformProbeResult)
    ensures
        media_none_probe_is(r, seq![("platformSelfTest.guidance.playMediaThenRetry"@, hint@)]),
{
    let mut g: Vec<ProbeTextSpec> = Vec::new();
    let ghost exp = seq![("platformSelfTest.guidance.playMediaThenRetry"@, hint@)];
    push_guidance(&mut g, "platformSelfTest.guidance.playMediaThenRetry", hint, Ghost(Seq::empty()));
    assert(Seq::<(Seq<char>, Seq<char>)>::empty().push(("platformSelfTest.guidance.playMediaThenRetry"@, hint@)) =~= exp);
    probe_from(
        true,
        "platformSelfTest.summary.mediaNone",
        "当前没有播放中的媒体",
        localized_text(
            "platformSelfTest.detail.mediaNone",
            None,
            "系统当前没有可用的正在播放信息。".to_owned(),
        ),
        g,
        Ghost(exp),
    )
}

/// The check of a failed reading: its summary, and a detail that carries
/// the error.
pub fn failed_probe(
    summary_key: &'static str,
    summary: &str,
    detail: ProbeTextSpec,
    guidance: Vec<ProbeTextSpec>,
    Ghost(expected): Ghost<Seq<(Seq<char>, Seq<char>)>>,
) -> (r: PlatformProbeResult)
    requires
        guidance_is(guidance@, expected),
        detail.key is Some,
    ensures
        probe_is(
            r,
            false,
            summary_key@,
            summary@,
            detail.key->Some_0@,
            detail.fallback@,
            opt_data(detail.params),
            expected,
        ),
{
    probe_from(false, summary_key, summary, detail, guidance, Ghost(expected))
}

/// The check of the window title that was read: failed when it is blank,
/// else passed with the title as its detail.
pub open spec fn window_title_probe_is(r: PlatformProbeResult, process_title: Seq<char>) -> bool {
    if is_blank(process_title) {
        probe_is(
            r,
            false,
            "platformSelfTest.summary.windowTitleEmpty"@,
            "窗口标题为空"@,
            "platformSelfTest.detail.windowTitleEmpty"@,
            "当前前台窗口没有可用标题。"@,
            None,
            Seq::empty(),
        )
    } else {
        probe_is(
            r,
            true,
            "platformSelfTest.summary.windowTitleOk"@,
            "窗口标题采集正常"@,
            "platformSelfTest.detail.windowTitleCurrent"@,
            process_title,
            Some(single_text_object("processTitle"@, process_title)),
            Seq::empty(),
        )
    }
}

/// The check of the foreground application that was read: passed, with
/// the application as its detail.
pub open spec fn foreground_probe_is(r: PlatformProbeResult, process_name: Seq<char>) -> bool {
    probe_is(
        r,
        true,
        "platformSelfTest.summary.foregroundOk"@,
        "前台应用采集正常"@,
        "platformSelfTest.detail.foregroundCurrent"@,
        "当前前台应用："@ + process_name,
        Some(single_text_object("processName"@, process_name)),
        Seq::empty(),
    )
}

/// The check of the media when something is playing: passed, with the
/// media's summary as its detail.
pub open spec fn media_current_probe_is(r: PlatformProbeResult, m: MediaInfo) -> bool {
    probe_is(
        r,
        true,
        "platformSelfTest.summary.mediaOk"@,
        "媒体采集正常"@,
        "platformSelfTest.detail.mediaCurrent"@,
        join(summary_parts(m), " / "@),
        Some(single_text_object("mediaSummary"@, join(summary_parts(m), " / "@))),
        Seq::empty(),
    )
}

/// The check of the media when nothing is playing: passed, with these
/// hints.
pub open spec fn media_none_probe_is(r: PlatformProbeResult, guidance: Seq<(Seq<char>, Seq<char>)>) -> bool {
    probe_is(
        r,
        true,
        "platformSelfTest.summary.mediaNone"@,
        "当前没有播放中的媒体"@,
        "platformSelfTest.detail.mediaNone"@,
        "系统当前没有可用的正在播放信息。"@,
        None,
        guidance,
    )
}

/// The check of a media reading that worked: its summary when something
/// is known of the media, else "nothing playing" with the hint `hint`.
pub open spec fn media_probe_is(r: PlatformProbeResult, m: MediaInfo, hint: Seq<char>) -> bool {
    if !media_empty(m) {
        media_current_probe_is(r, m)
    } else {
        media_none_probe_is(r, seq![("platformSelfTest.guidance.playMediaThenRetry"@, hint)])
    }
}

/// The check of the window title on a platform that needs no permission:
/// it succeeds when the title is not blank.
pub fn window_title_probe(process_title: &str) -> (r: PlatformProbeResult)
    ensures
        window_title_probe_is(r, process_title@),
{
    if is_blank_str(process_title) {
        probe_from(
            false,
            "platformSelfTest.summary.windowTitleEmpty",
            "窗口标题为空",
            localized_text(
                "platformSelfTest.detail.windowTitleEmpty",
                None,
                "当前前台窗口没有可用标题。".to_owned(),
            ),
            Vec::new(),
            Ghost(Seq::empty()),
        )
    } else {
        probe_from(
            true,
            "platformSelfTest.summary.windowTitleOk",
            "窗口标题采集正常",
            localized_text(
                "platformSelfTest.detail.windowTitleCurrent",
                Some(single_text("processTitle", process_title)),
                process_title.to_owned(),
            ),
            Vec::new(),
            Ghost(Seq::empty()),
        )
    }
}

} // verus!
