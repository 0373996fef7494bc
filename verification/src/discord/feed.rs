//! The public activity feed the Discord presence is taken from.
use vstd::prelude::*;

use crate::json::{
    bool_of, error_message, error_message_of, field, obj_get, opt_data, response_document,
    response_value, text_of, JsonData, JsonMap, JsonValue,
};
use crate::locale::{pick, status_message, BackendLocale};
use crate::text::{is_blank, is_blank_str, str_eq, trim, trim_str};

use super::messages::{default_public_feed_failure, public_feed_status_error};

verus! {

/// One public activity of the feed.
#[derive(Debug)]
pub struct PublicActivityItem {
    pub device: Option<String>,
    pub metadata: Option<JsonValue>,
    pub process_name: Option<String>,
    pub process_title: Option<String>,
    pub status_text: Option<String>,
    pub started_at: Option<String>,
}

impl Default for PublicActivityItem {
    fn default() -> (r: Self)
        ensures
            r.device is None,
            r.metadata is None,
            r.process_name is None,
            r.process_title is None,
            r.status_text is None,
            r.started_at is None,
    {
        PublicActivityItem {
            device: None,
            metadata: None,
            process_name: None,
            process_title: None,
            status_text: None,
            started_at: None,
        }
    }
}

/// The public activity feed.
#[derive(Debug)]
pub struct PublicActivityFeed {
    pub active_statuses: Vec<PublicActivityItem>,
}

/// The `dc_source` of an activity: its metadata's `dc_source` string,
/// trimmed, when the metadata is an object and the string is not blank.
pub open spec fn item_dc_source_spec(item: PublicActivityItem) -> Option<Seq<char>> {
    match opt_data(item.metadata) {
        Some(JsonData::Object(es)) => match obj_get(es, "dc_source"@) {
            Some(JsonData::Text(s)) => if is_blank(s) {
                None
            } else {
                Some(trim(s))
            },
            _ => None,
        },
        _ => None,
    }
}

/// The `dc_source` of an activity.
pub fn item_dc_source(item: &PublicActivityItem) -> (r: Option<String>)
    ensures
        crate::text::opt_seq(r) == item_dc_source_spec(*item),
{
    proof {
        reveal_strlit("dc_source");
    }
    match &item.metadata {
        Some(JsonValue::Object(map)) => match map.get("dc_source") {
            Some(JsonValue::Text(s)) => if is_blank_str(s.as_str()) {
                None
            } else {
                Some(trim_str(s.as_str()))
            },
            _ => None,
        },
        _ => None,
    }
}

/// Activity `i` comes from source `target`.
pub open spec fn item_matches(items: Seq<PublicActivityItem>, i: int, target: Seq<char>) -> bool {
    item_dc_source_spec(items[i]) == Some(trim(target))
}

/// The position of the first activity from source `target`; none when
/// `target` is blank.
pub fn select_dc_source_index(items: &Vec<PublicActivityItem>, target_dc_source: &str) -> (r:
    Option<usize>)
    ensures
        is_blank(target_dc_source@) ==> r is None,
        r is Some ==> r.unwrap() < items@.len() && item_matches(
            items@,
            r.unwrap() as int,
            target_dc_source@,
        ) && forall|j: int| 0 <= j < r.unwrap() ==> !item_matches(items@, j, target_dc_source@),
        r is None && !is_blank(target_dc_source@) ==> forall|j: int|
            0 <= j < items@.len() ==> !item_matches(items@, j, target_dc_source@),
{
    if is_blank_str(target_dc_source) {
        return None;
    }
    let target = trim_str(target_dc_source);
    let mut i: usize = 0;
    while i < items.len()
        invariant
            i <= items.len(),
            !is_blank(target_dc_source@),
            target@ == trim(target_dc_source@),
            forall|j: int| 0 <= j < i ==> !item_matches(items@, j, target_dc_source@),
        decreases items.len() - i,
    {
        let source = item_dc_source(&items[i]);
        if let Some(s) = source {
            if str_eq(s.as_str(), target.as_str()) {
                return Some(i);
            }
        }
        i = i + 1;
    }
    None
}

/// The first activity from source `target`; none when `target` is blank.
pub fn select_dc_source_activity<'a>(
    active_statuses: &'a Vec<PublicActivityItem>,
    target_dc_source: &str,
) -> (r: Option<&'a PublicActivityItem>)
    ensures
        is_blank(target_dc_source@) ==> r is None,
        r is Some ==> exists|i: int|
            0 <= i < active_statuses@.len() && *r.unwrap() == active_statuses@[i] && item_matches(
                active_statuses@,
                i,
                target_dc_source@,
            ) && forall|j: int| 0 <= j < i ==> !item_matches(active_statuses@, j, target_dc_source@),
        r is None && !is_blank(target_dc_source@) ==> forall|j: int|
            0 <= j < active_statuses@.len() ==> !item_matches(
                active_statuses@,
                j,
                target_dc_source@,
            ),
{
    match select_dc_source_index(active_statuses, target_dc_source) {
        Some(i) => Some(&active_statuses[i]),
        None => None,
    }
}

/// `s` without the trailing `c`s (`str::trim_end_matches`).
pub open spec fn trim_end_char(s: Seq<char>, c: char) -> Seq<char>
    decreases s.len(),
{
    if s.len() > 0 && s.last() == c {
        trim_end_char(s.drop_last(), c)
    } else {
        s
    }
}

/// `s` without its trailing slashes.
pub fn trim_trailing_slashes(s: &str) -> (r: String)
    ensures
        r@ == trim_end_char(s@, '/'),
{
    let v = crate::text::chars_of(s);
    let mut n = v.len();
    assert(v@.subrange(0, n as int) =~= v@);
    while n > 0 && v[n - 1] == '/'
        invariant
            n <= v.len(),
            v@ == s@,
            trim_end_char(s@, '/') == trim_end_char(v@.subrange(0, n as int), '/'),
        decreases n,
    {
        assert(v@.subrange(0, n as int).drop_last() =~= v@.subrange(0, n - 1));
        n = n - 1;
    }
    assert(n == 0 || v@.subrange(0, n as int).last() != '/');
    crate::text::string_from_chars(&v, 0, n)
}

/// The address of the public activity feed of the site at `base_url`.
pub fn public_feed_url(base_url: &str) -> (r: String)
    ensures
        r@ == trim_end_char(base_url@, '/') + "/api/activity?public=1"@,
{
    let mut r = trim_trailing_slashes(base_url);
    r.append("/api/activity?public=1");
    r
}

/// The document of a feed response: `{}` for a blank body, else the parsed
/// body, or `{"raw": text}` when it is not JSON.
pub open spec fn feed_document(text: Seq<char>, parsed: Option<JsonData>) -> JsonData {
    if is_blank(text) {
        JsonData::Object(Seq::empty())
    } else {
        response_document(text, parsed)
    }
}

/// The feed's answer: an HTTP error status fails with the status and the
/// trimmed body; `success: false` fails with the server's message;
/// otherwise its `data` (or the whole document) holds the feed.
pub open spec fn feed_outcome(
    status: u16,
    text: Seq<char>,
    parsed: Option<JsonData>,
    locale: BackendLocale,
) -> Result<JsonData, Seq<char>> {
    let d = feed_document(text, parsed);
    if status >= 400 {
        Err(
            status_message(
                locale,
                "公开活动接口返回状态码"@,
                "Public activity returned HTTP"@,
                status,
                trim(text),
            ),
        )
    } else if field(d, "success"@) is Some && bool_of(field(d, "success"@).unwrap()) == Some(
        false,
    ) {
        Err(
            match error_message_of(d) {
                Some(m) => m,
                None => pick(locale, "公开活动接口返回失败"@, "Public activity returned failure"@),
            },
        )
    } else {
        Ok(
            match field(d, "data"@) {
                Some(x) => x,
                None => d,
            },
        )
    }
}

/// Interprets the feed's answer: its HTTP `status`, its body `text`, and
/// `parsed`, the body parsed as JSON when it is JSON.  On success the
/// result is the document that holds the feed.
pub fn interpret_feed_response(
    status: u16,
    text: &str,
    parsed: Option<JsonValue>,
    locale: BackendLocale,
) -> (r: Result<JsonValue, String>)
    ensures
        match (r, feed_outcome(status, text@, opt_data(parsed), locale)) {
            (Ok(v), Ok(d)) => v@ == d,
            (Err(e), Err(m)) => e@ == m,
            _ => false,
        },
{
    if status >= 400 {
        let body = trim_str(text);
        return Err(public_feed_status_error(locale, status, body.as_str()));
    }
    let doc = if is_blank_str(text) {
        let m = JsonMap::new();
        JsonValue::Object(m)
    } else {
        response_value(text, parsed)
    };
    proof {
        reveal_strlit("success");
        reveal_strlit("data");
    }
    let success = match doc.get("success") {
        Some(v) => match v.as_bool() {
            Some(b) => b,
            None => true,
        },
        None => true,
    };
    if !success {
        return Err(
            match error_message(&doc) {
                Some(m) => m,
                None => default_public_feed_failure(locale),
            },
        );
    }
    match doc.get("data") {
        Some(d) => Ok(d.duplicate()),
        None => Ok(doc),
    }
}

} // verus!
