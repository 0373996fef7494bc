//! What the Discord presence shows for one public activity.
use vstd::prelude::*;

use crate::text::{
    char_is_whitespace, chars_of, is_blank_str, is_ws, nonblank_trimmed, opt_seq, push_char, trim_str,
};

use super::feed::PublicActivityItem;

verus! {

/// The presence shown in Discord.
#[derive(Debug, Clone, PartialEq, Eq)]
pub struct DiscordPresencePayload {
    pub details: String,
    pub state: Option<String>,
    pub started_at_millis: Option<i64>,
    pub summary: String,
}

/// The whitespace-separated words of `s` joined by single spaces
/// (`s.split_whitespace().collect::<Vec<_>>().join(" ")`), described by
/// its last character: trailing whitespace adds nothing, and a character
/// after whitespace starts a new word, separated by one space from the
/// words before it.
pub open spec fn collapse_ws(s: Seq<char>) -> Seq<char>
    decreases s.len(),
{
    if s.len() == 0 {
        Seq::empty()
    } else if is_ws(s.last()) {
        collapse_ws(s.drop_last())
    } else {
        let p = s.drop_last();
        if p.len() > 0 && is_ws(p.last()) && collapse_ws(p).len() > 0 {
            collapse_ws(p).push(' ').push(s.last())
        } else {
            collapse_ws(p).push(s.last())
        }
    }
}

/// The result of `collapse_ws` holds no whitespace at either end.
pub proof fn lemma_collapse_ws_ends(s: Seq<char>)
    ensures
        collapse_ws(s).len() > 0 ==> !is_ws(collapse_ws(s).last()) && !is_ws(collapse_ws(s)[0]),
    decreases s.len(),
{
    if s.len() > 0 {
        lemma_collapse_ws_ends(s.drop_last());
    }
}

/// `value` with its words joined by single spaces.
pub fn normalize_presence_line(value: &str) -> (r: String)
    ensures
        r@ == collapse_ws(value@),
{
    let v = chars_of(value);
    let mut out = String::new();
    let mut pending_space = false;
    let mut has_output = false;
    let mut i: usize = 0;
    while i < v.len()
        invariant
            i <= v.len(),
            v@ == value@,
            out@ == collapse_ws(v@.subrange(0, i as int)),
            pending_space == (i > 0 && is_ws(v@[i - 1])),
            has_output == (out@.len() > 0),
        decreases v.len() - i,
    {
        let c = v[i];
        let ghost prefix = v@.subrange(0, i as int);
        assert(v@.subrange(0, i + 1).drop_last() =~= prefix);
        if char_is_whitespace(c) {
            pending_space = true;
        } else {
            if pending_space && has_output {
                push_char(&mut out, ' ');
            }
            push_char(&mut out, c);
            pending_space = false;
            has_output = true;
        }
        i = i + 1;
    }
    assert(v@.subrange(0, v.len() as int) =~= v@);
    out
}

fn nonblank_trimmed_of(o: &Option<String>) -> (r: Option<String>)
    ensures
        opt_seq(r) == nonblank_trimmed(*o),
{
    match o {
        Some(s) => if is_blank_str(s.as_str()) {
            None
        } else {
            Some(trim_str(s.as_str()))
        },
        None => None,
    }
}

/// The details shown when an activity has no status text: its window
/// title and process name joined by ` | `, whichever of them it has, or
/// `Waken-Wa`.
pub open spec fn fallback_details_spec(item: PublicActivityItem) -> Seq<char> {
    match (nonblank_trimmed(item.process_title), nonblank_trimmed(item.process_name)) {
        (Some(title), Some(name)) => title + " | "@ + name,
        (Some(title), None) => title,
        (None, Some(name)) => name,
        (None, None) => "Waken-Wa"@,
    }
}

/// The details shown when an activity has no status text.
pub fn fallback_details(item: &PublicActivityItem) -> (r: String)
    ensures
        r@ == fallback_details_spec(*item),
{
    let name = nonblank_trimmed_of(&item.process_name);
    let title = nonblank_trimmed_of(&item.process_title);
    match (title, name) {
        (Some(t), Some(n)) => {
            let mut r = t;
            r.append(" | ");
            r.append(n.as_str());
            r
        },
        (Some(t), None) => t,
        (None, Some(n)) => n,
        (None, None) => "Waken-Wa".to_string(),
    }
}

/// The first line of the presence: the status text, or the fallback
/// details, with its words joined by single spaces.
pub open spec fn presence_details(item: PublicActivityItem) -> Seq<char> {
    collapse_ws(
        match nonblank_trimmed(item.status_text) {
            Some(s) => s,
            None => fallback_details_spec(item),
        },
    )
}

/// The second line of the presence: the device, when it has one.
pub open spec fn presence_state(item: PublicActivityItem) -> Option<Seq<char>> {
    match nonblank_trimmed(item.device) {
        Some(d) => Some(collapse_ws(d)),
        None => None,
    }
}

/// The one-line summary: the details, then ` · ` and the device when
/// there is one.
pub open spec fn presence_summary(item: PublicActivityItem) -> Seq<char> {
    match presence_state(item) {
        Some(d) => presence_details(item) + " · "@ + d,
        None => presence_details(item),
    }
}

/// The presence for `item`, given `started_at_millis`, the start time that
/// its `started_at` names.
pub fn presence_from_parts(item: &PublicActivityItem, started_at_millis: Option<i64>) -> (r:
    DiscordPresencePayload)
    ensures
        r.details@ == presence_details(*item),
        opt_seq(r.state) == presence_state(*item),
        r.summary@ == presence_summary(*item),
        r.started_at_millis == started_at_millis,
{
    let source = match nonblank_trimmed_of(&item.status_text) {
        Some(s) => s,
        None => fallback_details(item),
    };
    let details = normalize_presence_line(source.as_str());
    let state = match nonblank_trimmed_of(&item.device) {
        Some(d) => Some(normalize_presence_line(d.as_str())),
        None => None,
    };
    let summary = match &state {
        Some(device) => {
            let mut s = details.clone();
            s.append(" · ");
            s.append(device.as_str());
            s
        },
        None => details.clone(),
    };
    DiscordPresencePayload { details, state, started_at_millis, summary }
}

/// The instant, in milliseconds since the Unix epoch, that the RFC 3339
/// text `text` names; none when it is not RFC 3339.
pub uninterp spec fn rfc3339_timestamp_millis(text: Seq<char>) -> Option<i64>;

/// `chrono::DateTime::parse_from_rfc3339` on `value`, and
/// `DateTime::timestamp_millis` of what it parsed.  Claimed: the result is
/// `rfc3339_timestamp_millis` of the text, which depends on the text alone.
#[verifier::external_body]
fn parse_started_at_millis(value: &str) -> (r: Option<i64>)
    ensures
        r == rfc3339_timestamp_millis(value@),
{
    match chrono::DateTime::parse_from_rfc3339(value) {
        Ok(timestamp) => Some(timestamp.timestamp_millis()),
        Err(_) => None,
    }
}

/// The start time an activity names, when it names one.
pub open spec fn item_started_at_millis(item: PublicActivityItem) -> Option<i64> {
    match item.started_at {
        Some(s) => rfc3339_timestamp_millis(s@),
        None => None,
    }
}

/// The presence shown in Discord for `item`.
pub fn map_activity_to_presence(item: &PublicActivityItem) -> (r: DiscordPresencePayload)
    ensures
        r.details@ == presence_details(*item),
        opt_seq(r.state) == presence_state(*item),
        r.summary@ == presence_summary(*item),
        r.started_at_millis == item_started_at_millis(*item),
{
    let started_at_millis = match &item.started_at {
        Some(s) => parse_started_at_millis(s.as_str()),
        None => None,
    };
    presence_from_parts(item, started_at_millis)
}

} // verus!

verus! {

/// `x` is a collapsed line: no whitespace at either end, and every
/// whitespace character a single space between two other characters.
pub open spec fn is_collapsed(x: Seq<char>) -> bool {
    forall|i: int|
        0 <= i < x.len() && is_ws(#[trigger] x[i]) ==> x[i] == ' ' && 0 < i < x.len() - 1 && !is_ws(
            x[i - 1],
        ) && !is_ws(x[i + 1])
}

proof fn lemma_collapse_ws_collapsed(s: Seq<char>)
    ensures
        is_collapsed(collapse_ws(s)),
    decreases s.len(),
{
    if s.len() > 0 {
        let p = s.drop_last();
        lemma_collapse_ws_collapsed(p);
        lemma_collapse_ws_ends(p);
        let cp = collapse_ws(p);
        let c = s.last();
        if !is_ws(c) {
            let r = collapse_ws(s);
            if p.len() > 0 && is_ws(p.last()) && cp.len() > 0 {
                assert(r == cp.push(' ').push(c));
                assert forall|i: int| 0 <= i < r.len() && is_ws(#[trigger] r[i]) implies r[i] == ' '
                    && 0 < i < r.len() - 1 && !is_ws(r[i - 1]) && !is_ws(r[i + 1]) by {
                    if i < cp.len() {
                        assert(r[i] == cp[i]);
                        if i + 1 < cp.len() {
                            assert(r[i + 1] == cp[i + 1]);
                        }
                        if i > 0 {
                            assert(r[i - 1] == cp[i - 1]);
                        }
                    }
                }
            } else {
                assert(r == cp.push(c));
                assert forall|i: int| 0 <= i < r.len() && is_ws(#[trigger] r[i]) implies r[i] == ' '
                    && 0 < i < r.len() - 1 && !is_ws(r[i - 1]) && !is_ws(r[i + 1]) by {
                    assert(r[i] == cp[i]);
                    if i + 1 < cp.len() {
                        assert(r[i + 1] == cp[i + 1]);
                    }
                    if i > 0 {
                        assert(r[i - 1] == cp[i - 1]);
                    }
                }
            }
        }
    }
}

proof fn lemma_collapsed_fixed(x: Seq<char>)
    requires
        is_collapsed(x),
    ensures
        collapse_ws(x) == x,
    decreases x.len(),
{
    if x.len() > 0 {
        let c = x.last();
        let p = x.drop_last();
        if is_ws(c) {
            assert(is_ws(x[x.len() - 1]));
        }
        assert(!is_ws(c));
        if p.len() > 0 && is_ws(p.last()) {
            assert(is_ws(x[p.len() - 1]));
            let q = p.drop_last();
            assert(q.len() > 0);
            assert(is_collapsed(q)) by {
                assert forall|i: int| 0 <= i < q.len() && is_ws(#[trigger] q[i]) implies q[i] == ' '
                    && 0 < i < q.len() - 1 && !is_ws(q[i - 1]) && !is_ws(q[i + 1]) by {
                    assert(q[i] == x[i]);
                    assert(is_ws(x[i]));
                    assert(x[i + 1] == q[i + 1] || i + 1 == q.len());
                }
            }
            lemma_collapsed_fixed(q);
            assert(!is_ws(q.last()));
            assert(collapse_ws(p) == collapse_ws(q));
            assert(x =~= q.push(' ').push(c));
        } else {
            assert(is_collapsed(p)) by {
                assert forall|i: int| 0 <= i < p.len() && is_ws(#[trigger] p[i]) implies p[i] == ' '
                    && 0 < i < p.len() - 1 && !is_ws(p[i - 1]) && !is_ws(p[i + 1]) by {
                    assert(p[i] == x[i]);
                    assert(is_ws(x[i]));
                }
            }
            lemma_collapsed_fixed(p);
            assert(x =~= p.push(c));
        }
    }
}

/// A presence line, once normalized, stays the same when normalized
/// again.
pub proof fn lemma_collapse_ws_idempotent(s: Seq<char>)
    ensures
        collapse_ws(collapse_ws(s)) == collapse_ws(s),
{
    lemma_collapse_ws_collapsed(s);
    lemma_collapsed_fixed(collapse_ws(s));
}

} // verus!
