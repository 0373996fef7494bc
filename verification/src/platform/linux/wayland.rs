//! Reading the focused window on Wayland: GNOME's Focused Window D-Bus
//! extension, through `gdbus`, or KDE's `kdotool`.
use vstd::prelude::*;

use crate::json::{field, opt_data, text_of, JsonData, JsonValue};
use crate::platform::ForegroundSnapshot;
use crate::text::{chars_of, is_blank, is_blank_str, push_char, trim, trim_str};

verus! {

/// What `parse_gdbus_string_tuple` has read after the first quote: the
/// text so far, whether a backslash is pending, and whether the closing
/// quote was found.
pub open spec fn tuple_scan(s: Seq<char>) -> (Seq<char>, bool, bool)
    decreases s.len(),
{
    if s.len() == 0 {
        (Seq::empty(), false, false)
    } else {
        scan_step(tuple_scan(s.drop_last()), s.last())
    }
}

/// One character of `tuple_scan`.
pub open spec fn scan_step(p: (Seq<char>, bool, bool), c: char) -> (Seq<char>, bool, bool) {
    if p.2 {
        p
    } else if p.1 {
        (p.0.push(unescape(c)), false, false)
    } else if c == '\\' {
        (p.0, true, false)
    } else if c == '\'' {
        (p.0, false, true)
    } else {
        (p.0.push(c), false, false)
    }
}

/// The character a backslash escape stands for.
pub open spec fn unescape(c: char) -> char {
    if c == 'n' {
        '\n'
    } else if c == 'r' {
        '\r'
    } else if c == 't' {
        '\t'
    } else {
        c
    }
}

/// The position of the first `'` in `s`, if any.
pub open spec fn first_quote(s: Seq<char>) -> Option<int> {
    if exists|i: int| 0 <= i < s.len() && s[i] == '\'' {
        Some(choose|i: int| 0 <= i < s.len() && s[i] == '\'' && forall|j: int| 0 <= j < i ==> s[j] != '\'')
    } else {
        None
    }
}

/// The string in `gdbus` output such as `('text',)`: the characters after
/// the first `'` up to the closing one, with `\n`, `\r`, `\t` and other
/// backslash escapes resolved; none when there is no closing quote.
pub open spec fn gdbus_string_tuple(stdout: Seq<char>) -> Option<Seq<char>> {
    match first_quote(stdout) {
        Some(i) => {
            let (v, _, done) = tuple_scan(stdout.subrange(i + 1, stdout.len() as int));
            if done {
                Some(v)
            } else {
                None
            }
        },
        None => None,
    }
}

/// The position of the first `'` in `v`.
pub fn quote_position(v: &Vec<char>) -> (r: Option<usize>)
    ensures
        match r {
            Some(i) => first_quote(v@) == Some(i as int) && i < v.len(),
            None => first_quote(v@) is None,
        },
{
    let mut i: usize = 0;
    while i < v.len() && v[i] != '\''
        invariant
            i <= v.len(),
            forall|j: int| 0 <= j < i ==> v@[j] != '\'',
        decreases v.len() - i,
    {
        i = i + 1;
    }
    if i == v.len() {
        return None;
    }
    proof {
        let k = choose|k: int| 0 <= k < v@.len() && v@[k] == '\'' && forall|j: int| 0 <= j < k ==> v@[j] != '\'';
        assert(k == i as int) by {
            if k > i {
                assert(v@[i as int] == '\'');
            }
        }
    }
    Some(i)
}

proof fn lemma_tuple_scan_done(s: Seq<char>, i: int)
    requires
        0 <= i <= s.len(),
        tuple_scan(s.subrange(0, i)).2,
    ensures
        tuple_scan(s) == tuple_scan(s.subrange(0, i)),
    decreases s.len() - i,
{
    if i < s.len() {
        assert(s.subrange(0, i + 1).drop_last() =~= s.subrange(0, i));
        lemma_tuple_scan_done(s, i + 1);
    } else {
        assert(s.subrange(0, i) =~= s);
    }
}

/// The string in `gdbus` output such as `('text',)`.
pub fn parse_gdbus_string_tuple(stdout: &str) -> (r: Option<String>)
    ensures
        crate::text::opt_seq(r) == gdbus_string_tuple(stdout@),
{
    let v = chars_of(stdout);
    let start = match quote_position(&v) {
        Some(i) => i,
        None => {
            return None;
        },
    };
    let ghost rest = v@.subrange(start + 1, v.len() as int);
    let mut value = String::new();
    let mut escaped = false;
    let mut i: usize = start + 1;
    while i < v.len()
        invariant
            start + 1 <= i <= v.len(),
            v@ == stdout@,
            rest == v@.subrange(start + 1, v.len() as int),
            first_quote(stdout@) == Some(start as int),
            tuple_scan(rest.subrange(0, i - start - 1)) == (value@, escaped, false),
        decreases v.len() - i,
    {
        let c = v[i];
        let ghost k = i - start - 1;
        proof {
            assert(rest.subrange(0, k + 1).drop_last() =~= rest.subrange(0, k));
            assert(rest.subrange(0, k + 1).last() == c);
            assert(tuple_scan(rest.subrange(0, k + 1)) == scan_step((value@, escaped, false), c));
        }
        if escaped {
            let u = if c == 'n' {
                '\n'
            } else if c == 'r' {
                '\r'
            } else if c == 't' {
                '\t'
            } else {
                c
            };
            push_char(&mut value, u);
            escaped = false;
        } else if c == '\\' {
            escaped = true;
        } else if c == '\'' {
            proof {
                lemma_tuple_scan_done(rest, k + 1);
            }
            return Some(value);
        } else {
            push_char(&mut value, c);
        }
        i = i + 1;
    }
    assert(rest.subrange(0, rest.len() as int) =~= rest);
    None
}

/// A JSON field's string, trimmed, when it is a string that is not blank.
pub open spec fn trimmed_text(v: Option<JsonData>) -> Option<Seq<char>> {
    match v {
        Some(JsonData::Text(s)) => if is_blank(s) {
            None
        } else {
            Some(trim(s))
        },
        _ => None,
    }
}

/// A JSON field's string, trimmed, when it is a string that is not blank.
pub fn value_as_trimmed_string(value: Option<&JsonValue>) -> (r: Option<String>)
    ensures
        crate::text::opt_seq(r) == trimmed_text(
            match value {
                Some(v) => Some(v@),
                None => None,
            },
        ),
{
    match value {
        Some(JsonValue::Text(s)) => if is_blank_str(s.as_str()) {
            None
        } else {
            Some(trim_str(s.as_str()))
        },
        _ => None,
    }
}

/// The focused window that the GNOME extension describes in `payload`:
/// its process is the first of `wm_class_instance`, `wm_class` and
/// `app_id` that is a non-blank string, its title the trimmed `title`.
pub open spec fn gnome_snapshot(payload: JsonData) -> Result<(Seq<char>, Seq<char>), Seq<char>> {
    let name = match trimmed_text(field(payload, "wm_class_instance"@)) {
        Some(n) => Some(n),
        None => match trimmed_text(field(payload, "wm_class"@)) {
            Some(n) => Some(n),
            None => trimmed_text(field(payload, "app_id"@)),
        },
    };
    match name {
        Some(n) => Ok(
            (
                n,
                match trimmed_text(field(payload, "title"@)) {
                    Some(t) => t,
                    None => Seq::empty(),
                },
            ),
        ),
        None => Err("Focused Window D-Bus 未返回可用的窗口类名。"@),
    }
}

/// The focused window that the GNOME extension describes in `payload`.
pub fn gnome_snapshot_from(payload: &JsonValue) -> (r: Result<ForegroundSnapshot, String>)
    ensures
        match (r, gnome_snapshot(payload@)) {
            (Ok(s), Ok((n, t))) => s.process_name@ == n && s.process_title@ == t,
            (Err(e), Err(m)) => e@ == m,
            _ => false,
        },
{
    let name = match value_as_trimmed_string(payload.get("wm_class_instance")) {
        Some(n) => Some(n),
        None => match value_as_trimmed_string(payload.get("wm_class")) {
            Some(n) => Some(n),
            None => value_as_trimmed_string(payload.get("app_id")),
        },
    };
    match name {
        Some(process_name) => {
            let process_title = match value_as_trimmed_string(payload.get("title")) {
                Some(t) => t,
                None => String::new(),
            };
            Ok(ForegroundSnapshot { process_name, process_title })
        },
        None => Err("Focused Window D-Bus 未返回可用的窗口类名。".to_owned()),
    }
}

/// The message when the GNOME extension's answer is not its string.
pub fn gnome_unparsable() -> (r: String)
    ensures
        r@ == "无法解析 Focused Window D-Bus 返回值。"@,
{
    "无法解析 Focused Window D-Bus 返回值。".to_owned()
}

/// The message when the GNOME extension's string is not JSON.
pub fn gnome_json_error(error: &str) -> (r: String)
    ensures
        r@ == "解析 Focused Window D-Bus JSON 失败："@ + error@,
{
    let mut m = "解析 Focused Window D-Bus JSON 失败：".to_owned();
    m.append(error);
    proof {
        reveal_strlit("解析 Focused Window D-Bus JSON 失败：");
    }
    m
}

/// The focused window from `kdotool` readings: the active window's id,
/// and its class and title when they were asked for (`None` when not).
/// Window `0` means no active window; a requested class must not be
/// empty.
pub fn kdotool_snapshot(window_id: &str, class_name: Option<String>, title: Option<String>) -> (r:
    Result<ForegroundSnapshot, String>)
    ensures
        window_id@ == "0"@ ==> r is Err && r->Err_0@ == "当前没有活动窗口。"@,
        window_id@ != "0"@ && class_name is Some && class_name->Some_0@.len() == 0 ==> r is Err
            && r->Err_0@ == "kdotool 未返回窗口类名。"@,
        window_id@ != "0"@ && !(class_name is Some && class_name->Some_0@.len() == 0) ==> r is Ok
            && r->Ok_0.process_name@ == (match class_name {
            Some(c) => c@,
            None => Seq::empty(),
        }) && r->Ok_0.process_title@ == (match title {
            Some(t) => t@,
            None => Seq::empty(),
        }),
{
    if crate::text::str_eq(window_id, "0") {
        return Err("当前没有活动窗口。".to_owned());
    }
    let process_name = match class_name {
        Some(c) => {
            if c.as_str().is_empty() {
                return Err("kdotool 未返回窗口类名。".to_owned());
            }
            c
        },
        None => String::new(),
    };
    let process_title = match title {
        Some(t) => t,
        None => String::new(),
    };
    Ok(ForegroundSnapshot { process_name, process_title })
}

/// The message when no Wayland reader worked: the errors of each, joined
/// by `；`.
pub fn wayland_failure(gnome_error: &str, kde_error: &str) -> (r: String)
    ensures
        r@ == "Wayland 前台窗口采集失败。GNOME Focused Window D-Bus："@ + gnome_error@
            + "；KDE kdotool："@ + kde_error@,
{
    let mut m = "Wayland 前台窗口采集失败。GNOME Focused Window D-Bus：".to_owned();
    m.append(gnome_error);
    m.append("；KDE kdotool：");
    m.append(kde_error);
    proof {
        reveal_strlit("Wayland 前台窗口采集失败。GNOME Focused Window D-Bus：");
        reveal_strlit("；KDE kdotool：");
    }
    m
}

} // verus!
