//! Reading `xprop` output on X11.
use vstd::prelude::*;

use crate::text::{
    chars_of, has_prefix, is_blank, is_ws, lines, lines_of, parse_unsigned, parse_unsigned_str,
    starts_with, string_from_chars, trim, trim_str,
};

verus! {

/// The text between the first `c` of `s` and the next one (or the end),
/// when `s` holds a `c` (`s.split(c).nth(1)`).
pub open spec fn second_field(s: Seq<char>, c: char) -> Option<Seq<char>> {
    if exists|i: int| 0 <= i < s.len() && s[i] == c {
        let i = choose|i: int| 0 <= i < s.len() && s[i] == c && forall|j: int| 0 <= j < i ==> s[j] != c;
        let rest = s.subrange(i + 1, s.len() as int);
        if exists|k: int| 0 <= k < rest.len() && rest[k] == c {
            let k = choose|k: int|
                0 <= k < rest.len() && rest[k] == c && forall|j: int| 0 <= j < k ==> rest[j] != c;
            Some(rest.subrange(0, k))
        } else {
            Some(rest)
        }
    } else {
        None
    }
}

/// The position of the first `c` in `v[from..]`, or the length.
fn find_char(v: &Vec<char>, from: usize, c: char) -> (r: usize)
    requires
        from <= v.len(),
    ensures
        from <= r <= v.len(),
        r < v.len() ==> v@[r as int] == c,
        forall|j: int| from <= j < r ==> v@[j] != c,
{
    let mut i = from;
    while i < v.len() && v[i] != c
        invariant
            from <= i <= v.len(),
            forall|j: int| from <= j < i ==> v@[j] != c,
        decreases v.len() - i,
    {
        i = i + 1;
    }
    i
}

/// The text between the first `c` and the next one.
pub fn second_field_of(s: &str, c: char) -> (r: Option<String>)
    ensures
        crate::text::opt_seq(r) == second_field(s@, c),
{
    let v = chars_of(s);
    let i = find_char(&v, 0, c);
    if i == v.len() {
        assert(!exists|k: int| 0 <= k < s@.len() && s@[k] == c);
        return None;
    }
    let k = find_char(&v, i + 1, c);
    let r = string_from_chars(&v, i + 1, k);
    proof {
        let ii = choose|i: int| 0 <= i < s@.len() && s@[i] == c && forall|j: int| 0 <= j < i ==> s@[j] != c;
        assert(ii == i as int) by {
            if ii < i {
            } else if ii > i {
                assert(s@[i as int] == c);
            }
        }
        let rest = s@.subrange(i + 1, s@.len() as int);
        if k < v.len() {
            assert(rest[k - i - 1] == c);
            let kk = choose|kk: int|
                0 <= kk < rest.len() && rest[kk] == c && forall|j: int| 0 <= j < kk ==> rest[j] != c;
            assert(kk == k - i - 1) by {
                if kk < k - i - 1 {
                    assert(rest[kk] == v@[kk + i + 1]);
                } else if kk > k - i - 1 {
                }
            }
            assert(r@ =~= rest.subrange(0, kk));
        } else {
            assert forall|kk: int| 0 <= kk < rest.len() implies rest[kk] != c by {
                assert(rest[kk] == v@[kk + i + 1]);
            }
            assert(r@ =~= rest);
        }
    }
    Some(r)
}

/// The first whitespace-separated word of `s` (`split_whitespace().next()`).
pub open spec fn first_word(s: Seq<char>) -> Option<Seq<char>> {
    let t = crate::text::trim_start(s);
    if t.len() == 0 {
        None
    } else if exists|i: int| 0 <= i < t.len() && is_ws(t[i]) {
        let i = choose|i: int| 0 <= i < t.len() && is_ws(t[i]) && forall|j: int| 0 <= j < i ==> !is_ws(t[j]);
        Some(t.subrange(0, i))
    } else {
        Some(t)
    }
}

/// The window identifier in `xprop -root _NET_ACTIVE_WINDOW` output: the
/// first word after `#`.
pub open spec fn active_window_id(stdout: Seq<char>) -> Option<Seq<char>> {
    match second_field(stdout, '#') {
        Some(f) => first_word(trim(f)),
        None => None,
    }
}

/// The first word of a trimmed text.
fn first_word_of_trimmed(s: &str) -> (r: Option<String>)
    ensures
        crate::text::opt_seq(r) == first_word(s@),
{
    let v = chars_of(s);
    let mut a: usize = 0;
    while a < v.len() && crate::text::char_is_whitespace(v[a])
        invariant
            a <= v.len(),
            v@ == s@,
            forall|j: int| 0 <= j < a ==> is_ws(#[trigger] v@[j]),
        decreases v.len() - a,
    {
        a = a + 1;
    }
    let ghost t = crate::text::trim_start(s@);
    proof {
        lemma_trim_start_at(s@, a as int);
    }
    if a == v.len() {
        return None;
    }
    let mut b = a;
    while b < v.len() && !crate::text::char_is_whitespace(v[b])
        invariant
            a <= b <= v.len(),
            v@ == s@,
            forall|j: int| a <= j < b ==> !is_ws(#[trigger] v@[j]),
        decreases v.len() - b,
    {
        b = b + 1;
    }
    let r = string_from_chars(&v, a, b);
    proof {
        assert(t =~= s@.subrange(a as int, s@.len() as int));
        if b < v.len() {
            assert(is_ws(t[b - a]));
            let i = choose|i: int| 0 <= i < t.len() && is_ws(t[i]) && forall|j: int| 0 <= j < i ==> !is_ws(t[j]);
            assert(i == b - a) by {
                if i < b - a {
                    assert(t[i] == v@[i + a]);
                }
            }
            assert(r@ =~= t.subrange(0, i));
        } else {
            assert forall|i: int| 0 <= i < t.len() implies !is_ws(t[i]) by {
                assert(t[i] == v@[i + a]);
            }
            assert(r@ =~= t);
        }
    }
    Some(r)
}

proof fn lemma_trim_start_at(s: Seq<char>, a: int)
    requires
        0 <= a <= s.len(),
        forall|j: int| 0 <= j < a ==> is_ws(#[trigger] s[j]),
        a == s.len() || !is_ws(s[a]),
    ensures
        crate::text::trim_start(s) =~= s.subrange(a, s.len() as int),
    decreases a,
{
    if a == 0 {
        assert(s.subrange(0, s.len() as int) =~= s);
    } else {
        let t = s.drop_first();
        assert forall|j: int| 0 <= j < a - 1 implies is_ws(#[trigger] t[j]) by {
            assert(t[j] == s[j + 1]);
        }
        lemma_trim_start_at(t, a - 1);
        assert(t.subrange(a - 1, t.len() as int) =~= s.subrange(a, s.len() as int));
    }
}

/// The active window's identifier in `xprop -root _NET_ACTIVE_WINDOW`
/// output.
pub fn parse_active_window_id(stdout: &str) -> (r: Option<String>)
    ensures
        crate::text::opt_seq(r) == active_window_id(stdout@),
{
    match second_field_of(stdout, '#') {
        Some(f) => {
            let t = trim_str(f.as_str());
            first_word_of_trimmed(t.as_str())
        },
        None => None,
    }
}

/// What `extract_quoted_values` has read of a line: the quoted texts it
/// has closed, and the one it is inside of, if any.
pub open spec fn quoted_scan(s: Seq<char>) -> (Seq<Seq<char>>, Option<Seq<char>>)
    decreases s.len(),
{
    if s.len() == 0 {
        (Seq::empty(), None)
    } else {
        let (vals, open) = quoted_scan(s.drop_last());
        let c = s.last();
        if c == '"' {
            match open {
                Some(cur) => (vals.push(cur), None),
                None => (vals, Some(Seq::empty())),
            }
        } else {
            match open {
                Some(cur) => (vals, Some(cur.push(c))),
                None => (vals, None),
            }
        }
    }
}

/// The texts between successive pairs of double quotes in `line`.
pub open spec fn quoted_values(line: Seq<char>) -> Seq<Seq<char>> {
    quoted_scan(line).0
}

/// The view of a list of strings.
pub open spec fn strings_view(v: Seq<String>) -> Seq<Seq<char>> {
    v.map_values(|s: String| s@)
}

/// The texts between successive pairs of double quotes in `line`.
pub fn extract_quoted_values(line: &str) -> (r: Vec<String>)
    ensures
        strings_view(r@) == quoted_values(line@),
{
    let v = chars_of(line);
    let mut values: Vec<String> = Vec::new();
    let mut start: Option<usize> = None;
    let mut i: usize = 0;
    while i < v.len()
        invariant
            i <= v.len(),
            v@ == line@,
            strings_view(values@) == quoted_scan(v@.subrange(0, i as int)).0,
            match start {
                Some(b) => b <= i && quoted_scan(v@.subrange(0, i as int)).1 == Some(
                    v@.subrange(b as int, i as int),
                ),
                None => quoted_scan(v@.subrange(0, i as int)).1 is None,
            },
        decreases v.len() - i,
    {
        let c = v[i];
        assert(v@.subrange(0, i + 1).drop_last() =~= v@.subrange(0, i as int));
        if c == '"' {
            match start {
                Some(b) => {
                    let s = string_from_chars(&v, b, i);
                    let ghost before = values@;
                    values.push(s);
                    assert(strings_view(values@) =~= strings_view(before).push(s@));
                    start = None;
                },
                None => {
                    start = Some(i + 1);
                    assert(v@.subrange(i + 1, i + 1) =~= Seq::<char>::empty());
                },
            }
        } else {
            if let Some(b) = start {
                assert(v@.subrange(b as int, i + 1) =~= v@.subrange(b as int, i as int).push(c));
            }
        }
        i = i + 1;
    }
    assert(v@.subrange(0, v.len() as int) =~= v@);
    values
}

/// The class in `xprop` output: of the first `WM_CLASS` line with quoted
/// values, its second value, or its only one.
pub open spec fn wm_class_from(ls: Seq<Seq<char>>) -> Option<Seq<char>>
    decreases ls.len(),
{
    if ls.len() == 0 {
        None
    } else {
        let rest = wm_class_from(ls.drop_first());
        let l = ls[0];
        if has_prefix(l, "WM_CLASS"@) {
            let vals = quoted_values(l);
            if vals.len() >= 2 {
                Some(vals[1])
            } else if vals.len() == 1 {
                Some(vals[0])
            } else {
                rest
            }
        } else {
            rest
        }
    }
}

/// The window class in `xprop` output.
pub fn parse_wm_class(stdout: &str) -> (r: Option<String>)
    ensures
        crate::text::opt_seq(r) == wm_class_from(lines(stdout@)),
{
    let ls = lines_of(stdout);
    let ghost all = lines(stdout@);
    proof {
        reveal_strlit("WM_CLASS");
    }
    let mut i: usize = 0;
    assert(all.subrange(0, all.len() as int) =~= all);
    while i < ls.len()
        invariant
            i <= ls.len(),
            strings_view(ls@) == all,
            all == lines(stdout@),
            wm_class_from(all) == wm_class_from(all.subrange(i as int, all.len() as int)),
        decreases ls.len() - i,
    {
        let ghost rest = all.subrange(i as int, all.len() as int);
        assert(rest.drop_first() =~= all.subrange(i + 1, all.len() as int));
        assert(rest[0] == ls@[i as int]@);
        if starts_with(ls[i].as_str(), "WM_CLASS") {
            let values = extract_quoted_values(ls[i].as_str());
            assert(wm_class_from(rest) == {
                let vals = quoted_values(rest[0]);
                if vals.len() >= 2 {
                    Some(vals[1])
                } else if vals.len() == 1 {
                    Some(vals[0])
                } else {
                    wm_class_from(rest.drop_first())
                }
            });
            if values.len() >= 2 {
                assert(strings_view(values@)[1] == values@[1]@);
                return Some(values[1].clone());
            }
            if values.len() == 1 {
                assert(strings_view(values@)[0] == values@[0]@);
                return Some(values[0].clone());
            }
        }
        i = i + 1;
    }
    None
}

/// The first quoted value of the first line of `ls` that starts with
/// `key` and has one.
pub open spec fn first_quoted_with(ls: Seq<Seq<char>>, key: Seq<char>) -> Option<Seq<char>>
    decreases ls.len(),
{
    if ls.len() == 0 {
        None
    } else if has_prefix(ls[0], key) && quoted_values(ls[0]).len() > 0 {
        Some(quoted_values(ls[0])[0])
    } else {
        first_quoted_with(ls.drop_first(), key)
    }
}

fn first_quoted_value_with(ls: &Vec<String>, key: &str) -> (r: Option<String>)
    ensures
        crate::text::opt_seq(r) == first_quoted_with(strings_view(ls@), key@),
{
    let ghost all = strings_view(ls@);
    let mut i: usize = 0;
    assert(all.subrange(0, all.len() as int) =~= all);
    while i < ls.len()
        invariant
            i <= ls.len(),
            all == strings_view(ls@),
            first_quoted_with(all, key@) == first_quoted_with(
                all.subrange(i as int, all.len() as int),
                key@,
            ),
        decreases ls.len() - i,
    {
        let ghost rest = all.subrange(i as int, all.len() as int);
        assert(rest.drop_first() =~= all.subrange(i + 1, all.len() as int));
        assert(rest[0] == ls@[i as int]@);
        if starts_with(ls[i].as_str(), key) {
            let values = extract_quoted_values(ls[i].as_str());
            if values.len() > 0 {
                return Some(values[0].clone());
            }
        }
        i = i + 1;
    }
    None
}

/// The window title in `xprop` output: the first quoted value of a
/// `_NET_WM_NAME` line, else of a `WM_NAME` line.
pub open spec fn window_title_from(ls: Seq<Seq<char>>) -> Option<Seq<char>> {
    match first_quoted_with(ls, "_NET_WM_NAME"@) {
        Some(t) => Some(t),
        None => first_quoted_with(ls, "WM_NAME"@),
    }
}

/// The window title in `xprop` output.
pub fn parse_window_title(stdout: &str) -> (r: Option<String>)
    ensures
        crate::text::opt_seq(r) == window_title_from(lines(stdout@)),
{
    let ls = lines_of(stdout);
    match first_quoted_value_with(&ls, "_NET_WM_NAME") {
        Some(t) => Some(t),
        None => first_quoted_value_with(&ls, "WM_NAME"),
    }
}

/// The process id in `xprop` output: from the first `_NET_WM_PID` line,
/// the text after `=` (up to a further `=`), trimmed, when it is a `u32`.
/// A `_NET_WM_PID` line without `=` ends the search.
pub open spec fn window_pid_from(ls: Seq<Seq<char>>) -> Option<nat>
    decreases ls.len(),
{
    if ls.len() == 0 {
        None
    } else if has_prefix(ls[0], "_NET_WM_PID"@) {
        match second_field(ls[0], '=') {
            None => None,
            Some(raw) => match parse_unsigned(trim(raw), 0xffff_ffff) {
                Some(pid) => Some(pid),
                None => window_pid_from(ls.drop_first()),
            },
        }
    } else {
        window_pid_from(ls.drop_first())
    }
}

/// The window's process id in `xprop` output.
pub fn parse_window_pid(stdout: &str) -> (r: Option<u32>)
    ensures
        match r {
            Some(p) => window_pid_from(lines(stdout@)) == Some(p as nat),
            None => window_pid_from(lines(stdout@)) is None,
        },
{
    let ls = lines_of(stdout);
    let ghost all = lines(stdout@);
    proof {
        reveal_strlit("_NET_WM_PID");
    }
    let mut i: usize = 0;
    assert(all.subrange(0, all.len() as int) =~= all);
    while i < ls.len()
        invariant
            i <= ls.len(),
            strings_view(ls@) == all,
            all == lines(stdout@),
            window_pid_from(all) == window_pid_from(all.subrange(i as int, all.len() as int)),
        decreases ls.len() - i,
    {
        let ghost rest = all.subrange(i as int, all.len() as int);
        assert(rest.drop_first() =~= all.subrange(i + 1, all.len() as int));
        assert(rest[0] == ls@[i as int]@);
        if starts_with(ls[i].as_str(), "_NET_WM_PID") {
            assert(window_pid_from(rest) == match second_field(rest[0], '=') {
                None => None,
                Some(raw) => match parse_unsigned(trim(raw), 0xffff_ffff) {
                    Some(pid) => Some(pid),
                    None => window_pid_from(rest.drop_first()),
                },
            });
            let raw = match second_field_of(ls[i].as_str(), '=') {
                Some(r) => r,
                None => {
                    return None;
                },
            };
            let t = trim_str(raw.as_str());
            if let Some(pid) = parse_unsigned_str(t.as_str(), 0xffff_ffff) {
                return Some(pid as u32);
            }
        }
        i = i + 1;
    }
    None
}

} // verus!
