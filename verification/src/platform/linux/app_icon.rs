//! The icon of the application that plays media: the desktop entries to
//! look for, the `Icon=` key of the entry found, the best icon file of
//! that name, and the data URL of that file.  Listing directories and
//! reading files is left to the caller.
use vstd::prelude::*;

use crate::codec::{base64_standard_encoded, encode_base64_standard};
use crate::platform::linux::media::{bytes_start_with, looks_like_svg, starts_with_bytes, svg_sample};
use crate::platform::{image_bytes_to_png_data_url, png_icon_bytes};
use crate::text::{
    ascii_lower_seq, ascii_lowercase, chars_of, contains, contains_str, decimal, has_suffix, lines,
    lines_of, push_char, str_eq, string_from_chars, trim, trim_str, u64_to_decimal,
};

verus! {

/// The position of the last `c` in `s`.
pub open spec fn last_index_of(s: Seq<char>, c: char) -> Option<int>
    decreases s.len(),
{
    if s.len() == 0 {
        None
    } else if s.last() == c {
        Some(s.len() - 1)
    } else {
        last_index_of(s.drop_last(), c)
    }
}

/// What follows the last `sep` in `s`, or all of `s` when there is none
/// (`s.rsplit(sep).next()`).
pub open spec fn after_last(s: Seq<char>, sep: char) -> Seq<char> {
    match last_index_of(s, sep) {
        Some(i) => s.subrange(i + 1, s.len() as int),
        None => s,
    }
}

proof fn lemma_last_index_bounds(s: Seq<char>, c: char)
    ensures
        match last_index_of(s, c) {
            Some(i) => 0 <= i < s.len() && s[i] == c,
            None => forall|k: int| 0 <= k < s.len() ==> s[k] != c,
        },
    decreases s.len(),
{
    if s.len() > 0 && s.last() != c {
        lemma_last_index_bounds(s.drop_last(), c);
        assert forall|k: int| 0 <= k < s.len() - 1 implies s[k] == s.drop_last()[k] by {}
    }
}

/// The last file name of a Unix path (`Path::file_name`): trailing
/// slashes and `.` components are passed over; none for a path that ends
/// in `..`, or has no name at all (`/`, `.`).
pub open spec fn path_file_name(p: Seq<char>) -> Option<Seq<char>>
    decreases p.len(),
{
    if p.len() == 0 {
        None
    } else if p.last() == '/' {
        path_file_name(p.drop_last())
    } else {
        let seg = after_last(p, '/');
        if seg == seq!['.'] {
            if p.len() == 1 {
                None
            } else {
                path_file_name(p.drop_last())
            }
        } else if seg == seq!['.', '.'] {
            None
        } else {
            Some(seg)
        }
    }
}

/// A file name without its extension (`Path::file_stem`): a leading dot
/// starts no extension.
pub open spec fn name_stem(n: Seq<char>) -> Seq<char> {
    match last_index_of(n, '.') {
        Some(i) => if i == 0 {
            n
        } else {
            n.subrange(0, i)
        },
        None => n,
    }
}

/// The extension of a file name (`Path::extension`).
pub open spec fn name_extension(n: Seq<char>) -> Option<Seq<char>> {
    match last_index_of(n, '.') {
        Some(i) => if i == 0 {
            None
        } else {
            Some(n.subrange(i + 1, n.len() as int))
        },
        None => None,
    }
}

/// The file stem of a path.
pub open spec fn path_file_stem(p: Seq<char>) -> Option<Seq<char>> {
    match path_file_name(p) {
        Some(n) => Some(name_stem(n)),
        None => None,
    }
}

/// The extension of a path.
pub open spec fn path_extension(p: Seq<char>) -> Option<Seq<char>> {
    match path_file_name(p) {
        Some(n) => name_extension(n),
        None => None,
    }
}

/// The last position of `c` in `v[from..end]`.
fn last_index_between(v: &Vec<char>, from: usize, end: usize, c: char) -> (r: Option<usize>)
    requires
        from <= end <= v.len(),
    ensures
        match r {
            Some(i) => from <= i < end && last_index_of(v@.subrange(from as int, end as int), c)
                == Some(i - from),
            None => last_index_of(v@.subrange(from as int, end as int), c) is None,
        },
{
    let mut j = end;
    while j > from
        invariant
            from <= j <= end <= v.len(),
            last_index_of(v@.subrange(from as int, end as int), c) == last_index_of(
                v@.subrange(from as int, j as int),
                c,
            ),
        decreases j,
    {
        if v[j - 1] == c {
            return Some(j - 1);
        }
        assert(v@.subrange(from as int, j as int).drop_last() =~= v@.subrange(
            from as int,
            j - 1,
        ));
        j = j - 1;
    }
    None
}

/// The range of `v[..end]` that is its file name.
fn file_name_range(v: &Vec<char>, end: usize) -> (r: Option<(usize, usize)>)
    requires
        end <= v.len(),
    ensures
        match r {
            Some((a, b)) => a <= b <= end && path_file_name(v@.subrange(0, end as int)) == Some(
                v@.subrange(a as int, b as int),
            ),
            None => path_file_name(v@.subrange(0, end as int)) is None,
        },
    decreases end,
{
    if end == 0 {
        return None;
    }
    let ghost p = v@.subrange(0, end as int);
    assert(p.drop_last() =~= v@.subrange(0, end - 1));
    if v[end - 1] == '/' {
        return file_name_range(v, end - 1);
    }
    let start = match last_index_between(v, 0, end, '/') {
        Some(i) => i + 1,
        None => 0,
    };
    proof {
        lemma_last_index_bounds(p, '/');
        assert(after_last(p, '/') =~= v@.subrange(start as int, end as int));
    }
    let ghost seg = v@.subrange(start as int, end as int);
    if end - start == 1 && v[start] == '.' {
        assert(seg =~= seq!['.']);
        if end == 1 {
            return None;
        }
        return file_name_range(v, end - 1);
    }
    if end - start == 2 && v[start] == '.' && v[start + 1] == '.' {
        assert(seg =~= seq!['.', '.']);
        return None;
    }
    proof {
        if seg == seq!['.'] {
            assert(seg[0] == v@[start as int]);
        }
        if seg == seq!['.', '.'] {
            assert(seg[0] == v@[start as int]);
            assert(seg[1] == v@[start + 1]);
        }
    }
    Some((start, end))
}

/// The text that follows the last `sep` in `v`, or all of it.
fn after_last_in(v: &Vec<char>, sep: char) -> (r: String)
    ensures
        r@ == after_last(v@, sep),
{
    assert(v@.subrange(0, v.len() as int) =~= v@);
    match last_index_between(v, 0, v.len(), sep) {
        Some(i) => {
            proof {
                lemma_last_index_bounds(v@, sep);
            }
            string_from_chars(v, i + 1, v.len())
        },
        None => string_from_chars(v, 0, v.len()),
    }
}

/// The suffix that names a desktop entry file.
pub open spec fn desktop_suffix() -> Seq<char> {
    seq!['.', 'd', 'e', 's', 'k', 't', 'o', 'p']
}

/// `s` with every trailing `.desktop` taken off
/// (`trim_end_matches(".desktop")`).
pub open spec fn strip_desktop_suffixes(s: Seq<char>) -> Seq<char>
    decreases s.len(),
{
    if s.len() >= 8 && has_suffix(s, desktop_suffix()) {
        strip_desktop_suffixes(s.subrange(0, s.len() - 8))
    } else {
        s
    }
}

/// A desktop entry name as it is looked for: trimmed, without its
/// `.desktop` suffixes, and trimmed again.
pub open spec fn desktop_stem(value: Seq<char>) -> Seq<char> {
    trim(strip_desktop_suffixes(trim(value)))
}

/// The texts of a list of strings.
pub open spec fn views(v: Seq<String>) -> Seq<Seq<char>> {
    v.map_values(|s: String| s@)
}

/// `a` and `b` are equal but for ASCII case (`str::eq_ignore_ascii_case`).
pub open spec fn same_ignoring_ascii_case(a: Seq<char>, b: Seq<char>) -> bool {
    ascii_lower_seq(a) == ascii_lower_seq(b)
}

/// Some candidate equals `x` but for ASCII case.
pub open spec fn has_candidate(cs: Seq<Seq<char>>, x: Seq<char>) -> bool {
    exists|i: int| 0 <= i < cs.len() && same_ignoring_ascii_case(#[trigger] cs[i], x)
}

/// The candidates after `value` is offered: its desktop stem joins them
/// unless it is empty or one of them already, ignoring ASCII case.
pub open spec fn with_candidate(cs: Seq<Seq<char>>, value: Seq<char>) -> Seq<Seq<char>> {
    let n = desktop_stem(value);
    if n.len() == 0 || has_candidate(cs, n) {
        cs
    } else {
        cs.push(n)
    }
}

/// Whether `v[..end]` ends with `.desktop`.
fn ends_with_desktop(v: &Vec<char>, end: usize) -> (b: bool)
    requires
        end <= v.len(),
    ensures
        b == (end >= 8 && has_suffix(v@.subrange(0, end as int), desktop_suffix())),
{
    if end < 8 {
        return false;
    }
    let b = v[end - 8] == '.' && v[end - 7] == 'd' && v[end - 6] == 'e' && v[end - 5] == 's' && v[end
        - 4] == 'k' && v[end - 3] == 't' && v[end - 2] == 'o' && v[end - 1] == 'p';
    proof {
        let s = v@.subrange(0, end as int);
        let t = s.subrange(end - 8, end as int);
        assert(t[0] == v@[end - 8]);
        assert(t[1] == v@[end - 7]);
        assert(t[2] == v@[end - 6]);
        assert(t[3] == v@[end - 5]);
        assert(t[4] == v@[end - 4]);
        assert(t[5] == v@[end - 3]);
        assert(t[6] == v@[end - 2]);
        assert(t[7] == v@[end - 1]);
        if b {
            assert(t =~= desktop_suffix());
        }
    }
    b
}

/// The desktop stem of `value`.
fn desktop_stem_of(value: &str) -> (r: String)
    ensures
        r@ == desktop_stem(value@),
{
    let t = trim_str(value);
    let v = chars_of(t.as_str());
    let mut end = v.len();
    assert(v@.subrange(0, end as int) =~= v@);
    while ends_with_desktop(&v, end)
        invariant
            end <= v.len(),
            v@ == trim(value@),
            strip_desktop_suffixes(v@) == strip_desktop_suffixes(v@.subrange(0, end as int)),
        decreases end,
    {
        assert(v@.subrange(0, end as int).subrange(0, end - 8) =~= v@.subrange(0, end - 8));
        end = end - 8;
    }
    let s = string_from_chars(&v, 0, end);
    trim_str(s.as_str())
}

/// Whether some candidate equals `x` but for ASCII case.
fn has_candidate_in(cs: &Vec<String>, x: &str) -> (b: bool)
    ensures
        b == has_candidate(views(cs@), x@),
{
    let lx = ascii_lowercase(x);
    let mut i: usize = 0;
    while i < cs.len()
        invariant
            i <= cs.len(),
            lx@ == ascii_lower_seq(x@),
            forall|j: int| 0 <= j < i ==> !same_ignoring_ascii_case(#[trigger] views(cs@)[j], x@),
        decreases cs.len() - i,
    {
        let lc = ascii_lowercase(cs[i].as_str());
        if str_eq(lc.as_str(), lx.as_str()) {
            assert(same_ignoring_ascii_case(views(cs@)[i as int], x@));
            return true;
        }
        i = i + 1;
    }
    false
}

/// Offers `value` as a desktop entry candidate: its desktop stem is added
/// unless it is empty or already there, ignoring ASCII case.
pub fn push_candidate(candidates: &mut Vec<String>, value: &str)
    ensures
        views(final(candidates)@) == with_candidate(views(old(candidates)@), value@),
{
    let n = desktop_stem_of(value);
    if n.as_str().is_empty() {
        return;
    }
    if has_candidate_in(candidates, n.as_str()) {
        return;
    }
    let ghost before = candidates@;
    candidates.push(n);
    assert(views(candidates@) =~= views(before).push(desktop_stem(value@)));
}

/// The candidates for one name: the name itself, its file name, and what
/// follows its last `.`, `-` and `_`, each offered in that order.
pub open spec fn entry_candidates(value: Seq<char>) -> Seq<Seq<char>> {
    let t = trim(value);
    if t.len() == 0 {
        Seq::empty()
    } else {
        let c1 = with_candidate(Seq::empty(), t);
        let c2 = match path_file_name(t) {
            Some(f) => with_candidate(c1, f),
            None => c1,
        };
        let c3 = with_candidate(c2, after_last(t, '.'));
        let c4 = with_candidate(c3, after_last(t, '-'));
        with_candidate(c4, after_last(t, '_'))
    }
}

/// The desktop entry names to look for, for one name.
pub fn normalize_desktop_entry_candidates(value: &str) -> (r: Vec<String>)
    ensures
        views(r@) == entry_candidates(value@),
{
    let trimmed = trim_str(value);
    let mut candidates: Vec<String> = Vec::new();
    if trimmed.as_str().is_empty() {
        assert(views(candidates@) =~= Seq::<Seq<char>>::empty());
        return candidates;
    }
    assert(views(candidates@) =~= Seq::<Seq<char>>::empty());
    push_candidate(&mut candidates, trimmed.as_str());
    let v = chars_of(trimmed.as_str());
    assert(v@.subrange(0, v.len() as int) =~= v@);
    match file_name_range(&v, v.len()) {
        Some((a, b)) => {
            let f = string_from_chars(&v, a, b);
            push_candidate(&mut candidates, f.as_str());
        },
        None => {},
    }
    let dot = after_last_in(&v, '.');
    push_candidate(&mut candidates, dot.as_str());
    let dash = after_last_in(&v, '-');
    push_candidate(&mut candidates, dash.as_str());
    let underscore = after_last_in(&v, '_');
    push_candidate(&mut candidates, underscore.as_str());
    candidates
}

/// `acc` followed by the items of `xs` that are not in it yet, in order.
pub open spec fn append_unseen(acc: Seq<Seq<char>>, xs: Seq<Seq<char>>) -> Seq<Seq<char>>
    decreases xs.len(),
{
    if xs.len() == 0 {
        acc
    } else {
        let a = append_unseen(acc, xs.drop_last());
        if a.contains(xs.last()) {
            a
        } else {
            a.push(xs.last())
        }
    }
}

/// The desktop entry names to look for: those of the player's desktop
/// entry, then those of its application identifier, each once.
pub open spec fn desktop_entries(source_app_id: Seq<char>, desktop_entry: Option<Seq<char>>) -> Seq<
    Seq<char>,
> {
    let first = match desktop_entry {
        Some(d) => d,
        None => Seq::empty(),
    };
    append_unseen(append_unseen(Seq::empty(), entry_candidates(first)), entry_candidates(source_app_id))
}

/// Whether `s` is one of `v`.
fn contains_string(v: &Vec<String>, s: &str) -> (b: bool)
    ensures
        b == views(v@).contains(s@),
{
    let mut i: usize = 0;
    while i < v.len()
        invariant
            i <= v.len(),
            forall|j: int| 0 <= j < i ==> views(v@)[j] != s@,
        decreases v.len() - i,
    {
        if str_eq(v[i].as_str(), s) {
            assert(views(v@)[i as int] == s@);
            return true;
        }
        i = i + 1;
    }
    false
}

/// Appends to `out` the items of `xs` that it does not hold yet.
fn append_unseen_into(out: &mut Vec<String>, xs: Vec<String>)
    ensures
        views(final(out)@) == append_unseen(views(old(out)@), views(xs@)),
{
    let ghost start = views(out@);
    let mut i: usize = 0;
    assert(views(xs@).subrange(0, 0) =~= Seq::<Seq<char>>::empty());
    while i < xs.len()
        invariant
            i <= xs.len(),
            views(out@) == append_unseen(start, views(xs@).subrange(0, i as int)),
        decreases xs.len() - i,
    {
        let ghost prefix = views(xs@).subrange(0, i + 1);
        assert(prefix.drop_last() =~= views(xs@).subrange(0, i as int));
        assert(prefix.last() == xs@[i as int]@);
        let item = xs[i].clone();
        assert(item@ == xs@[i as int]@);
        if !contains_string(out, item.as_str()) {
            let ghost before = out@;
            out.push(item);
            assert(views(out@) =~= views(before).push(prefix.last()));
        }
        i = i + 1;
    }
    assert(views(xs@).subrange(0, xs.len() as int) =~= views(xs@));
}

/// The desktop entry names to look for: the candidates of the player's
/// desktop entry, then those of its application identifier, each once.
pub fn desktop_entry_candidates(source_app_id: &str, desktop_entry: Option<&str>) -> (r: Vec<String>)
    ensures
        views(r@) == desktop_entries(
            source_app_id@,
            match desktop_entry {
                Some(d) => Some(d@),
                None => None,
            },
        ),
{
    let first: &str = match desktop_entry {
        Some(d) => d,
        None => "",
    };
    proof {
        reveal_strlit("");
        assert(""@ =~= Seq::<char>::empty());
    }
    let mut out: Vec<String> = Vec::new();
    assert(views(out@) =~= Seq::<Seq<char>>::empty());
    append_unseen_into(&mut out, normalize_desktop_entry_candidates(first));
    append_unseen_into(&mut out, normalize_desktop_entry_candidates(source_app_id));
    out
}

/// The position of the first `c` in `s`.
pub open spec fn first_index_of(s: Seq<char>, c: char) -> Option<int>
    decreases s.len(),
{
    if s.len() == 0 {
        None
    } else {
        match first_index_of(s.drop_last(), c) {
            Some(i) => Some(i),
            None => if s.last() == c {
                Some(s.len() - 1)
            } else {
                None
            },
        }
    }
}

proof fn lemma_first_index_bounds(s: Seq<char>, c: char)
    ensures
        match first_index_of(s, c) {
            Some(i) => 0 <= i < s.len() && s[i] == c,
            None => true,
        },
    decreases s.len(),
{
    if s.len() > 0 {
        lemma_first_index_bounds(s.drop_last(), c);
    }
}

proof fn lemma_first_index_prefix(s: Seq<char>, c: char, k: int)
    requires
        0 <= k <= s.len(),
        first_index_of(s.subrange(0, k), c) is Some,
    ensures
        first_index_of(s, c) == first_index_of(s.subrange(0, k), c),
    decreases s.len() - k,
{
    if k < s.len() {
        assert(s.subrange(0, k + 1).drop_last() =~= s.subrange(0, k));
        lemma_first_index_prefix(s, c, k + 1);
    } else {
        assert(s.subrange(0, k) =~= s);
    }
}

/// The first position of `c` in `v`.
fn first_index_in(v: &Vec<char>, c: char) -> (r: Option<usize>)
    ensures
        match r {
            Some(i) => i < v.len() && first_index_of(v@, c) == Some(i as int),
            None => first_index_of(v@, c) is None,
        },
{
    let mut i: usize = 0;
    assert(v@.subrange(0, 0) =~= Seq::<char>::empty());
    while i < v.len()
        invariant
            i <= v.len(),
            first_index_of(v@.subrange(0, i as int), c) is None,
        decreases v.len() - i,
    {
        assert(v@.subrange(0, i + 1).drop_last() =~= v@.subrange(0, i as int));
        if v[i] == c {
            proof {
                lemma_first_index_prefix(v@, c, i + 1);
            }
            return Some(i);
        }
        i = i + 1;
    }
    assert(v@.subrange(0, v.len() as int) =~= v@);
    None
}

/// `s` without leading `"` characters.
pub open spec fn trim_quotes_start(s: Seq<char>) -> Seq<char>
    decreases s.len(),
{
    if s.len() > 0 && s[0] == '"' {
        trim_quotes_start(s.drop_first())
    } else {
        s
    }
}

/// `s` without trailing `"` characters.
pub open spec fn trim_quotes_end(s: Seq<char>) -> Seq<char>
    decreases s.len(),
{
    if s.len() > 0 && s.last() == '"' {
        trim_quotes_end(s.drop_last())
    } else {
        s
    }
}

/// `s` without the `"` characters around it (`trim_matches('"')`).
pub open spec fn trim_quotes(s: Seq<char>) -> Seq<char> {
    trim_quotes_end(trim_quotes_start(s))
}

/// The header of the main group of a desktop entry file.
pub open spec fn desktop_entry_header() -> Seq<char> {
    seq!['[', 'D', 'e', 's', 'k', 't', 'o', 'p', ' ', 'E', 'n', 't', 'r', 'y', ']']
}

/// The key that names an icon.
pub open spec fn icon_key() -> Seq<char> {
    seq!['I', 'c', 'o', 'n']
}

/// The icon that the lines `ls` of a desktop entry file name, `in_entry`
/// telling whether they start inside the `[Desktop Entry]` group.  Blank
/// lines and comments are passed over; a group header opens a group; the
/// first `Icon=` key of that group decides, and an empty value there
/// names no icon.
pub open spec fn icon_name_in(ls: Seq<Seq<char>>, in_entry: bool) -> Option<Seq<char>>
    decreases ls.len(),
{
    if ls.len() == 0 {
        None
    } else {
        let line = trim(ls[0]);
        let rest = ls.drop_first();
        if line.len() == 0 || line[0] == '#' {
            icon_name_in(rest, in_entry)
        } else if line[0] == '[' && line.last() == ']' {
            icon_name_in(rest, same_ignoring_ascii_case(line, desktop_entry_header()))
        } else if !in_entry {
            icon_name_in(rest, in_entry)
        } else {
            match first_index_of(line, '=') {
                None => icon_name_in(rest, in_entry),
                Some(i) => if trim(line.subrange(0, i)) == icon_key() {
                    let icon = trim_quotes(trim(line.subrange(i + 1, line.len() as int)));
                    if icon.len() == 0 {
                        None
                    } else {
                        Some(icon)
                    }
                } else {
                    icon_name_in(rest, in_entry)
                },
            }
        }
    }
}

/// `v[a..b]` without the `"` characters around it.
fn trim_quotes_in(v: &Vec<char>, a: usize, b: usize) -> (r: String)
    requires
        a <= b <= v.len(),
    ensures
        r@ == trim_quotes(v@.subrange(a as int, b as int)),
{
    let mut i = a;
    while i < b && v[i] == '"'
        invariant
            a <= i <= b <= v.len(),
            trim_quotes_start(v@.subrange(a as int, b as int)) == trim_quotes_start(
                v@.subrange(i as int, b as int),
            ),
        decreases b - i,
    {
        assert(v@.subrange(i as int, b as int).drop_first() =~= v@.subrange(i + 1, b as int));
        i = i + 1;
    }
    assert(i == b || v@.subrange(i as int, b as int)[0] == v@[i as int]);
    let mut j = b;
    while j > i && v[j - 1] == '"'
        invariant
            a <= i <= j <= b <= v.len(),
            trim_quotes_end(v@.subrange(i as int, b as int)) == trim_quotes_end(
                v@.subrange(i as int, j as int),
            ),
        decreases j,
    {
        assert(v@.subrange(i as int, j as int).drop_last() =~= v@.subrange(i as int, j - 1));
        j = j - 1;
    }
    string_from_chars(v, i, j)
}

/// The icon that a desktop entry file names: the value of the first
/// `Icon=` key in its `[Desktop Entry]` group, trimmed and unquoted; none
/// when there is no such key or its value is empty.
pub fn read_desktop_entry_icon_name(content: &str) -> (r: Option<String>)
    ensures
        match r {
            Some(s) => icon_name_in(lines(content@), false) == Some(s@),
            None => icon_name_in(lines(content@), false) is None,
        },
{
    let ls = lines_of(content);
    let ghost all = lines(content@);
    let mut in_entry = false;
    let mut k: usize = 0;
    assert(all.subrange(0, all.len() as int) =~= all);
    while k < ls.len()
        invariant
            all == lines(content@),
            ls@.map_values(|l: String| l@) == all,
            k <= ls.len() == all.len(),
            icon_name_in(all, false) == icon_name_in(all.subrange(k as int, all.len() as int), in_entry),
        decreases ls.len() - k,
    {
        let ghost tail = all.subrange(k as int, all.len() as int);
        assert(tail.drop_first() =~= all.subrange(k + 1, all.len() as int));
        assert(tail[0] == ls@[k as int]@);
        let line = trim_str(ls[k].as_str());
        let v = chars_of(line.as_str());
        let n = v.len();
        if n == 0 || v[0] == '#' {
            k = k + 1;
        } else if v[0] == '[' && v[n - 1] == ']' {
            let lower = ascii_lowercase(line.as_str());
            proof {
                reveal_strlit("[desktop entry]");
                assert(ascii_lower_seq(desktop_entry_header()) =~= "[desktop entry]"@);
            }
            in_entry = str_eq(lower.as_str(), "[desktop entry]");
            k = k + 1;
        } else if !in_entry {
            k = k + 1;
        } else {
            match first_index_in(&v, '=') {
                None => {
                    k = k + 1;
                },
                Some(i) => {
                    let key_text = string_from_chars(&v, 0, i);
                    let key = trim_str(key_text.as_str());
                    proof {
                        reveal_strlit("Icon");
                        assert("Icon"@ =~= icon_key());
                    }
                    if str_eq(key.as_str(), "Icon") {
                        let value_text = string_from_chars(&v, i + 1, n);
                        let value = trim_str(value_text.as_str());
                        let w = chars_of(value.as_str());
                        assert(w@.subrange(0, w.len() as int) =~= w@);
                        let icon = trim_quotes_in(&w, 0, w.len());
                        if icon.as_str().is_empty() {
                            return None;
                        }
                        return Some(icon);
                    }
                    k = k + 1;
                },
            }
        }
    }
    None
}

/// The file stem of the path `v`.
fn file_stem_of(v: &Vec<char>) -> (r: Option<String>)
    ensures
        match r {
            Some(s) => path_file_stem(v@) == Some(s@),
            None => path_file_stem(v@) is None,
        },
{
    assert(v@.subrange(0, v.len() as int) =~= v@);
    match file_name_range(v, v.len()) {
        None => None,
        Some((a, b)) => {
            let ghost n = v@.subrange(a as int, b as int);
            match last_index_between(v, a, b, '.') {
                Some(i) => {
                    if i == a {
                        Some(string_from_chars(v, a, b))
                    } else {
                        assert(n.subrange(0, i - a) =~= v@.subrange(a as int, i as int));
                        Some(string_from_chars(v, a, i))
                    }
                },
                None => Some(string_from_chars(v, a, b)),
            }
        },
    }
}

/// The extension of the path `v`.
fn extension_of(v: &Vec<char>) -> (r: Option<String>)
    ensures
        match r {
            Some(s) => path_extension(v@) == Some(s@),
            None => path_extension(v@) is None,
        },
{
    assert(v@.subrange(0, v.len() as int) =~= v@);
    match file_name_range(v, v.len()) {
        None => None,
        Some((a, b)) => {
            let ghost n = v@.subrange(a as int, b as int);
            match last_index_between(v, a, b, '.') {
                Some(i) => {
                    if i == a {
                        None
                    } else {
                        assert(n.subrange(i - a + 1, n.len() as int) =~= v@.subrange(
                            i + 1,
                            b as int,
                        ));
                        Some(string_from_chars(v, i + 1, b))
                    }
                },
                None => None,
            }
        },
    }
}

/// The name that icon files are matched by: the file stem of the icon
/// name, or the icon name itself, trimmed.
pub open spec fn lookup_stem(icon_name: Seq<char>) -> Seq<char> {
    trim(
        match path_file_stem(icon_name) {
            Some(s) => s,
            None => icon_name,
        },
    )
}

/// The name that icon files are matched by.
pub fn icon_lookup_stem(icon_name: &str) -> (r: String)
    ensures
        r@ == lookup_stem(icon_name@),
{
    let v = chars_of(icon_name);
    match file_stem_of(&v) {
        Some(s) => trim_str(s.as_str()),
        None => trim_str(icon_name),
    }
}

/// The file types an icon may have, in lower case.
pub open spec fn is_icon_extension(lower_ext: Seq<char>) -> bool {
    ||| lower_ext == seq!['p', 'n', 'g']
    ||| lower_ext == seq!['s', 'v', 'g']
    ||| lower_ext == seq!['j', 'p', 'g']
    ||| lower_ext == seq!['j', 'p', 'e', 'g']
    ||| lower_ext == seq!['w', 'e', 'b', 'p']
    ||| lower_ext == seq!['x', 'p', 'm']
}

/// A file is the icon looked for: it has an icon file type, and its stem
/// is the lookup stem of the icon name, both ignoring ASCII case.
pub open spec fn icon_file_matches_name(path: Seq<char>, icon_name: Seq<char>) -> bool {
    match (path_file_stem(path), path_extension(path)) {
        (Some(stem), Some(ext)) => is_icon_extension(ascii_lower_seq(ext)) && same_ignoring_ascii_case(
            stem,
            lookup_stem(icon_name),
        ),
        _ => false,
    }
}

/// Whether the file at `path` is the icon named `icon_name`.
pub fn icon_file_matches(path: &str, icon_name: &str) -> (b: bool)
    ensures
        b == icon_file_matches_name(path@, icon_name@),
{
    let expected = icon_lookup_stem(icon_name);
    let v = chars_of(path);
    let stem = match file_stem_of(&v) {
        Some(s) => s,
        None => {
            return false;
        },
    };
    let ext = match extension_of(&v) {
        Some(e) => e,
        None => {
            return false;
        },
    };
    let lower = ascii_lowercase(ext.as_str());
    proof {
        reveal_strlit("png");
        reveal_strlit("svg");
        reveal_strlit("jpg");
        reveal_strlit("jpeg");
        reveal_strlit("webp");
        reveal_strlit("xpm");
        assert("png"@ =~= seq!['p', 'n', 'g']);
        assert("svg"@ =~= seq!['s', 'v', 'g']);
        assert("jpg"@ =~= seq!['j', 'p', 'g']);
        assert("jpeg"@ =~= seq!['j', 'p', 'e', 'g']);
        assert("webp"@ =~= seq!['w', 'e', 'b', 'p']);
        assert("xpm"@ =~= seq!['x', 'p', 'm']);
    }
    let known = str_eq(lower.as_str(), "png") || str_eq(lower.as_str(), "svg") || str_eq(
        lower.as_str(),
        "jpg",
    ) || str_eq(lower.as_str(), "jpeg") || str_eq(lower.as_str(), "webp") || str_eq(
        lower.as_str(),
        "xpm",
    );
    if !known {
        return false;
    }
    let ls = ascii_lowercase(stem.as_str());
    let le = ascii_lowercase(expected.as_str());
    str_eq(ls.as_str(), le.as_str())
}

/// The text that marks icons of `n` by `n` pixels in a path.
pub open spec fn size_tag(n: nat) -> Seq<char> {
    decimal(n) + seq!['x'] + decimal(n)
}

/// The largest icon size that the (lower-case) path names, else 1.
pub open spec fn size_score(l: Seq<char>) -> u32 {
    if contains(l, size_tag(512)) {
        512
    } else if contains(l, size_tag(256)) {
        256
    } else if contains(l, size_tag(192)) {
        192
    } else if contains(l, size_tag(128)) {
        128
    } else if contains(l, size_tag(96)) {
        96
    } else if contains(l, size_tag(64)) {
        64
    } else if contains(l, size_tag(48)) {
        48
    } else if contains(l, size_tag(32)) {
        32
    } else if contains(l, size_tag(24)) {
        24
    } else if contains(l, size_tag(16)) {
        16
    } else {
        1
    }
}

/// The word that marks scalable icons in a path.
pub open spec fn scalable_word() -> Seq<char> {
    seq!['s', 'c', 'a', 'l', 'a', 'b', 'l', 'e']
}

/// How good an icon file is, by its path: the size it names, and 512 more
/// for a scalable one.
pub open spec fn icon_score(path: Seq<char>) -> int {
    let l = ascii_lower_seq(path);
    (if contains(l, scalable_word()) {
        512int
    } else {
        0int
    }) + size_score(l) as int
}

/// Whether `lower` names the size `n`.
fn names_size(lower: &str, n: u64) -> (b: bool)
    ensures
        b == contains(lower@, size_tag(n as nat)),
{
    let d = u64_to_decimal(n);
    let mut tag = d.clone();
    push_char(&mut tag, 'x');
    tag.append(d.as_str());
    assert(tag@ =~= size_tag(n as nat));
    contains_str(lower, tag.as_str())
}

/// How good the icon file at `path` is.
pub fn icon_path_score(path: &str) -> (r: u32)
    ensures
        r == icon_score(path@),
{
    let lower = ascii_lowercase(path);
    let l = lower.as_str();
    let size: u32 = if names_size(l, 512) {
        512
    } else if names_size(l, 256) {
        256
    } else if names_size(l, 192) {
        192
    } else if names_size(l, 128) {
        128
    } else if names_size(l, 96) {
        96
    } else if names_size(l, 64) {
        64
    } else if names_size(l, 48) {
        48
    } else if names_size(l, 32) {
        32
    } else if names_size(l, 24) {
        24
    } else if names_size(l, 16) {
        16
    } else {
        1
    };
    proof {
        reveal_strlit("scalable");
        assert("scalable"@ =~= scalable_word());
    }
    let bonus: u32 = if contains_str(l, "scalable") {
        512
    } else {
        0
    };
    bonus + size
}

/// The icon file picked among `paths`, in the order they were found: the
/// first of those that match with the highest score.
pub open spec fn best_icon(paths: Seq<Seq<char>>, icon_name: Seq<char>) -> Option<Seq<char>>
    decreases paths.len(),
{
    if paths.len() == 0 {
        None
    } else {
        let prev = best_icon(paths.drop_last(), icon_name);
        let p = paths.last();
        if !icon_file_matches_name(p, icon_name) {
            prev
        } else {
            match prev {
                None => Some(p),
                Some(b) => if icon_score(p) > icon_score(b) {
                    Some(p)
                } else {
                    prev
                },
            }
        }
    }
}

/// The icon file picked among the files of one icon directory, listed in
/// the order they were found.
pub fn best_icon_path(paths: &Vec<String>, icon_name: &str) -> (r: Option<String>)
    ensures
        match r {
            Some(s) => best_icon(views(paths@), icon_name@) == Some(s@),
            None => best_icon(views(paths@), icon_name@) is None,
        },
{
    let mut best: Option<String> = None;
    let mut best_score: u32 = 0;
    let mut i: usize = 0;
    assert(views(paths@).subrange(0, 0) =~= Seq::<Seq<char>>::empty());
    while i < paths.len()
        invariant
            i <= paths.len(),
            match best {
                Some(s) => best_icon(views(paths@).subrange(0, i as int), icon_name@) == Some(s@)
                    && best_score == icon_score(s@),
                None => best_icon(views(paths@).subrange(0, i as int), icon_name@) is None,
            },
        decreases paths.len() - i,
    {
        let ghost prefix = views(paths@).subrange(0, i + 1);
        assert(prefix.drop_last() =~= views(paths@).subrange(0, i as int));
        assert(prefix.last() == paths@[i as int]@);
        let p = paths[i].as_str();
        if icon_file_matches(p, icon_name) {
            let score = icon_path_score(p);
            let better = match &best {
                None => true,
                Some(_) => score > best_score,
            };
            if better {
                best = Some(paths[i].clone());
                best_score = score;
            }
        }
        i = i + 1;
    }
    assert(views(paths@).subrange(0, paths.len() as int) =~= views(paths@));
    best
}

/// The type of an icon file by its extension, ignoring ASCII case; PNG
/// for an unknown one.
pub open spec fn extension_content_type(ext: Seq<char>) -> Seq<char> {
    let l = ascii_lower_seq(ext);
    if l == seq!['p', 'n', 'g'] {
        "image/png"@
    } else if l == seq!['s', 'v', 'g'] {
        "image/svg+xml"@
    } else if l == seq!['j', 'p', 'g'] || l == seq!['j', 'p', 'e', 'g'] {
        "image/jpeg"@
    } else if l == seq!['w', 'e', 'b', 'p'] {
        "image/webp"@
    } else if l == seq!['x', 'p', 'm'] {
        "image/x-xpixmap"@
    } else {
        "image/png"@
    }
}

/// The type of an icon file by its extension.
pub fn extension_to_content_type(extension: &str) -> (r: String)
    ensures
        r@ == extension_content_type(extension@),
{
    let lower = ascii_lowercase(extension);
    let l = lower.as_str();
    proof {
        reveal_strlit("png");
        reveal_strlit("svg");
        reveal_strlit("jpg");
        reveal_strlit("jpeg");
        reveal_strlit("webp");
        reveal_strlit("xpm");
        assert("png"@ =~= seq!['p', 'n', 'g']);
        assert("svg"@ =~= seq!['s', 'v', 'g']);
        assert("jpg"@ =~= seq!['j', 'p', 'g']);
        assert("jpeg"@ =~= seq!['j', 'p', 'e', 'g']);
        assert("webp"@ =~= seq!['w', 'e', 'b', 'p']);
        assert("xpm"@ =~= seq!['x', 'p', 'm']);
    }
    if str_eq(l, "png") {
        "image/png".to_owned()
    } else if str_eq(l, "svg") {
        "image/svg+xml".to_owned()
    } else if str_eq(l, "jpg") || str_eq(l, "jpeg") {
        "image/jpeg".to_owned()
    } else if str_eq(l, "webp") {
        "image/webp".to_owned()
    } else if str_eq(l, "xpm") {
        "image/x-xpixmap".to_owned()
    } else {
        "image/png".to_owned()
    }
}

/// The type of an icon file by its first bytes: JPEG, PNG, WebP or SVG,
/// else PNG.
pub open spec fn icon_bytes_content_type(bytes: Seq<u8>) -> Seq<char> {
    if bytes_start_with(bytes, seq![0xFFu8, 0xD8, 0xFF]) {
        "image/jpeg"@
    } else if bytes_start_with(bytes, seq![0x89u8, 80, 78, 71, 13, 10, 26, 10]) {
        "image/png"@
    } else if bytes.len() >= 12 && bytes.subrange(0, 4) == seq![82u8, 73, 70, 70]
        && bytes.subrange(8, 12) == seq![87u8, 69, 66, 80] {
        "image/webp"@
    } else if svg_sample(bytes) {
        "image/svg+xml"@
    } else {
        "image/png"@
    }
}

/// The type of an icon file by its first bytes.
pub fn detect_image_content_type(bytes: &Vec<u8>) -> (r: String)
    ensures
        r@ == icon_bytes_content_type(bytes@),
{
    if starts_with_bytes(bytes, &vec![0xFFu8, 0xD8, 0xFF]) {
        "image/jpeg".to_owned()
    } else if starts_with_bytes(bytes, &vec![0x89u8, 80, 78, 71, 13, 10, 26, 10]) {
        "image/png".to_owned()
    } else if bytes.len() >= 12 && bytes[0] == 82 && bytes[1] == 73 && bytes[2] == 70 && bytes[3]
        == 70 && bytes[8] == 87 && bytes[9] == 69 && bytes[10] == 66 && bytes[11] == 80 {
        assert(bytes@.subrange(0, 4) =~= seq![82u8, 73, 70, 70]);
        assert(bytes@.subrange(8, 12) =~= seq![87u8, 69, 66, 80]);
        "image/webp".to_owned()
    } else {
        proof {
            if bytes@.len() >= 12 && bytes@.subrange(0, 4) == seq![82u8, 73, 70, 70]
                && bytes@.subrange(8, 12) == seq![87u8, 69, 66, 80] {
                assert(bytes@.subrange(0, 4)[0] == bytes@[0]);
                assert(bytes@.subrange(0, 4)[1] == bytes@[1]);
                assert(bytes@.subrange(0, 4)[2] == bytes@[2]);
                assert(bytes@.subrange(0, 4)[3] == bytes@[3]);
                assert(bytes@.subrange(8, 12)[0] == bytes@[8]);
                assert(bytes@.subrange(8, 12)[1] == bytes@[9]);
                assert(bytes@.subrange(8, 12)[2] == bytes@[10]);
                assert(bytes@.subrange(8, 12)[3] == bytes@[11]);
            }
        }
        if looks_like_svg(bytes) {
            "image/svg+xml".to_owned()
        } else {
            "image/png".to_owned()
        }
    }
}

/// The type of an icon file: by its extension when it has one, else by
/// its first bytes.
pub open spec fn icon_file_content_type(path: Seq<char>, bytes: Seq<u8>) -> Seq<char> {
    match path_extension(path) {
        Some(e) => extension_content_type(e),
        None => icon_bytes_content_type(bytes),
    }
}

/// The data URL of an icon file: a raster image (neither SVG nor XPM)
/// that decodes becomes a 256-pixel PNG; any other file is sent as it is,
/// under its own type.
pub open spec fn icon_data_url(path: Seq<char>, bytes: Seq<u8>) -> Seq<char> {
    let ct = icon_file_content_type(path, bytes);
    let original = "data:"@ + ct + ";base64,"@ + base64_standard_encoded(bytes);
    if ct == "image/svg+xml"@ || ct == "image/x-xpixmap"@ {
        original
    } else {
        match png_icon_bytes(bytes) {
            Some(png) => if png.len() > 0 {
                "data:image/png;base64,"@ + base64_standard_encoded(png)
            } else {
                original
            },
            None => original,
        }
    }
}

/// The data URL of the icon file at `path`, whose content is `bytes`;
/// none for an empty file.
pub fn image_path_to_data_url(path: &str, bytes: &Vec<u8>) -> (r: Option<String>)
    ensures
        bytes@.len() == 0 ==> r is None,
        bytes@.len() > 0 ==> r is Some && r->Some_0@ == icon_data_url(path@, bytes@),
{
    if bytes.len() == 0 {
        return None;
    }
    let v = chars_of(path);
    let content_type = match extension_of(&v) {
        Some(e) => extension_to_content_type(e.as_str()),
        None => detect_image_content_type(bytes),
    };
    let kept = str_eq(content_type.as_str(), "image/svg+xml") || str_eq(
        content_type.as_str(),
        "image/x-xpixmap",
    );
    if !kept {
        match image_bytes_to_png_data_url(bytes) {
            Some(url) => {
                return Some(url);
            },
            None => {},
        }
    }
    let encoded = encode_base64_standard(bytes);
    let mut r = "data:".to_owned();
    r.append(content_type.as_str());
    r.append(";base64,");
    r.append(encoded.as_str());
    Some(r)
}

/// `dir` joined with the relative path `sub` (`Path::join`): a `/` goes
/// between them unless `dir` is empty or ends with one.
pub open spec fn join_path(dir: Seq<char>, sub: Seq<char>) -> Seq<char> {
    if dir.len() == 0 || dir.last() == '/' {
        dir + sub
    } else {
        dir + seq!['/'] + sub
    }
}

/// `dir` joined with the relative path `sub`.
pub fn join_path_str(dir: &str, sub: &str) -> (r: String)
    ensures
        r@ == join_path(dir@, sub@),
{
    let mut r = dir.to_owned();
    let v = chars_of(dir);
    if v.len() > 0 && v[v.len() - 1] != '/' {
        push_char(&mut r, '/');
    }
    r.append(sub);
    r
}

/// An environment value, when it is set and not empty.
pub open spec fn set_value(o: Option<String>) -> Option<Seq<char>> {
    match o {
        Some(s) => if s@.len() > 0 {
            Some(s@)
        } else {
            None
        },
        None => None,
    }
}

/// The system data directories: those of `XDG_DATA_DIRS`, split, when it
/// is set; else the usual two.
pub open spec fn system_data_dirs(data_dirs: Option<Seq<Seq<char>>>) -> Seq<Seq<char>> {
    match data_dirs {
        Some(ds) => ds,
        None => seq!["/usr/local/share"@, "/usr/share"@],
    }
}

/// The user's two directories under `sub` (`applications` or `icons`):
/// in `XDG_DATA_HOME` when it is set, else under `~/.local/share`, each
/// with its Flatpak export beside it; none without either.
pub open spec fn user_dirs(data_home: Option<String>, home: Option<String>, sub: Seq<char>) -> Seq<
    Seq<char>,
> {
    match set_value(data_home) {
        Some(d) => seq![join_path(d, sub), join_path(d, "flatpak/exports/share/"@ + sub)],
        None => match set_value(home) {
            Some(h) => seq![
                join_path(h, ".local/share/"@ + sub),
                join_path(h, ".local/share/flatpak/exports/share/"@ + sub),
            ],
            None => Seq::empty(),
        },
    }
}

/// Each directory joined with `sub`.
pub open spec fn joined_all(dirs: Seq<Seq<char>>, sub: Seq<char>) -> Seq<Seq<char>> {
    dirs.map_values(|d: Seq<char>| join_path(d, sub))
}

/// The directories searched for desktop entries, in order.
pub open spec fn desktop_dirs(
    data_home: Option<String>,
    home: Option<String>,
    data_dirs: Option<Seq<Seq<char>>>,
) -> Seq<Seq<char>> {
    user_dirs(data_home, home, "applications"@) + joined_all(
        system_data_dirs(data_dirs),
        "applications"@,
    ) + seq![
        "/var/lib/flatpak/exports/share/applications"@,
        "/var/lib/snapd/desktop/applications"@,
    ]
}

/// The directories searched for icons, in order.
pub open spec fn icon_dirs(
    data_home: Option<String>,
    home: Option<String>,
    data_dirs: Option<Seq<Seq<char>>>,
) -> Seq<Seq<char>> {
    user_dirs(data_home, home, "icons"@) + (match set_value(home) {
        Some(h) => seq![join_path(h, ".icons"@)],
        None => Seq::empty(),
    }) + joined_all(system_data_dirs(data_dirs), "icons"@) + seq![
        "/usr/share/pixmaps"@,
        "/var/lib/flatpak/exports/share/icons"@,
        "/var/lib/snapd/desktop/icons"@,
    ]
}

/// Whether an environment value is set and not empty.
fn is_set(o: &Option<String>) -> (r: Option<String>)
    ensures
        match r {
            Some(s) => set_value(*o) == Some(s@),
            None => set_value(*o) is None,
        },
{
    match o {
        Some(s) => if s.as_str().is_empty() {
            None
        } else {
            Some(s.clone())
        },
        None => None,
    }
}

/// Appends the user's two directories under `sub` to `out`.
fn push_user_dirs(out: &mut Vec<String>, data_home: &Option<String>, home: &Option<String>, sub: &str)
    ensures
        views(final(out)@) == views(old(out)@) + user_dirs(*data_home, *home, sub@),
{
    let ghost before = views(out@);
    match is_set(data_home) {
        Some(d) => {
            let flatpak = crate::text::concat("flatpak/exports/share/", sub);
            out.push(join_path_str(d.as_str(), sub));
            out.push(join_path_str(d.as_str(), flatpak.as_str()));
        },
        None => match is_set(home) {
            Some(h) => {
                let local = crate::text::concat(".local/share/", sub);
                let flatpak = crate::text::concat(".local/share/flatpak/exports/share/", sub);
                out.push(join_path_str(h.as_str(), local.as_str()));
                out.push(join_path_str(h.as_str(), flatpak.as_str()));
            },
            None => {},
        },
    }
    assert(views(out@) =~= before + user_dirs(*data_home, *home, sub@));
}

/// The texts of an optional list of strings.
pub open spec fn opt_views(o: Option<Vec<String>>) -> Option<Seq<Seq<char>>> {
    match o {
        Some(ds) => Some(views(ds@)),
        None => None,
    }
}

/// Appends each of `dirs` joined with `sub` to `out`.
fn push_joined(out: &mut Vec<String>, dirs: &Vec<String>, sub: &str)
    ensures
        views(final(out)@) == views(old(out)@) + joined_all(views(dirs@), sub@),
{
    let ghost before = views(out@);
    let ghost given = views(dirs@);
    let mut i: usize = 0;
    assert(before + joined_all(given.subrange(0, 0), sub@) =~= before);
    while i < dirs.len()
        invariant
            i <= dirs.len(),
            views(dirs@) == given,
            views(out@) == before + joined_all(given.subrange(0, i as int), sub@),
        decreases dirs.len() - i,
    {
        let ghost prev = out@;
        out.push(join_path_str(dirs[i].as_str(), sub));
        assert(joined_all(given.subrange(0, i + 1), sub@) =~= joined_all(
            given.subrange(0, i as int),
            sub@,
        ).push(join_path(given[i as int], sub@)));
        assert(views(out@) =~= views(prev).push(join_path(given[i as int], sub@)));
        i = i + 1;
    }
    assert(given.subrange(0, dirs.len() as int) =~= given);
}

/// Appends each system data directory joined with `sub` to `out`.
fn push_system_dirs(out: &mut Vec<String>, data_dirs: &Option<Vec<String>>, sub: &str)
    ensures
        views(final(out)@) == views(old(out)@) + joined_all(
            system_data_dirs(opt_views(*data_dirs)),
            sub@,
        ),
{
    match data_dirs {
        Some(ds) => push_joined(out, ds, sub),
        None => {
            let defaults = vec!["/usr/local/share".to_owned(), "/usr/share".to_owned()];
            assert(views(defaults@) =~= seq!["/usr/local/share"@, "/usr/share"@]);
            push_joined(out, &defaults, sub);
        },
    }
}

/// The directories searched for desktop entries: the user's, those of the
/// system data directories, then Flatpak's and Snap's.  The arguments are
/// the values of `XDG_DATA_HOME`, `HOME` and `XDG_DATA_DIRS` (split).
pub fn desktop_file_dirs(
    data_home: Option<String>,
    home: Option<String>,
    data_dirs: Option<Vec<String>>,
) -> (r: Vec<String>)
    ensures
        views(r@) == desktop_dirs(
            data_home,
            home,
            opt_views(data_dirs),
        ),
{
    let mut out: Vec<String> = Vec::new();
    assert(views(out@) =~= Seq::<Seq<char>>::empty());
    push_user_dirs(&mut out, &data_home, &home, "applications");
    push_system_dirs(&mut out, &data_dirs, "applications");
    let ghost before = views(out@);
    out.push("/var/lib/flatpak/exports/share/applications".to_owned());
    out.push("/var/lib/snapd/desktop/applications".to_owned());
    assert(views(out@) =~= before + seq![
        "/var/lib/flatpak/exports/share/applications"@,
        "/var/lib/snapd/desktop/applications"@,
    ]);
    assert(Seq::<Seq<char>>::empty() + user_dirs(data_home, home, "applications"@) =~= user_dirs(
        data_home,
        home,
        "applications"@,
    ));
    out
}

/// The directories searched for icons: the user's, `~/.icons`, those of
/// the system data directories, then the pixmaps, Flatpak's and Snap's.
pub fn icon_theme_dirs(
    data_home: Option<String>,
    home: Option<String>,
    data_dirs: Option<Vec<String>>,
) -> (r: Vec<String>)
    ensures
        views(r@) == icon_dirs(
            data_home,
            home,
            opt_views(data_dirs),
        ),
{
    let mut out: Vec<String> = Vec::new();
    assert(views(out@) =~= Seq::<Seq<char>>::empty());
    push_user_dirs(&mut out, &data_home, &home, "icons");
    assert(Seq::<Seq<char>>::empty() + user_dirs(data_home, home, "icons"@) =~= user_dirs(
        data_home,
        home,
        "icons"@,
    ));
    let ghost after_user = views(out@);
    match is_set(&home) {
        Some(h) => {
            out.push(join_path_str(h.as_str(), ".icons"));
        },
        None => {},
    }
    let ghost home_part = match set_value(home) {
        Some(h) => seq![join_path(h, ".icons"@)],
        None => Seq::<Seq<char>>::empty(),
    };
    assert(views(out@) =~= after_user + home_part);
    push_system_dirs(&mut out, &data_dirs, "icons");
    let ghost before = views(out@);
    out.push("/usr/share/pixmaps".to_owned());
    out.push("/var/lib/flatpak/exports/share/icons".to_owned());
    out.push("/var/lib/snapd/desktop/icons".to_owned());
    assert(views(out@) =~= before + seq![
        "/usr/share/pixmaps"@,
        "/var/lib/flatpak/exports/share/icons"@,
        "/var/lib/snapd/desktop/icons"@,
    ]);
    out
}

} // verus!
