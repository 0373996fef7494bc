//! Windows: what the window and media-session readings mean.  The Win32
//! and WinRT calls are made by the caller.
use vstd::prelude::*;

use image::ImageEncoder;

use crate::codec::{base64_standard_encoded, encode_base64_standard};
use crate::models::{PlatformProbeResult, PlatformSelfTestResult};
use crate::platform::probes::{
    failed_probe, foreground_ok_probe, foreground_probe_is, media_current_probe_is,
    media_none_probe_is, media_ok_probe, probe_from, probe_is, window_title_probe,
    window_title_probe_is,
};
use crate::platform::{
    build_self_test_result, is_reporting_subset, localized_text, media_timestamps_from_position,
    timestamps_from_position, ForegroundSnapshot, MediaInfo, ProbeTextSpec, TargetPlatform,
};
use crate::text::{
    ascii_lower_seq, ascii_lowercase, chars_of, has_prefix, has_suffix, is_blank, is_blank_str,
    starts_with, string_from_chars, trim, trim_str,
};

verus! {

/// The state of a media session as Windows reports it.
#[derive(Clone, Copy, Debug, PartialEq, Eq, Structural)]
pub enum SessionPlaybackStatus {
    Closed,
    Opened,
    Changing,
    Stopped,
    Playing,
    Paused,
}

/// The playback state as the reporter names it.
pub open spec fn status_name(status: SessionPlaybackStatus) -> Seq<char> {
    match status {
        SessionPlaybackStatus::Playing => "playing"@,
        SessionPlaybackStatus::Paused => "paused"@,
        SessionPlaybackStatus::Stopped => "stopped"@,
        _ => Seq::empty(),
    }
}

/// The playback state as the reporter names it.
pub fn playback_status_to_string(status: SessionPlaybackStatus) -> (r: String)
    ensures
        r@ == status_name(status),
{
    match status {
        SessionPlaybackStatus::Playing => "playing".to_owned(),
        SessionPlaybackStatus::Paused => "paused".to_owned(),
        SessionPlaybackStatus::Stopped => "stopped".to_owned(),
        _ => String::new(),
    }
}

/// A duration in 100-nanosecond ticks, in milliseconds; none when negative.
pub open spec fn ticks_ms(ticks: i64) -> Option<i64> {
    if ticks < 0 {
        None
    } else {
        Some((ticks / 10000) as i64)
    }
}

/// A duration in 100-nanosecond ticks, in milliseconds.
pub fn timespan_to_ms(ticks: i64) -> (r: Option<i64>)
    ensures
        r == ticks_ms(ticks),
{
    if ticks < 0 {
        None
    } else {
        Some(ticks / 10000)
    }
}

/// What the session's timeline reports: position, start and end, each as
/// ticks when it could be read.
#[derive(Clone, Copy, Debug)]
pub struct TimelineTicks {
    pub position: Option<i64>,
    pub start: Option<i64>,
    pub end: Option<i64>,
}

/// A tick reading in milliseconds.
pub open spec fn opt_ticks_ms(t: Option<i64>) -> Option<i64> {
    match t {
        Some(x) => ticks_ms(x),
        None => None,
    }
}

/// Position and length from the timeline: the length is end minus start
/// (each 0 when unreadable) when that is positive.
pub open spec fn timeline_ms(t: Option<TimelineTicks>) -> (Option<i64>, Option<i64>) {
    match t {
        Some(tl) => {
            let start = match opt_ticks_ms(tl.start) {
                Some(s) => s as int,
                None => 0,
            };
            let end = match opt_ticks_ms(tl.end) {
                Some(e) => e as int,
                None => 0,
            };
            (opt_ticks_ms(tl.position), if end > start {
                Some((end - start) as i64)
            } else {
                None
            })
        },
        None => (None, None),
    }
}

fn opt_ticks_to_ms(t: Option<i64>) -> (r: Option<i64>)
    ensures
        r == opt_ticks_ms(t),
{
    match t {
        Some(x) => timespan_to_ms(x),
        None => None,
    }
}

/// Position and length from the timeline.
pub fn timeline_to_ms(t: Option<TimelineTicks>) -> (r: (Option<i64>, Option<i64>))
    ensures
        r == timeline_ms(t),
{
    match t {
        Some(tl) => {
            let position = opt_ticks_to_ms(tl.position);
            let start = match opt_ticks_to_ms(tl.start) {
                Some(s) => s,
                None => 0,
            };
            let end = match opt_ticks_to_ms(tl.end) {
                Some(e) => e,
                None => 0,
            };
            (position, if end > start {
                Some(end - start)
            } else {
                None
            })
        },
        None => (None, None),
    }
}

/// What a media session reports: its application (when the source is
/// reported), its state and timeline, and its title, artist, album and
/// cover (when the media is reported).
#[derive(Debug)]
pub struct SessionReading {
    pub source_app_id: String,
    pub status: Option<SessionPlaybackStatus>,
    pub timeline: Option<TimelineTicks>,
    pub title: String,
    pub artist: String,
    pub album: String,
    pub cover_url: String,
}

/// The media a session reading describes, read at `reported_at_ms`, as
/// it is reported.
pub open spec fn session_media_ok(
    r: MediaInfo,
    s: SessionReading,
    include_media: bool,
    include_play_source: bool,
    reported_at_ms: i64,
) -> bool {
    let state = match s.status {
        Some(st) => status_name(st),
        None => Seq::empty(),
    };
    let (position, duration) = timeline_ms(s.timeline);
    let ts = timestamps_from_position(state, position, duration, reported_at_ms);
    exists|full: MediaInfo|
        {
            &&& full.title == s.title
            &&& full.artist == s.artist
            &&& full.album == s.album
            &&& full.source_app_id == s.source_app_id
            &&& full.cover_url == s.cover_url
            &&& full.playback_state@ == state
            &&& full.position_ms == position
            &&& full.duration_ms == duration
            &&& full.start_timestamp_ms == ts.0
            &&& full.end_timestamp_ms == ts.1
            &&& full.reported_at_ms == Some(reported_at_ms)
            &&& is_reporting_subset(r, full, include_media, include_play_source)
        }
}

/// The media a session reading describes, as it is reported.
pub fn media_from_session(
    s: SessionReading,
    include_media: bool,
    include_play_source: bool,
    reported_at_ms: i64,
) -> (r: MediaInfo)
    ensures
        session_media_ok(r, s, include_media, include_play_source, reported_at_ms),
{
    let ghost sv = s;
    let playback_state = match s.status {
        Some(st) => playback_status_to_string(st),
        None => String::new(),
    };
    let (position_ms, duration_ms) = timeline_to_ms(s.timeline);
    let (start_timestamp_ms, end_timestamp_ms) = media_timestamps_from_position(
        playback_state.as_str(),
        position_ms,
        duration_ms,
        reported_at_ms,
    );
    let SessionReading { source_app_id, title, artist, album, cover_url, .. } = s;
    let full = MediaInfo {
        title,
        artist,
        album,
        source_app_id,
        cover_url,
        playback_state,
        position_ms,
        duration_ms,
        start_timestamp_ms,
        end_timestamp_ms,
        reported_at_ms: Some(reported_at_ms),
    };
    let ghost fv = full;
    let r = full.into_reporting_subset(include_media, include_play_source);
    assert(is_reporting_subset(r, fv, include_media, include_play_source));
    r
}

/// The data URL of a session's thumbnail: its content type when that is
/// an image type, else JPEG, and its Base64; empty without bytes.
pub fn thumbnail_data_url(content_type: Option<String>, bytes: &Vec<u8>) -> (r: String)
    ensures
        bytes@.len() == 0 ==> r@.len() == 0,
        bytes@.len() > 0 ==> r@ == "data:"@ + (match content_type {
            Some(c) if has_prefix(c@, "image/"@) => c@,
            _ => "image/jpeg"@,
        }) + ";base64,"@ + base64_standard_encoded(bytes@),
{
    if bytes.len() == 0 {
        return String::new();
    }
    let ct = match content_type {
        Some(c) => if starts_with(c.as_str(), "image/") {
            c
        } else {
            "image/jpeg".to_owned()
        },
        None => "image/jpeg".to_owned(),
    };
    let encoded = encode_base64_standard(bytes);
    let mut r = "data:".to_owned();
    r.append(ct.as_str());
    r.append(";base64,");
    r.append(encoded.as_str());
    proof {
        reveal_strlit("data:");
        reveal_strlit(";base64,");
    }
    r
}

/// Two texts are equal ignoring ASCII case (`eq_ignore_ascii_case`).
pub open spec fn eq_ignore_case(a: Seq<char>, b: Seq<char>) -> bool {
    ascii_lower_seq(a) == ascii_lower_seq(b)
}

fn eq_ignore_ascii_case(a: &str, b: &str) -> (r: bool)
    ensures
        r == eq_ignore_case(a@, b@),
{
    let la = ascii_lowercase(a);
    let lb = ascii_lowercase(b);
    crate::text::str_eq(la.as_str(), lb.as_str())
}

/// Whether an executable's name is one of the candidates, ignoring ASCII
/// case.
pub fn matches_process_candidate(executable_name: &str, candidates: &Vec<String>) -> (r: bool)
    ensures
        r == exists|i: int| 0 <= i < candidates@.len() && eq_ignore_case(executable_name@, #[trigger] candidates@[i]@),
{
    let mut i: usize = 0;
    while i < candidates.len()
        invariant
            i <= candidates.len(),
            forall|j: int| 0 <= j < i ==> !eq_ignore_case(executable_name@, #[trigger] candidates@[j]@),
        decreases candidates.len() - i,
    {
        if eq_ignore_ascii_case(executable_name, candidates[i].as_str()) {
            return true;
        }
        i = i + 1;
    }
    false
}

/// `v` holds `value` trimmed at the end, unless it is blank or equal,
/// ignoring ASCII case, to an entry already there.
pub open spec fn candidates_after(v: Seq<Seq<char>>, value: Seq<char>) -> Seq<Seq<char>> {
    if is_blank(value) || exists|i: int| 0 <= i < v.len() && eq_ignore_case(#[trigger] v[i], trim(value)) {
        v
    } else {
        v.push(trim(value))
    }
}

fn push_candidate(v: &mut Vec<String>, value: &str)
    ensures
        final(v)@.map_values(|s: String| s@) == candidates_after(old(v)@.map_values(|s: String| s@), value@),
{
    let ghost before = v@.map_values(|s: String| s@);
    if is_blank_str(value) {
        return;
    }
    let t = trim_str(value);
    let mut i: usize = 0;
    while i < v.len()
        invariant
            i <= v.len(),
            v@.map_values(|s: String| s@) == before,
            t@ == trim(value@),
            forall|j: int| 0 <= j < i ==> !eq_ignore_case(#[trigger] before[j], t@),
        decreases v.len() - i,
    {
        assert(before[i as int] == v@[i as int]@);
        if eq_ignore_ascii_case(v[i].as_str(), t.as_str()) {
            return;
        }
        i = i + 1;
    }
    v.push(t);
    assert(v@.map_values(|s: String| s@) =~= before.push(trim(value@)));
}

/// The text after the last character of `s` that satisfies `sep`.
pub open spec fn last_segment(s: Seq<char>, sep: spec_fn(char) -> bool) -> Seq<char>
    decreases s.len(),
{
    if s.len() == 0 {
        s
    } else if sep(s.last()) {
        Seq::empty()
    } else {
        last_segment(s.drop_last(), sep).push(s.last())
    }
}

/// The text before the first `c` of `s` (all of it when there is none).
pub open spec fn first_segment(s: Seq<char>, c: char) -> Seq<char>
    decreases s.len(),
{
    if s.len() == 0 {
        s
    } else if s[0] == c {
        Seq::empty()
    } else {
        seq![s[0]] + first_segment(s.drop_first(), c)
    }
}

/// A path separator of an application id: `\`, `/` or `!`.
pub open spec fn is_app_id_separator(c: char) -> bool {
    c == '\\' || c == '/' || c == '!'
}

fn last_segment_of(v: &Vec<char>, seps: &Vec<char>, Ghost(sep): Ghost<spec_fn(char) -> bool>) -> (r: Vec<char>)
    requires
        forall|c: char| sep(c) <==> seps@.contains(c),
    ensures
        r@ == last_segment(v@, sep),
{
    let mut i: usize = v.len();
    assert(v@.subrange(0, v.len() as int) =~= v@);
    assert(v@.subrange(v.len() as int, v.len() as int) =~= Seq::<char>::empty());
    assert(last_segment(v@, sep) + Seq::<char>::empty() =~= last_segment(v@, sep));
    while i > 0 && !contains_char(seps, v[i - 1])
        invariant
            i <= v.len(),
            forall|c: char| sep(c) <==> seps@.contains(c),
            last_segment(v@, sep) == last_segment(v@.subrange(0, i as int), sep) + v@.subrange(i as int, v.len() as int),
        decreases i,
    {
        proof {
            let p = v@.subrange(0, i as int);
            assert(p.drop_last() =~= v@.subrange(0, i - 1));
            assert(v@.subrange(i - 1, v.len() as int) =~= seq![p.last()] + v@.subrange(i as int, v.len() as int));
            assert(last_segment(p, sep) == last_segment(p.drop_last(), sep).push(p.last()));
            assert(last_segment(p.drop_last(), sep).push(p.last()) + v@.subrange(i as int, v.len() as int)
                =~= last_segment(p.drop_last(), sep) + v@.subrange(i - 1, v.len() as int));
        }
        i = i - 1;
    }
    proof {
        let p = v@.subrange(0, i as int);
        if i > 0 {
            assert(sep(p.last()));
        }
        assert(last_segment(p, sep) =~= Seq::<char>::empty());
        assert(last_segment(v@, sep) =~= v@.subrange(i as int, v.len() as int));
    }
    let mut r: Vec<char> = Vec::new();
    let mut k = i;
    while k < v.len()
        invariant
            i <= k <= v.len(),
            r@ == v@.subrange(i as int, k as int),
        decreases v.len() - k,
    {
        r.push(v[k]);
        assert(v@.subrange(i as int, k + 1) =~= v@.subrange(i as int, k as int).push(v@[k as int]));
        k = k + 1;
    }
    r
}

fn contains_char(v: &Vec<char>, c: char) -> (b: bool)
    ensures
        b == v@.contains(c),
{
    let mut i: usize = 0;
    while i < v.len()
        invariant
            i <= v.len(),
            forall|j: int| 0 <= j < i ==> v@[j] != c,
        decreases v.len() - i,
    {
        if v[i] == c {
            return true;
        }
        i = i + 1;
    }
    false
}

fn first_segment_of(v: &Vec<char>, c: char) -> (r: Vec<char>)
    ensures
        r@ == first_segment(v@, c),
{
    let mut r: Vec<char> = Vec::new();
    let mut i: usize = 0;
    assert(v@.subrange(0, v.len() as int) =~= v@);
    assert(v@.subrange(0, 0) + first_segment(v@, c) =~= first_segment(v@, c));
    while i < v.len() && v[i] != c
        invariant
            i <= v.len(),
            r@ == v@.subrange(0, i as int),
            forall|j: int| 0 <= j < i ==> v@[j] != c,
            first_segment(v@, c) == v@.subrange(0, i as int) + first_segment(v@.subrange(i as int, v.len() as int), c),
        decreases v.len() - i,
    {
        proof {
            let rest = v@.subrange(i as int, v.len() as int);
            assert(rest.drop_first() =~= v@.subrange(i + 1, v.len() as int));
            assert(v@.subrange(0, i + 1) =~= v@.subrange(0, i as int) + seq![rest[0]]);
            assert(v@.subrange(0, i as int) + (seq![rest[0]] + first_segment(rest.drop_first(), c))
                =~= v@.subrange(0, i + 1) + first_segment(rest.drop_first(), c));
        }
        r.push(v[i]);
        i = i + 1;
    }
    proof {
        let rest = v@.subrange(i as int, v.len() as int);
        assert(first_segment(rest, c) =~= Seq::<char>::empty());
        assert(first_segment(v@, c) =~= r@);
    }
    r
}

/// The part of an application id that names its program: after the last
/// separator, before the first `_`.
pub open spec fn app_id_tail(source_app_id: Seq<char>) -> Seq<char> {
    first_segment(last_segment(trim(source_app_id), |c: char| is_app_id_separator(c)), '_')
}

/// The part of a name after its last `.`.
pub open spec fn dotted_tail(tail: Seq<char>) -> Seq<char> {
    last_segment(tail, |c: char| c == '.')
}

/// The executable names a media session's application id may stand for:
/// its program part, the part after its last dot, and each with `.exe`
/// when it has none, without repeats (ignoring ASCII case).
pub open spec fn process_candidates_spec(source_app_id: Seq<char>) -> Seq<Seq<char>> {
    let tail = app_id_tail(source_app_id);
    let dotted = dotted_tail(tail);
    let c1 = candidates_after(Seq::empty(), tail);
    let c2 = candidates_after(c1, dotted);
    let c3 = if has_suffix(ascii_lower_seq(tail), ".exe"@) {
        c2
    } else {
        candidates_after(c2, tail + ".exe"@)
    };
    if has_suffix(ascii_lower_seq(dotted), ".exe"@) {
        c3
    } else {
        candidates_after(c3, dotted + ".exe"@)
    }
}

fn ends_with_exe(s: &str) -> (b: bool)
    ensures
        b == has_suffix(ascii_lower_seq(s@), ".exe"@),
{
    let l = ascii_lowercase(s);
    let v = chars_of(l.as_str());
    proof {
        reveal_strlit(".exe");
    }
    if v.len() < 4 {
        return false;
    }
    let n = v.len();
    let r = v[n - 4] == '.' && v[n - 3] == 'e' && v[n - 2] == 'x' && v[n - 1] == 'e';
    proof {
        let suffix = v@.subrange(n - 4, n as int);
        if r {
            assert(suffix =~= ".exe"@);
        } else {
            assert(suffix != ".exe"@) by {
                if suffix == ".exe"@ {
                    assert(suffix[0] == v@[n - 4]);
                    assert(suffix[1] == v@[n - 3]);
                    assert(suffix[2] == v@[n - 2]);
                    assert(suffix[3] == v@[n - 1]);
                }
            }
        }
    }
    r
}

/// The executable names a media session's application id may stand for.
pub fn process_name_candidates(source_app_id: &str) -> (r: Vec<String>)
    ensures
        r@.map_values(|s: String| s@) == process_candidates_spec(source_app_id@),
{
    let t = trim_str(source_app_id);
    let tv = chars_of(t.as_str());
    let mut seps: Vec<char> = Vec::new();
    seps.push('\\');
    seps.push('/');
    seps.push('!');
    let ghost sep = |c: char| is_app_id_separator(c);
    assert forall|c: char| sep(c) <==> seps@.contains(c) by {
        if c == '\\' {
            assert(seps@[0] == c);
        }
        if c == '/' {
            assert(seps@[1] == c);
        }
        if c == '!' {
            assert(seps@[2] == c);
        }
    }
    let last = last_segment_of(&tv, &seps, Ghost(sep));
    assert(sep =~= (|c: char| is_app_id_separator(c)));
    let tail_v = first_segment_of(&last, '_');
    let tail = string_from_chars(&tail_v, 0, tail_v.len());
    assert(tail_v@.subrange(0, tail_v.len() as int) =~= tail_v@);
    let mut dots: Vec<char> = Vec::new();
    dots.push('.');
    let ghost dsep = |c: char| c == '.';
    assert forall|c: char| dsep(c) <==> dots@.contains(c) by {
        if c == '.' {
            assert(dots@[0] == c);
        }
    }
    let dotted_v = last_segment_of(&tail_v, &dots, Ghost(dsep));
    assert(dsep =~= (|c: char| c == '.'));
    assert(tail@ == app_id_tail(source_app_id@));
    let dotted = string_from_chars(&dotted_v, 0, dotted_v.len());
    assert(dotted_v@.subrange(0, dotted_v.len() as int) =~= dotted_v@);
    assert(dotted@ == dotted_tail(tail@));
    proof {
        reveal_strlit(".exe");
    }
    let mut candidates: Vec<String> = Vec::new();
    assert(candidates@.map_values(|s: String| s@) =~= Seq::<Seq<char>>::empty());
    push_candidate(&mut candidates, tail.as_str());
    push_candidate(&mut candidates, dotted.as_str());
    if !ends_with_exe(tail.as_str()) {
        let mut with_exe = tail.clone();
        with_exe.append(".exe");
        push_candidate(&mut candidates, with_exe.as_str());
    }
    if !ends_with_exe(dotted.as_str()) {
        let mut with_exe = dotted.clone();
        with_exe.append(".exe");
        push_candidate(&mut candidates, with_exe.as_str());
    }
    candidates
}

/// The foreground window from the Win32 readings: whether there is a
/// foreground window, its title, its process id (0 when unknown) and its
/// executable's file name when that could be read.
pub fn foreground_from_window(
    has_window: bool,
    title: String,
    pid: u32,
    exe_name: Option<String>,
) -> (r: Result<ForegroundSnapshot, String>)
    ensures
        !has_window ==> r is Err && r->Err_0@ == "读取前台窗口失败：GetForegroundWindow 返回空句柄。"@,
        has_window && pid == 0 ==> r is Err && r->Err_0@ == "读取前台窗口失败：未能解析前台进程 ID。"@,
        has_window && pid != 0 ==> r is Ok && r->Ok_0.process_title == title && r->Ok_0.process_name@
            == (match exe_name {
            Some(n) => n@,
            None => "unknown"@,
        }),
{
    if !has_window {
        return Err("读取前台窗口失败：GetForegroundWindow 返回空句柄。".to_owned());
    }
    if pid == 0 {
        return Err("读取前台窗口失败：未能解析前台进程 ID。".to_owned());
    }
    let process_name = match exe_name {
        Some(n) => n,
        None => "unknown".to_owned(),
    };
    Ok(ForegroundSnapshot { process_name, process_title: title })
}

/// The accessibility permission cannot be requested on Windows.
pub fn request_accessibility_permission() -> (r: Result<bool, String>)
    ensures
        r is Err,
        r->Err_0@ == "当前平台不支持辅助功能权限申请。"@,
{
    Err("当前平台不支持辅助功能权限申请。".to_owned())
}

/// The Windows self-test from its readings: the foreground window read
/// twice (for the application, then for the title) and the media.
pub fn run_self_test(
    foreground: Result<ForegroundSnapshot, String>,
    window: Result<ForegroundSnapshot, String>,
    media: Result<MediaInfo, String>,
) -> (r: PlatformSelfTestResult)
    ensures
        r.platform@ == "windows"@,
        match foreground {
            Ok(s) => foreground_probe_is(r.foreground, s.process_name@),
            Err(e) => probe_is(
                r.foreground,
                false,
                "platformSelfTest.summary.foregroundFailed"@,
                "前台应用采集失败"@,
                "platformSelfTest.detail.foregroundReadFailed"@,
                e@,
                None,
                Seq::empty(),
            ),
        },
        match window {
            Ok(s) => window_title_probe_is(r.window_title, s.process_title@),
            Err(e) => probe_is(
                r.window_title,
                false,
                "platformSelfTest.summary.windowTitleFailed"@,
                "窗口标题采集失败"@,
                "platformSelfTest.detail.windowTitleReadFailed"@,
                e@,
                None,
                Seq::empty(),
            ),
        },
        match media {
            Ok(m) => if crate::platform::media_empty(m) {
                media_none_probe_is(r.media, Seq::empty())
            } else {
                media_current_probe_is(r.media, m)
            },
            Err(e) => probe_is(
                r.media,
                false,
                "platformSelfTest.summary.mediaFailed"@,
                "媒体采集失败"@,
                "platformSelfTest.detail.mediaReadFailed"@,
                e@,
                None,
                Seq::empty(),
            ),
        },
{
    let fg = match foreground {
        Ok(snapshot) => foreground_ok_probe(snapshot.process_name.as_str()),
        Err(error) => failed_probe(
            "platformSelfTest.summary.foregroundFailed",
            "前台应用采集失败",
            localized_text("platformSelfTest.detail.foregroundReadFailed", None, error),
            Vec::new(),
            Ghost(Seq::empty()),
        ),
    };
    let title = match window {
        Ok(snapshot) => window_title_probe(snapshot.process_title.as_str()),
        Err(error) => failed_probe(
            "platformSelfTest.summary.windowTitleFailed",
            "窗口标题采集失败",
            localized_text("platformSelfTest.detail.windowTitleReadFailed", None, error),
            Vec::new(),
            Ghost(Seq::empty()),
        ),
    };
    let md = match media {
        Ok(info) => if !info.is_empty() {
            media_ok_probe(&info)
        } else {
            probe_from(
                true,
                "platformSelfTest.summary.mediaNone",
                "当前没有播放中的媒体",
                localized_text(
                    "platformSelfTest.detail.mediaNone",
                    None,
                    "系统当前没有可用的正在播放信息。".to_owned(),
                ),
                Vec::new(),
                Ghost(Seq::empty()),
            )
        },
        Err(error) => failed_probe(
            "platformSelfTest.summary.mediaFailed",
            "媒体采集失败",
            localized_text("platformSelfTest.detail.mediaReadFailed", None, error),
            Vec::new(),
            Ghost(Seq::empty()),
        ),
    };
    build_self_test_result(TargetPlatform::Windows, fg, title, md)
}

/// The pixel at byte `i` of a BGRA bitmap, in RGBA order: within each
/// whole group of four bytes the first and third swap; bytes past the last
/// whole group stay.
pub open spec fn rgba_byte(bgra: Seq<u8>, i: int) -> u8 {
    if i < bgra.len() - bgra.len() % 4 {
        if i % 4 == 0 {
            bgra[i + 2]
        } else if i % 4 == 2 {
            bgra[i - 2]
        } else {
            bgra[i]
        }
    } else {
        bgra[i]
    }
}

/// A BGRA bitmap (as GDI draws icons) in RGBA order.
pub fn bgra_to_rgba(bgra: &Vec<u8>) -> (r: Vec<u8>)
    ensures
        r@.len() == bgra@.len(),
        forall|i: int| 0 <= i < bgra@.len() ==> r@[i] == rgba_byte(bgra@, i),
{
    let mut r: Vec<u8> = Vec::new();
    let whole: usize = bgra.len() - bgra.len() % 4;
    let mut i: usize = 0;
    while i < bgra.len()
        invariant
            i <= bgra@.len(),
            whole == bgra@.len() - bgra@.len() % 4,
            r@.len() == i,
            forall|j: int| 0 <= j < i ==> r@[j] == rgba_byte(bgra@, j),
        decreases bgra.len() - i,
    {
        let b = if i < whole {
            if i % 4 == 0 {
                bgra[i + 2]
            } else if i % 4 == 2 {
                bgra[i - 2]
            } else {
                bgra[i]
            }
        } else {
            bgra[i]
        };
        r.push(b);
        i = i + 1;
    }
    r
}

/// The PNG that `image::codecs::png::PngEncoder` writes for RGBA pixels
/// of `width` by `height`, or its error's text.
pub uninterp spec fn encoded_rgba_png(pixels: Seq<u8>, width: u32, height: u32) -> Result<Seq<u8>, Seq<char>>;

/// `PngEncoder::write_image` of RGBA 8-bit pixels into a new buffer.
/// Claimed: the result is `encoded_rgba_png` of the arguments, the error
/// given by its text.  The encoder panics unless the pixels fill the
/// image exactly, which `requires` rules out.
#[verifier::external_body]
fn encode_rgba_png(pixels: &Vec<u8>, width: u32, height: u32) -> (r: Result<Vec<u8>, String>)
    requires
        pixels@.len() == 4 * (width as int) * (height as int),
    ensures
        match (r, encoded_rgba_png(pixels@, width, height)) {
            (Ok(a), Ok(b)) => a@ == b,
            (Err(a), Err(b)) => a@ == b,
            _ => false,
        },
{
    let mut png: Vec<u8> = Vec::new();
    match image::codecs::png::PngEncoder::new(&mut png).write_image(
        pixels,
        width,
        height,
        image::ColorType::Rgba8.into(),
    ) {
        Ok(()) => Ok(png),
        Err(error) => Err(error.to_string()),
    }
}

/// The PNG of an application icon drawn by GDI into a `size` by `size`
/// BGRA bitmap: its pixels in RGBA order, encoded; the encoder's error
/// after a message.
pub fn icon_bitmap_to_png(bgra: &Vec<u8>, size: u32) -> (r: Result<Vec<u8>, String>)
    requires
        bgra@.len() == 4 * (size as int) * (size as int),
    ensures
        ({
            let rgba = Seq::new(bgra@.len(), |i: int| rgba_byte(bgra@, i));
            match encoded_rgba_png(rgba, size, size) {
                Ok(png) => r is Ok && r->Ok_0@ == png,
                Err(e) => r is Err && r->Err_0@ == "编码应用图标 PNG 失败："@ + e,
            }
        }),
{
    let rgba = bgra_to_rgba(bgra);
    proof {
        assert(rgba@ =~= Seq::new(bgra@.len(), |i: int| rgba_byte(bgra@, i)));
    }
    match encode_rgba_png(&rgba, size, size) {
        Ok(png) => Ok(png),
        Err(error) => {
            let mut message = "编码应用图标 PNG 失败：".to_owned();
            message.append(error.as_str());
            proof {
                reveal_strlit("编码应用图标 PNG 失败：");
            }
            Err(message)
        },
    }
}

} // verus!
