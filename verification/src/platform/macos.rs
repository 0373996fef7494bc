//! macOS: the foreground application and window title come from a native
//! bridge, the playing media from the `mediaremote-adapter` script.  The
//! readings are made by the caller; what they mean is decided here.
use vstd::prelude::*;

use crate::codec::{base64_standard_decoded, decode_standard, opt_bytes};
use crate::json::opt_data;
use crate::models::{PlatformProbeResult, PlatformSelfTestResult};
use crate::platform::probes::{
    failed_probe, foreground_ok_probe, foreground_probe_is, guidance_is, media_none_probe,
    media_ok_probe, media_probe_is, probe_from, probe_is, push_guidance, single_text_object,
};
use crate::platform::{
    build_self_test_result, image_bytes_to_png_data_url, localized_text, media_empty,
    media_is_default, timestamps_from_position, media_timestamps_from_position, ForegroundSnapshot,
    MediaInfo, ProbeTextSpec, TargetPlatform,
};
use crate::text::{
    ascii_lower_seq, ascii_lowercase, contains, contains_str, is_blank, is_blank_str, lines,
    lines_of, opt_seq, str_eq, to_lowercase, trim, trim_str, unicode_lowercase,
};

verus! {

/// The foreground window from the bridge's readings: the application
/// name, which must not be blank, and the window title, if any.
pub fn get_foreground_snapshot(app_name: Option<String>, window_title: Option<String>) -> (r: Result<
    ForegroundSnapshot,
    String,
>)
    ensures
        (match app_name {
            Some(n) => !is_blank(n@),
            None => false,
        }) ==> r is Ok && r->Ok_0.process_name == app_name->Some_0 && r->Ok_0.process_title@ == (
        match window_title {
            Some(t) => t@,
            None => Seq::empty(),
        }),
        !(match app_name {
            Some(n) => !is_blank(n@),
            None => false,
        }) ==> r is Err && r->Err_0@ == "读取 macOS 前台应用失败。"@,
{
    let process_name = match app_name {
        Some(n) => if is_blank_str(n.as_str()) {
            return Err("读取 macOS 前台应用失败。".to_owned());
        } else {
            n
        },
        None => {
            return Err("读取 macOS 前台应用失败。".to_owned());
        },
    };
    let process_title = match window_title {
        Some(t) => t,
        None => String::new(),
    };
    Ok(ForegroundSnapshot { process_name, process_title })
}

/// What is reported of the foreground window, from the bridge's readings
/// (consulted only for what is reported): nothing when nothing is asked;
/// the application (which must be readable) and, when asked, the title;
/// or only the title.
pub fn get_foreground_snapshot_for_reporting(
    include_process_name: bool,
    include_process_title: bool,
    app_name: Option<String>,
    window_title: Option<String>,
) -> (r: Result<ForegroundSnapshot, String>)
    ensures
        !include_process_name && !include_process_title ==> r is Ok && r->Ok_0.process_name@.len()
            == 0 && r->Ok_0.process_title@.len() == 0,
        include_process_name ==> match get_foreground_snapshot_spec(app_name, window_title) {
            Ok((n, t)) => r is Ok && r->Ok_0.process_name@ == n && r->Ok_0.process_title@ == (if include_process_title {
                t
            } else {
                Seq::empty()
            }),
            Err(e) => r is Err && r->Err_0@ == e,
        },
        !include_process_name && include_process_title ==> r is Ok && r->Ok_0.process_name@.len()
            == 0 && r->Ok_0.process_title@ == (match window_title {
            Some(t) => t@,
            None => Seq::empty(),
        }),
{
    if !include_process_name && !include_process_title {
        return Ok(ForegroundSnapshot::default());
    }
    if include_process_name {
        let mut snapshot = get_foreground_snapshot(app_name, window_title)?;
        if !include_process_title {
            snapshot.process_title = String::new();
        }
        return Ok(snapshot);
    }
    let process_title = match window_title {
        Some(t) => t,
        None => String::new(),
    };
    Ok(ForegroundSnapshot { process_name: String::new(), process_title })
}

/// `get_foreground_snapshot` on views.
pub open spec fn get_foreground_snapshot_spec(app_name: Option<String>, window_title: Option<String>) -> Result<
    (Seq<char>, Seq<char>),
    Seq<char>,
> {
    match app_name {
        Some(n) => if is_blank(n@) {
            Err("读取 macOS 前台应用失败。"@)
        } else {
            Ok(
                (
                    n@,
                    match window_title {
                        Some(t) => t@,
                        None => Seq::empty(),
                    },
                ),
            )
        },
        None => Err("读取 macOS 前台应用失败。"@),
    }
}

/// The accessibility permission as the bridge reports it after asking.
pub fn request_accessibility_permission(granted: bool) -> (r: Result<bool, String>)
    ensures
        r == Ok::<bool, String>(granted),
{
    Ok(granted)
}

/// A text the adapter reports: trimmed, and empty when it is blank or
/// `null` in any case.
pub open spec fn adapter_text(value: Option<Seq<char>>) -> Seq<char> {
    match value {
        Some(v) => if trim(v).len() == 0 || ascii_lower_seq(trim(v)) == "null"@ {
            Seq::empty()
        } else {
            trim(v)
        },
        None => Seq::empty(),
    }
}

fn is_null_word(s: &str) -> (b: bool)
    ensures
        b == (ascii_lower_seq(s@) == "null"@),
{
    let l = ascii_lowercase(s);
    str_eq(l.as_str(), "null")
}

/// A text the adapter reports, normalized.
pub fn normalize_text(value: Option<String>) -> (r: String)
    ensures
        r@ == adapter_text(opt_seq(value)),
{
    match value {
        Some(v) => {
            let t = trim_str(v.as_str());
            if t.as_str().is_empty() || is_null_word(t.as_str()) {
                String::new()
            } else {
                t
            }
        },
        None => String::new(),
    }
}

/// A text the adapter reports, normalized; none when it comes out empty.
pub fn normalize_optional_str(value: Option<&str>) -> (r: Option<String>)
    ensures
        ({
            let t = adapter_text(
                match value {
                    Some(v) => Some(v@),
                    None => None,
                },
            );
            &&& t.len() == 0 ==> r is None
            &&& t.len() > 0 ==> r is Some && r->Some_0@ == t
        }),
{
    match value {
        Some(v) => {
            let t = trim_str(v);
            if t.as_str().is_empty() || is_null_word(t.as_str()) {
                None
            } else {
                Some(t)
            }
        },
        None => None,
    }
}

/// What the adapter reports of the playing media.  Its playback rate is
/// kept only as whether it is positive.
#[derive(Debug)]
pub struct MacNowPlaying {
    pub bundle_identifier: Option<String>,
    pub parent_application_bundle_identifier: Option<String>,
    pub playing: Option<bool>,
    pub title: Option<String>,
    pub artist: Option<String>,
    pub album: Option<String>,
    pub duration_micros: Option<i64>,
    pub playback_rate_positive: Option<bool>,
    pub artwork_data: Option<String>,
}

/// The playing application: the bundle, else its parent application.
pub open spec fn source_app_id_spec(raw: MacNowPlaying) -> Seq<char> {
    let own = adapter_text(opt_seq(raw.bundle_identifier));
    if own.len() > 0 {
        own
    } else {
        adapter_text(opt_seq(raw.parent_application_bundle_identifier))
    }
}

fn opt_str(o: &Option<String>) -> (r: Option<&str>)
    ensures
        match r {
            Some(s) => o is Some && s@ == o->Some_0@,
            None => o is None,
        },
{
    match o {
        Some(s) => Some(s.as_str()),
        None => None,
    }
}

/// The playing application.
pub fn resolve_source_app_id(raw: &MacNowPlaying) -> (r: String)
    ensures
        r@ == source_app_id_spec(*raw),
{
    match normalize_optional_str(opt_str(&raw.bundle_identifier)) {
        Some(id) => id,
        None => match normalize_optional_str(opt_str(&raw.parent_application_bundle_identifier)) {
            Some(id) => id,
            None => String::new(),
        },
    }
}

/// The playback state: by the `playing` flag when given, else by whether
/// the playback rate is positive, else unknown (empty).
pub open spec fn mac_playback_state(playing: Option<bool>, rate_positive: Option<bool>) -> Seq<char> {
    match playing {
        Some(true) => "playing"@,
        Some(false) => "paused"@,
        None => match rate_positive {
            Some(true) => "playing"@,
            Some(false) => "paused"@,
            None => Seq::empty(),
        },
    }
}

/// The playback state.
pub fn normalize_playback_state(playing: Option<bool>, rate_positive: Option<bool>) -> (r: String)
    ensures
        r@ == mac_playback_state(playing, rate_positive),
{
    match playing {
        Some(true) => "playing".to_owned(),
        Some(false) => "paused".to_owned(),
        None => match rate_positive {
            Some(true) => "playing".to_owned(),
            Some(false) => "paused".to_owned(),
            None => String::new(),
        },
    }
}

/// Microseconds in milliseconds; none when absent or negative.
pub open spec fn micros_ms(value: Option<i64>) -> Option<i64> {
    match value {
        Some(m) => if m < 0 {
            None
        } else {
            Some((m / 1000) as i64)
        },
        None => None,
    }
}

/// Microseconds in milliseconds.
pub fn micros_to_ms(value: Option<i64>) -> (r: Option<i64>)
    ensures
        r == micros_ms(value),
{
    match value {
        Some(m) => if m < 0 {
            None
        } else {
            Some(m / 1000)
        },
        None => None,
    }
}

/// The media the adapter reports, given where it is now (`position_ms`,
/// computed by the caller from the elapsed times and the rate), the cover
/// as a data URL and the time of the reading.  Nothing when title, artist
/// and album are all blank.
pub open spec fn adapter_media_ok(
    m: MediaInfo,
    raw: MacNowPlaying,
    position_ms: Option<i64>,
    cover_url: Seq<char>,
    reported_at_ms: i64,
) -> bool {
    let title = adapter_text(opt_seq(raw.title));
    let artist = adapter_text(opt_seq(raw.artist));
    let album = adapter_text(opt_seq(raw.album));
    let state = mac_playback_state(raw.playing, raw.playback_rate_positive);
    let duration = micros_ms(raw.duration_micros);
    let ts = timestamps_from_position(state, position_ms, duration, reported_at_ms);
    if is_blank(title) && is_blank(artist) && is_blank(album) {
        media_is_default(m)
    } else {
        &&& m.title@ == title
        &&& m.artist@ == artist
        &&& m.album@ == album
        &&& m.source_app_id@ == source_app_id_spec(raw)
        &&& m.cover_url@ == cover_url
        &&& m.playback_state@ == state
        &&& m.position_ms == position_ms
        &&& m.duration_ms == duration
        &&& m.start_timestamp_ms == ts.0
        &&& m.end_timestamp_ms == ts.1
        &&& m.reported_at_ms == Some(reported_at_ms)
    }
}

/// The media the adapter reports.
pub fn media_from_adapter(
    raw: MacNowPlaying,
    position_ms: Option<i64>,
    cover_url: String,
    reported_at_ms: i64,
) -> (r: MediaInfo)
    ensures
        adapter_media_ok(r, raw, position_ms, cover_url@, reported_at_ms),
{
    let ghost rv = raw;
    let source_app_id = resolve_source_app_id(&raw);
    let playback_state = normalize_playback_state(raw.playing, raw.playback_rate_positive);
    let duration_ms = micros_to_ms(raw.duration_micros);
    let (start_timestamp_ms, end_timestamp_ms) = media_timestamps_from_position(
        playback_state.as_str(),
        position_ms,
        duration_ms,
        reported_at_ms,
    );
    let MacNowPlaying { title, artist, album, .. } = raw;
    let media = MediaInfo {
        title: normalize_text(title),
        artist: normalize_text(artist),
        album: normalize_text(album),
        source_app_id,
        cover_url,
        playback_state,
        position_ms,
        duration_ms,
        start_timestamp_ms,
        end_timestamp_ms,
        reported_at_ms: Some(reported_at_ms),
    };
    if media.is_empty() {
        return MediaInfo::default();
    }
    media
}

/// The adapter's output means that nothing is playing.
pub open spec fn adapter_says_nothing_playing(stdout: Seq<char>, stderr: Seq<char>) -> bool {
    let c = unicode_lowercase(stdout + "\n"@ + stderr);
    ||| contains(c, "null"@)
    ||| contains(c, "no media"@)
    ||| contains(c, "no now playing"@)
    ||| contains(c, "nothing is playing"@)
    ||| contains(c, "not playing"@)
    ||| contains(c, "no player"@)
}

/// The first line of `ls` that is not blank, trimmed.
pub open spec fn first_nonblank_line(ls: Seq<Seq<char>>) -> Option<Seq<char>>
    decreases ls.len(),
{
    if ls.len() == 0 {
        None
    } else if !is_blank(ls[0]) {
        Some(trim(ls[0]))
    } else {
        first_nonblank_line(ls.drop_first())
    }
}

fn first_nonblank_line_of(text: &str) -> (r: Option<String>)
    ensures
        opt_seq(r) == first_nonblank_line(lines(text@)),
{
    let ls = lines_of(text);
    let ghost all = lines(text@);
    let mut i: usize = 0;
    assert(all.subrange(0, all.len() as int) =~= all);
    while i < ls.len()
        invariant
            i <= ls.len(),
            ls@.map_values(|l: String| l@) == all,
            all == lines(text@),
            first_nonblank_line(all) == first_nonblank_line(all.subrange(i as int, all.len() as int)),
        decreases ls.len() - i,
    {
        let ghost rest = all.subrange(i as int, all.len() as int);
        assert(rest.drop_first() =~= all.subrange(i + 1, all.len() as int));
        assert(rest[0] == ls@[i as int]@);
        if !is_blank_str(ls[i].as_str()) {
            return Some(trim_str(ls[i].as_str()));
        }
        i = i + 1;
    }
    None
}

/// What a failed adapter run means: nothing playing when its output says
/// so; else a failure with its first non-blank error line, else its first
/// non-blank output line, else `未知错误`.
pub fn adapter_failure(stdout: &str, stderr: &str) -> (r: Result<MediaInfo, AdapterError>)
    ensures
        adapter_says_nothing_playing(stdout@, stderr@) ==> r is Ok && media_is_default(r->Ok_0),
        !adapter_says_nothing_playing(stdout@, stderr@) ==> r is Err && r->Err_0 is Failed
            && r->Err_0->Failed_0@ == match first_nonblank_line(lines(stderr@)) {
            Some(l) => l,
            None => match first_nonblank_line(lines(stdout@)) {
                Some(l) => l,
                None => "未知错误"@,
            },
        },
{
    let mut combined = stdout.to_owned();
    combined.append("\n");
    combined.append(stderr);
    let lower = to_lowercase(combined.as_str());
    let l = lower.as_str();
    proof {
        reveal_strlit("\n");
    }
    if contains_str(l, "null") || contains_str(l, "no media") || contains_str(l, "no now playing")
        || contains_str(l, "nothing is playing") || contains_str(l, "not playing") || contains_str(
        l,
        "no player",
    ) {
        return Ok(MediaInfo::default());
    }
    let detail = match first_nonblank_line_of(stderr) {
        Some(d) => d,
        None => match first_nonblank_line_of(stdout) {
            Some(d) => d,
            None => "未知错误".to_owned(),
        },
    };
    Err(AdapterError::Failed(detail))
}

/// The adapter's output holds no media: it is blank or `null`.
pub fn adapter_output_is_empty(stdout: &str) -> (b: bool)
    ensures
        b == (trim(stdout@).len() == 0 || trim(stdout@) == "null"@),
{
    let t = trim_str(stdout);
    t.as_str().is_empty() || str_eq(t.as_str(), "null")
}

/// Why the adapter gave no reading.
#[derive(Debug)]
pub enum AdapterError {
    /// Its resources are not bundled; the path looked for.
    ResourceMissing(String),
    /// Perl could not be started; the `PATH` and the files tried.
    NotFound { path: String, attempted: Vec<String> },
    /// It took longer than five seconds.
    TimedOut,
    /// It failed, with this detail.
    Failed(String),
}

/// The hint shown when the adapter's resources are missing.
pub open spec fn adapter_hint() -> Seq<char> {
    "请先运行 `pnpm tauri dev` / `pnpm tauri build`，或手动执行 `pnpm prepare:mediaremote-adapter`。"@
}

/// The texts of `v` joined by `, `.
pub open spec fn joined(v: Seq<Seq<char>>) -> Seq<char> {
    crate::platform::join(v, ", "@)
}

/// The message shown for an adapter error.
pub open spec fn adapter_message(e: AdapterError) -> Seq<char> {
    match e {
        AdapterError::ResourceMissing(path) => "缺少 macOS mediaremote-adapter 资源："@ + path@ + "。"@
            + adapter_hint(),
        AdapterError::NotFound { path, attempted } => "调用 mediaremote-adapter 失败：未在资源目录中找到脚本或框架。已尝试："@
            + joined(attempted@.map_values(|s: String| s@)) + "。PATH="@ + path@,
        AdapterError::TimedOut => "调用 mediaremote-adapter 超时（>5000ms）。"@,
        AdapterError::Failed(detail) => "mediaremote-adapter 返回失败："@ + detail@,
    }
}

impl AdapterError {
    /// The message shown for this error.
    pub fn into_user_message(self) -> (r: String)
        ensures
            r@ == adapter_message(self),
    {
        proof {
            reveal_strlit("缺少 macOS mediaremote-adapter 资源：");
            reveal_strlit("。");
            reveal_strlit("请先运行 `pnpm tauri dev` / `pnpm tauri build`，或手动执行 `pnpm prepare:mediaremote-adapter`。");
            reveal_strlit("调用 mediaremote-adapter 失败：未在资源目录中找到脚本或框架。已尝试：");
            reveal_strlit("。PATH=");
            reveal_strlit("mediaremote-adapter 返回失败：");
        }
        match self {
            AdapterError::ResourceMissing(path) => {
                let mut m = "缺少 macOS mediaremote-adapter 资源：".to_owned();
                m.append(path.as_str());
                m.append("。");
                m.append(
                    "请先运行 `pnpm tauri dev` / `pnpm tauri build`，或手动执行 `pnpm prepare:mediaremote-adapter`。",
                );
                m
            },
            AdapterError::NotFound { path, attempted } => {
                let mut m = "调用 mediaremote-adapter 失败：未在资源目录中找到脚本或框架。已尝试：".to_owned();
                let list = crate::platform::join_strings(&attempted, ", ");
                m.append(list.as_str());
                m.append("。PATH=");
                m.append(path.as_str());
                m
            },
            AdapterError::TimedOut => "调用 mediaremote-adapter 超时（>5000ms）。".to_owned(),
            AdapterError::Failed(detail) => {
                let mut m = "mediaremote-adapter 返回失败：".to_owned();
                m.append(detail.as_str());
                m
            },
        }
    }
}

/// The arguments of the adapter call: the script, the framework, `get
/// --now --micros`, and `--no-artwork` unless the cover is wanted.
pub fn adapter_args(script_path: &str, framework_path: &str, include_artwork: bool) -> (r: Vec<String>)
    ensures
        r@.map_values(|s: String| s@) == seq![script_path@, framework_path@, "get"@, "--now"@, "--micros"@]
            + (if include_artwork {
            Seq::<Seq<char>>::empty()
        } else {
            seq!["--no-artwork"@]
        }),
{
    let mut args: Vec<String> = Vec::new();
    args.push(script_path.to_owned());
    args.push(framework_path.to_owned());
    args.push("get".to_owned());
    args.push("--now".to_owned());
    args.push("--micros".to_owned());
    if !include_artwork {
        args.push("--no-artwork".to_owned());
    }
    assert(args@.map_values(|s: String| s@) =~= seq![script_path@, framework_path@, "get"@, "--now"@, "--micros"@]
        + (if include_artwork {
        Seq::<Seq<char>>::empty()
    } else {
        seq!["--no-artwork"@]
    }));
    args
}

/// The Base64 part of an artwork payload: what follows the first `,`
/// (as in a data URL), else the whole text, trimmed.
pub open spec fn artwork_base64_part(t: Seq<char>) -> Seq<char> {
    match crate::platform::linux::x11::second_field(t, ',') {
        Some(_) => trim(after_first(t, ',')),
        None => trim(t),
    }
}

/// What follows the first `c` of `s`.
pub open spec fn after_first(s: Seq<char>, c: char) -> Seq<char> {
    let i = choose|i: int| 0 <= i < s.len() && s[i] == c && forall|j: int| 0 <= j < i ==> s[j] != c;
    s.subrange(i + 1, s.len() as int)
}

fn after_first_of(s: &str, c: char) -> (r: Option<String>)
    ensures
        match r {
            Some(x) => crate::platform::linux::x11::second_field(s@, c) is Some && x@ == after_first(s@, c),
            None => crate::platform::linux::x11::second_field(s@, c) is None,
        },
{
    let v = crate::text::chars_of(s);
    let mut i: usize = 0;
    while i < v.len() && v[i] != c
        invariant
            i <= v.len(),
            v@ == s@,
            forall|j: int| 0 <= j < i ==> v@[j] != c,
        decreases v.len() - i,
    {
        i = i + 1;
    }
    if i == v.len() {
        assert(!exists|k: int| 0 <= k < s@.len() && s@[k] == c);
        return None;
    }
    let r = crate::text::string_from_chars(&v, i + 1, v.len());
    proof {
        let k = choose|k: int| 0 <= k < s@.len() && s@[k] == c && forall|j: int| 0 <= j < k ==> s@[j] != c;
        assert(k == i as int) by {
            if k > i {
                assert(s@[i as int] == c);
            }
        }
    }
    Some(r)
}

/// The image bytes of an artwork payload: none when it is blank or `null`,
/// does not decode as standard Base64, or decodes to nothing.
pub open spec fn artwork_bytes(value: Seq<char>) -> Option<Seq<u8>> {
    let t = trim(value);
    if t.len() == 0 || ascii_lower_seq(t) == "null"@ {
        None
    } else {
        match base64_standard_decoded(artwork_base64_part(t)) {
            Some(b) => if b.len() > 0 {
                Some(b)
            } else {
                None
            },
            None => None,
        }
    }
}

/// The image bytes of an artwork payload.
pub fn decode_base64_image_payload(value: &str) -> (r: Option<Vec<u8>>)
    ensures
        opt_bytes(r) == artwork_bytes(value@),
{
    let t = trim_str(value);
    if t.as_str().is_empty() || is_null_word(t.as_str()) {
        return None;
    }
    let encoded = match after_first_of(t.as_str(), ',') {
        Some(rest) => trim_str(rest.as_str()),
        None => trim_str(t.as_str()),
    };
    match decode_standard(encoded.as_str()) {
        Some(b) => if b.len() > 0 {
            Some(b)
        } else {
            None
        },
        None => None,
    }
}

/// The cover of the adapter's report as a PNG data URL, or empty.
pub fn decode_artwork_to_data_url(artwork_data: Option<&str>) -> (r: String)
    ensures
        match artwork_data {
            Some(a) => match artwork_bytes(a@) {
                Some(b) => match crate::platform::png_icon_bytes(b) {
                    Some(png) => if png.len() > 0 {
                        r@ == "data:image/png;base64,"@ + crate::codec::base64_standard_encoded(png)
                    } else {
                        r@.len() == 0
                    },
                    None => r@.len() == 0,
                },
                None => r@.len() == 0,
            },
            None => r@.len() == 0,
        },
{
    let data = match artwork_data {
        Some(a) => match decode_base64_image_payload(a) {
            Some(b) => b,
            None => {
                return String::new();
            },
        },
        None => {
            return String::new();
        },
    };
    match image_bytes_to_png_data_url(&data) {
        Some(u) => u,
        None => String::new(),
    }
}

/// Which check a hint is for.
#[derive(Clone, Copy, Debug, PartialEq, Eq, Structural)]
pub enum MacProbe {
    Foreground,
    Window,
    Media,
}

/// The hints for a macOS check, as (key, text) pairs, given whether the
/// accessibility permission is granted.
pub open spec fn macos_guidance_spec(error: Seq<char>, probe: MacProbe, granted: bool) -> Seq<(Seq<char>, Seq<char>)> {
    let lower = unicode_lowercase(error);
    let g = (if probe == MacProbe::Foreground {
        seq![
            (
                "platformSelfTest.guidance.macosForegroundBridge"@,
                "当前版本的 macOS 前台应用采集只走原生桥接，不再使用 osascript。"@,
            ),
            (
                "platformSelfTest.guidance.macosCheckSystemVersion"@,
                "如果仍然失败，请检查系统版本或是否存在窗口列表访问限制。"@,
            ),
        ]
    } else {
        Seq::empty()
    }) + (if probe == MacProbe::Window {
        (if granted {
            seq![
                (
                    "platformSelfTest.guidance.macosWindowPermissionGrantedButNoTitle"@,
                    "已检测到“辅助功能”权限；如果仍然没有标题，通常是当前应用本身未暴露稳定标题。"@,
                ),
            ]
        } else {
            seq![
                (
                    "platformSelfTest.guidance.macosWindowPermissionRequired"@,
                    "macOS 窗口标题采集依赖“辅助功能”授权。"@,
                ),
                (
                    "platformSelfTest.guidance.macosWindowPermissionSettings"@,
                    "可以在设置页点“申请辅助功能权限”，或前往“系统设置 -> 隐私与安全性 -> 辅助功能”手动开启。"@,
                ),
            ]
        }) + seq![
            (
                "platformSelfTest.guidance.macosWindowTitleUnstable"@,
                "部分应用即使已授权，也可能不会返回稳定的窗口标题。"@,
            ),
        ]
    } else {
        Seq::empty()
    }) + (if probe == MacProbe::Media || contains(lower, "nowplaying-cli"@) {
        seq![
            (
                "platformSelfTest.guidance.macosInstallNowPlayingCli"@,
                "请先安装 nowplaying-cli：`brew install nowplaying-cli`。"@,
            ),
            (
                "platformSelfTest.guidance.macosMediaEmpty"@,
                "如果当前没有正在播放的媒体，客户端现在会直接返回空结果，不再记为失败。"@,
            ),
        ]
    } else {
        Seq::empty()
    });
    if g.len() == 0 {
        seq![
            (
                "platformSelfTest.guidance.macosCheckPermissions"@,
                "如果这是权限问题，请先检查 macOS 的“辅助功能”和“自动化”授权。"@,
            ),
        ]
    } else {
        g
    }
}

/// The hints for a macOS check.
pub fn macos_guidance(error: &str, probe: MacProbe, granted: bool) -> (r: Vec<ProbeTextSpec>)
    ensures
        guidance_is(r@, macos_guidance_spec(error@, probe, granted)),
{
    let lower = to_lowercase(error);
    let mut g: Vec<ProbeTextSpec> = Vec::new();
    let ghost mut exp: Seq<(Seq<char>, Seq<char>)> = Seq::empty();
    if probe == MacProbe::Foreground {
        push_guidance(&mut g, "platformSelfTest.guidance.macosForegroundBridge", "当前版本的 macOS 前台应用采集只走原生桥接，不再使用 osascript。", Ghost(exp));
        proof { exp = exp.push(("platformSelfTest.guidance.macosForegroundBridge"@, "当前版本的 macOS 前台应用采集只走原生桥接，不再使用 osascript。"@)); }
        push_guidance(&mut g, "platformSelfTest.guidance.macosCheckSystemVersion", "如果仍然失败，请检查系统版本或是否存在窗口列表访问限制。", Ghost(exp));
        proof { exp = exp.push(("platformSelfTest.guidance.macosCheckSystemVersion"@, "如果仍然失败，请检查系统版本或是否存在窗口列表访问限制。"@)); }
    }
    let ghost e1 = exp;
    if probe == MacProbe::Window {
        if granted {
            push_guidance(&mut g, "platformSelfTest.guidance.macosWindowPermissionGrantedButNoTitle", "已检测到“辅助功能”权限；如果仍然没有标题，通常是当前应用本身未暴露稳定标题。", Ghost(exp));
            proof { exp = exp.push(("platformSelfTest.guidance.macosWindowPermissionGrantedButNoTitle"@, "已检测到“辅助功能”权限；如果仍然没有标题，通常是当前应用本身未暴露稳定标题。"@)); }
        } else {
            push_guidance(&mut g, "platformSelfTest.guidance.macosWindowPermissionRequired", "macOS 窗口标题采集依赖“辅助功能”授权。", Ghost(exp));
            proof { exp = exp.push(("platformSelfTest.guidance.macosWindowPermissionRequired"@, "macOS 窗口标题采集依赖“辅助功能”授权。"@)); }
            push_guidance(&mut g, "platformSelfTest.guidance.macosWindowPermissionSettings", "可以在设置页点“申请辅助功能权限”，或前往“系统设置 -> 隐私与安全性 -> 辅助功能”手动开启。", Ghost(exp));
            proof { exp = exp.push(("platformSelfTest.guidance.macosWindowPermissionSettings"@, "可以在设置页点“申请辅助功能权限”，或前往“系统设置 -> 隐私与安全性 -> 辅助功能”手动开启。"@)); }
        }
        push_guidance(&mut g, "platformSelfTest.guidance.macosWindowTitleUnstable", "部分应用即使已授权，也可能不会返回稳定的窗口标题。", Ghost(exp));
        proof { exp = exp.push(("platformSelfTest.guidance.macosWindowTitleUnstable"@, "部分应用即使已授权，也可能不会返回稳定的窗口标题。"@)); }
    }
    let ghost e2 = exp;
    if probe == MacProbe::Media || contains_str(lower.as_str(), "nowplaying-cli") {
        push_guidance(&mut g, "platformSelfTest.guidance.macosInstallNowPlayingCli", "请先安装 nowplaying-cli：`brew install nowplaying-cli`。", Ghost(exp));
        proof { exp = exp.push(("platformSelfTest.guidance.macosInstallNowPlayingCli"@, "请先安装 nowplaying-cli：`brew install nowplaying-cli`。"@)); }
        push_guidance(&mut g, "platformSelfTest.guidance.macosMediaEmpty", "如果当前没有正在播放的媒体，客户端现在会直接返回空结果，不再记为失败。", Ghost(exp));
        proof { exp = exp.push(("platformSelfTest.guidance.macosMediaEmpty"@, "如果当前没有正在播放的媒体，客户端现在会直接返回空结果，不再记为失败。"@)); }
    }
    if g.len() == 0 {
        push_guidance(&mut g, "platformSelfTest.guidance.macosCheckPermissions", "如果这是权限问题，请先检查 macOS 的“辅助功能”和“自动化”授权。", Ghost(exp));
        proof { exp = exp.push(("platformSelfTest.guidance.macosCheckPermissions"@, "如果这是权限问题，请先检查 macOS 的“辅助功能”和“自动化”授权。"@)); }
    }
    proof {
        assert(exp =~= macos_guidance_spec(error@, probe, granted));
    }
    g
}

/// The check of the window title that was read on macOS: an empty title
/// may mean that the accessibility permission is missing; the hints are
/// the same either way.
pub open spec fn mac_window_title_probe_is(r: PlatformProbeResult, process_title: Seq<char>, granted: bool) -> bool {
    if is_blank(process_title) {
        probe_is(
            r,
            false,
            "platformSelfTest.summary.windowTitleEmpty"@,
            "窗口标题为空"@,
            if granted {
                "platformSelfTest.detail.windowTitleEmpty"@
            } else {
                "platformSelfTest.detail.windowTitleEmptyPermissionMissing"@
            },
            if granted {
                "当前前台窗口没有可用标题。"@
            } else {
                "当前前台窗口没有可用标题，且尚未授予辅助功能权限。"@
            },
            None,
            macos_guidance_spec(Seq::empty(), MacProbe::Window, granted),
        )
    } else {
        probe_is(
            r,
            true,
            "platformSelfTest.summary.windowTitleOk"@,
            "窗口标题采集正常"@,
            "platformSelfTest.detail.windowTitleCurrent"@,
            process_title,
            Some(single_text_object("processTitle"@, process_title)),
            macos_guidance_spec(Seq::empty(), MacProbe::Window, granted),
        )
    }
}

/// The check of the window title on macOS, where an empty title may mean
/// that the accessibility permission is missing.
pub fn make_window_title_probe(process_title: &str, granted: bool) -> (r: PlatformProbeResult)
    ensures
        mac_window_title_probe_is(r, process_title@, granted),
{
    proof {
        reveal_strlit("");
        assert(""@ =~= Seq::<char>::empty());
    }
    let guidance = macos_guidance("", MacProbe::Window, granted);
    if is_blank_str(process_title) {
        let detail = if granted {
            localized_text(
                "platformSelfTest.detail.windowTitleEmpty",
                None,
                "当前前台窗口没有可用标题。".to_owned(),
            )
        } else {
            localized_text(
                "platformSelfTest.detail.windowTitleEmptyPermissionMissing",
                None,
                "当前前台窗口没有可用标题，且尚未授予辅助功能权限。".to_owned(),
            )
        };
        probe_from(
            false,
            "platformSelfTest.summary.windowTitleEmpty",
            "窗口标题为空",
            detail,
            guidance,
            Ghost(macos_guidance_spec(Seq::empty(), MacProbe::Window, granted)),
        )
    } else {
        let mut m = crate::json::JsonMap::new();
        m.push_new("processTitle".to_owned(), crate::json::JsonValue::text(process_title));
        let ghost es = m@;
        assert(es =~= seq![("processTitle"@, crate::json::JsonData::Text(process_title@))]);
        probe_from(
            true,
            "platformSelfTest.summary.windowTitleOk",
            "窗口标题采集正常",
            localized_text(
                "platformSelfTest.detail.windowTitleCurrent",
                Some(crate::json::JsonValue::Object(m)),
                process_title.to_owned(),
            ),
            guidance,
            Ghost(macos_guidance_spec(Seq::empty(), MacProbe::Window, granted)),
        )
    }
}

/// The macOS self-test from its readings: the foreground application, the
/// window title as reported, the media, and whether the accessibility
/// permission is granted.
pub fn run_self_test(
    foreground: Result<ForegroundSnapshot, String>,
    window: Result<ForegroundSnapshot, String>,
    media: Result<MediaInfo, String>,
    granted: bool,
) -> (r: PlatformSelfTestResult)
    ensures
        r.platform@ == "macos"@,
        match foreground {
            Ok(s) => foreground_probe_is(r.foreground, s.process_name@),
            Err(e) => probe_is(
                r.foreground,
                false,
                "platformSelfTest.summary.foregroundFailed"@,
                "前台应用采集失败"@,
                "platformSelfTest.detail.foregroundReadFailed"@,
                e@,
                None,
                macos_guidance_spec(e@, MacProbe::Foreground, granted),
            ),
        },
        match window {
            Ok(s) => mac_window_title_probe_is(r.window_title, s.process_title@, granted),
            Err(e) => probe_is(
                r.window_title,
                false,
                "platformSelfTest.summary.windowTitleFailed"@,
                "窗口标题采集失败"@,
                "platformSelfTest.detail.windowTitleReadFailed"@,
                e@,
                None,
                macos_guidance_spec(e@, MacProbe::Window, granted),
            ),
        },
        match media {
            Ok(m) => media_probe_is(
                r.media,
                m,
                "如果你正在测试媒体采集，请先播放一段音乐后再运行自检。"@,
            ),
            Err(e) => probe_is(
                r.media,
                false,
                "platformSelfTest.summary.mediaFailed"@,
                "媒体采集失败"@,
                "platformSelfTest.detail.mediaReadFailed"@,
                e@,
                None,
                macos_guidance_spec(e@, MacProbe::Media, granted),
            ),
        },
{
    let fg = match foreground {
        Ok(snapshot) => foreground_ok_probe(snapshot.process_name.as_str()),
        Err(error) => {
            let guidance = macos_guidance(error.as_str(), MacProbe::Foreground, granted);
            failed_probe(
                "platformSelfTest.summary.foregroundFailed",
                "前台应用采集失败",
                localized_text("platformSelfTest.detail.foregroundReadFailed", None, error.clone()),
                guidance,
                Ghost(macos_guidance_spec(error@, MacProbe::Foreground, granted)),
            )
        },
    };
    let title = match window {
        Ok(snapshot) => make_window_title_probe(snapshot.process_title.as_str(), granted),
        Err(error) => {
            let guidance = macos_guidance(error.as_str(), MacProbe::Window, granted);
            failed_probe(
                "platformSelfTest.summary.windowTitleFailed",
                "窗口标题采集失败",
                localized_text("platformSelfTest.detail.windowTitleReadFailed", None, error.clone()),
                guidance,
                Ghost(macos_guidance_spec(error@, MacProbe::Window, granted)),
            )
        },
    };
    let md = match media {
        Ok(info) => if !info.is_empty() {
            media_ok_probe(&info)
        } else {
            media_none_probe("如果你正在测试媒体采集，请先播放一段音乐后再运行自检。")
        },
        Err(error) => {
            let guidance = macos_guidance(error.as_str(), MacProbe::Media, granted);
            failed_probe(
                "platformSelfTest.summary.mediaFailed",
                "媒体采集失败",
                localized_text("platformSelfTest.detail.mediaReadFailed", None, error.clone()),
                guidance,
                Ghost(macos_guidance_spec(error@, MacProbe::Media, granted)),
            )
        },
    };
    build_self_test_result(TargetPlatform::Macos, fg, title, md)
}

} // verus!
