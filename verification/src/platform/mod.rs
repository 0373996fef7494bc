//! What the client reads of the machine: the foreground window and the
//! media that is playing, and the checks that tell the user whether it can.
use vstd::prelude::*;

use crate::json::{int_data, obj_get, JsonData, JsonMap, JsonNumber, JsonValue};
use crate::models::{LocalizedTextEntry, PlatformProbeResult, PlatformSelfTestResult};
use crate::text::{
    decimal_int, i64_to_decimal, is_blank, is_blank_str, push_char, str_eq, trim, trim_str,
};

pub mod android;
pub mod linux;
pub mod macos;
pub mod probes;
pub mod stub;
pub mod windows;

verus! {

/// The foreground application and its window title.
#[derive(Debug)]
pub struct ForegroundSnapshot {
    pub process_name: String,
    pub process_title: String,
}

impl Clone for ForegroundSnapshot {
    fn clone(&self) -> (r: Self)
        ensures
            r == *self,
    {
        ForegroundSnapshot {
            process_name: self.process_name.clone(),
            process_title: self.process_title.clone(),
        }
    }
}

impl Default for ForegroundSnapshot {
    fn default() -> (r: Self)
        ensures
            r.process_name@ == Seq::<char>::empty(),
            r.process_title@ == Seq::<char>::empty(),
    {
        ForegroundSnapshot { process_name: String::new(), process_title: String::new() }
    }
}

/// What is playing, as the platform reports it.
#[derive(Debug)]
pub struct MediaInfo {
    pub title: String,
    pub artist: String,
    pub album: String,
    pub source_app_id: String,
    /// URL of the cover art image, possibly a data URL.
    pub cover_url: String,
    pub playback_state: String,
    pub position_ms: Option<i64>,
    pub duration_ms: Option<i64>,
    pub start_timestamp_ms: Option<i64>,
    pub end_timestamp_ms: Option<i64>,
    pub reported_at_ms: Option<i64>,
}

impl Clone for MediaInfo {
    fn clone(&self) -> (r: Self)
        ensures
            r == *self,
    {
        MediaInfo {
            title: self.title.clone(),
            artist: self.artist.clone(),
            album: self.album.clone(),
            source_app_id: self.source_app_id.clone(),
            cover_url: self.cover_url.clone(),
            playback_state: self.playback_state.clone(),
            position_ms: self.position_ms,
            duration_ms: self.duration_ms,
            start_timestamp_ms: self.start_timestamp_ms,
            end_timestamp_ms: self.end_timestamp_ms,
            reported_at_ms: self.reported_at_ms,
        }
    }
}

/// `m` holds nothing at all.
pub open spec fn media_is_default(m: MediaInfo) -> bool {
    &&& m.title@.len() == 0
    &&& m.artist@.len() == 0
    &&& m.album@.len() == 0
    &&& m.source_app_id@.len() == 0
    &&& m.cover_url@.len() == 0
    &&& m.playback_state@.len() == 0
    &&& m.position_ms is None
    &&& m.duration_ms is None
    &&& m.start_timestamp_ms is None
    &&& m.end_timestamp_ms is None
    &&& m.reported_at_ms is None
}

impl Default for MediaInfo {
    fn default() -> (r: Self)
        ensures
            media_is_default(r),
    {
        MediaInfo {
            title: String::new(),
            artist: String::new(),
            album: String::new(),
            source_app_id: String::new(),
            cover_url: String::new(),
            playback_state: String::new(),
            position_ms: None,
            duration_ms: None,
            start_timestamp_ms: None,
            end_timestamp_ms: None,
            reported_at_ms: None,
        }
    }
}

/// Title, artist and album are all blank.
pub open spec fn media_empty(m: MediaInfo) -> bool {
    is_blank(m.title@) && is_blank(m.artist@) && is_blank(m.album@)
}

/// The field separator of reporting signatures.
pub open spec fn record_sep() -> Seq<char> {
    seq!['\u{1e}']
}

/// `s` when `keep`, else nothing.
pub open spec fn kept(keep: bool, s: Seq<char>) -> Seq<char> {
    if keep {
        s
    } else {
        Seq::empty()
    }
}

/// The text that identifies `m` for reporting, limited to what is reported:
/// empty when title, artist, album and (reported) source are all blank.
pub open spec fn media_signature(m: MediaInfo, include_media: bool, include_play_source: bool) -> Seq<
    char,
> {
    let title = kept(include_media, trim(m.title@));
    let artist = kept(include_media, trim(m.artist@));
    let album = kept(include_media, trim(m.album@));
    let source = kept(include_play_source, trim(m.source_app_id@));
    let state = kept(include_media, trim(m.playback_state@));
    let duration = kept(
        include_media,
        match m.duration_ms {
            Some(v) => decimal_int(v as int),
            None => Seq::empty(),
        },
    );
    if title.len() == 0 && artist.len() == 0 && album.len() == 0 && source.len() == 0 {
        Seq::empty()
    } else {
        title + record_sep() + artist + record_sep() + album + record_sep() + source + record_sep()
            + state + record_sep() + duration
    }
}

/// After dropping what is not reported, nothing is left.
pub open spec fn subset_is_empty(m: MediaInfo, include_media: bool, include_play_source: bool) -> bool {
    (!include_media || media_empty(m)) && (!include_play_source || is_blank(m.source_app_id@))
}

/// `r` is `m` limited to what is reported.
pub open spec fn is_reporting_subset(
    r: MediaInfo,
    m: MediaInfo,
    include_media: bool,
    include_play_source: bool,
) -> bool {
    if subset_is_empty(m, include_media, include_play_source) {
        media_is_default(r)
    } else {
        &&& r.title@ == kept(include_media, m.title@)
        &&& r.artist@ == kept(include_media, m.artist@)
        &&& r.album@ == kept(include_media, m.album@)
        &&& r.cover_url@ == kept(include_media, m.cover_url@)
        &&& r.playback_state@ == kept(include_media, m.playback_state@)
        &&& r.position_ms == (if include_media {
            m.position_ms
        } else {
            None
        })
        &&& r.duration_ms == (if include_media {
            m.duration_ms
        } else {
            None
        })
        &&& r.start_timestamp_ms == (if include_media {
            m.start_timestamp_ms
        } else {
            None
        })
        &&& r.end_timestamp_ms == (if include_media {
            m.end_timestamp_ms
        } else {
            None
        })
        &&& r.reported_at_ms == (if include_media {
            m.reported_at_ms
        } else {
            None
        })
        &&& r.source_app_id@ == kept(include_play_source, m.source_app_id@)
    }
}

/// The playback state reported for `m`: its own when not blank, else
/// `playing` when something is known of the media, else nothing.
pub open spec fn effective_state(m: MediaInfo) -> Seq<char> {
    if !is_blank(m.playback_state@) {
        trim(m.playback_state@)
    } else if !media_empty(m) {
        "playing"@
    } else {
        Seq::empty()
    }
}

/// `es` with `(k, v)` appended when `cond`.
pub open spec fn push_if(
    es: Seq<(Seq<char>, JsonData)>,
    cond: bool,
    k: Seq<char>,
    v: JsonData,
) -> Seq<(Seq<char>, JsonData)> {
    if cond {
        es.push((k, v))
    } else {
        es
    }
}

/// The `timestamps` object of the media metadata.
pub open spec fn media_timestamps_entries(m: MediaInfo) -> Seq<(Seq<char>, JsonData)> {
    let e0 = Seq::<(Seq<char>, JsonData)>::empty();
    let e1 = push_if(
        e0,
        m.start_timestamp_ms is Some && m.start_timestamp_ms.unwrap() > 0,
        "start"@,
        int_data(m.start_timestamp_ms.unwrap()),
    );
    push_if(
        e1,
        m.end_timestamp_ms is Some && m.end_timestamp_ms.unwrap() > 0,
        "end"@,
        int_data(m.end_timestamp_ms.unwrap()),
    )
}

/// The media metadata object sent with a report.
pub open spec fn media_metadata_entries(m: MediaInfo) -> Seq<(Seq<char>, JsonData)> {
    let e0 = Seq::<(Seq<char>, JsonData)>::empty();
    let e1 = push_if(e0, !is_blank(m.title@), "title"@, JsonData::Text(trim(m.title@)));
    let e2 = push_if(e1, !is_blank(m.artist@), "artist"@, JsonData::Text(trim(m.artist@)));
    let e3 = push_if(e2, !is_blank(m.artist@), "singer"@, JsonData::Text(trim(m.artist@)));
    let e4 = push_if(e3, !is_blank(m.album@), "album"@, JsonData::Text(trim(m.album@)));
    let e5 = push_if(
        e4,
        !is_blank(m.cover_url@),
        "coverDataUrl"@,
        JsonData::Text(trim(m.cover_url@)),
    );
    let e6 = push_if(
        e5,
        effective_state(m).len() > 0,
        "status"@,
        JsonData::Text(effective_state(m)),
    );
    let e7 = push_if(
        e6,
        m.position_ms is Some && m.position_ms.unwrap() >= 0,
        "positionMs"@,
        int_data(m.position_ms.unwrap()),
    );
    let e8 = push_if(
        e7,
        m.duration_ms is Some && m.duration_ms.unwrap() >= 0,
        "durationMs"@,
        int_data(m.duration_ms.unwrap()),
    );
    let e9 = push_if(
        e8,
        m.reported_at_ms is Some && m.reported_at_ms.unwrap() > 0,
        "reportedAt"@,
        int_data(m.reported_at_ms.unwrap()),
    );
    push_if(
        e9,
        (m.start_timestamp_ms is Some || m.end_timestamp_ms is Some)
            && media_timestamps_entries(m).len() > 0,
        "timestamps"@,
        JsonData::Object(media_timestamps_entries(m)),
    )
}

/// The non-blank parts among title, artist and album, trimmed.
pub open spec fn summary_parts(m: MediaInfo) -> Seq<Seq<char>> {
    let p0 = Seq::<Seq<char>>::empty();
    let p1 = if !is_blank(m.title@) {
        p0.push(trim(m.title@))
    } else {
        p0
    };
    let p2 = if !is_blank(m.artist@) {
        p1.push(trim(m.artist@))
    } else {
        p1
    };
    if !is_blank(m.album@) {
        p2.push(trim(m.album@))
    } else {
        p2
    }
}

/// `parts` joined by `sep` (`[String]::join`).
pub open spec fn join(parts: Seq<Seq<char>>, sep: Seq<char>) -> Seq<char>
    decreases parts.len(),
{
    if parts.len() == 0 {
        Seq::empty()
    } else if parts.len() == 1 {
        parts[0]
    } else {
        join(parts.drop_last(), sep) + sep + parts.last()
    }
}

/// Joins `parts` with `sep`.
pub fn join_strings(parts: &Vec<String>, sep: &str) -> (r: String)
    ensures
        r@ == join(parts@.map_values(|p: String| p@), sep@),
{
    let ghost views = parts@.map_values(|p: String| p@);
    let mut r = String::new();
    let mut i: usize = 0;
    while i < parts.len()
        invariant
            i <= parts.len(),
            views == parts@.map_values(|p: String| p@),
            r@ == join(views.take(i as int), sep@),
        decreases parts.len() - i,
    {
        proof {
            assert(views.take(i + 1).drop_last() =~= views.take(i as int));
            assert(views.take(i + 1).last() == parts@[i as int]@);
        }
        if i != 0 {
            r.append(sep);
        } else {
            assert(views.take(1) =~= seq![parts@[0]@]);
        }
        r.append(parts[i].as_str());
        i = i + 1;
    }
    assert(views.take(parts.len() as int) =~= views);
    r
}

/// The field kept for reporting: its text when `keep`, else empty.
fn kept_trimmed(keep: bool, s: &str) -> (r: String)
    ensures
        r@ == kept(keep, trim(s@)),
{
    if keep {
        trim_str(s)
    } else {
        String::new()
    }
}

impl MediaInfo {
    /// Whether title, artist and album are all blank.
    pub fn is_empty(&self) -> (b: bool)
        ensures
            b == media_empty(*self),
    {
        is_blank_str(self.title.as_str()) && is_blank_str(self.artist.as_str()) && is_blank_str(
            self.album.as_str(),
        )
    }

    /// Whether the playing application is known.
    pub fn has_play_source(&self) -> (b: bool)
        ensures
            b == !is_blank(self.source_app_id@),
    {
        !is_blank_str(self.source_app_id.as_str())
    }

    /// The text that identifies this media for reporting; two readings with
    /// the same signature are the same media as far as reports go.
    pub fn signature_for_reporting(&self, include_media: bool, include_play_source: bool) -> (r:
        String)
        ensures
            r@ == media_signature(*self, include_media, include_play_source),
    {
        let title = kept_trimmed(include_media, self.title.as_str());
        let artist = kept_trimmed(include_media, self.artist.as_str());
        let album = kept_trimmed(include_media, self.album.as_str());
        let source = kept_trimmed(include_play_source, self.source_app_id.as_str());
        let state = kept_trimmed(include_media, self.playback_state.as_str());
        let duration = if include_media {
            match self.duration_ms {
                Some(v) => i64_to_decimal(v),
                None => String::new(),
            }
        } else {
            String::new()
        };
        if title.as_str().is_empty() && artist.as_str().is_empty() && album.as_str().is_empty()
            && source.as_str().is_empty() {
            return String::new();
        }
        let mut r = title;
        push_char(&mut r, '\u{1e}');
        r.append(artist.as_str());
        push_char(&mut r, '\u{1e}');
        r.append(album.as_str());
        push_char(&mut r, '\u{1e}');
        r.append(source.as_str());
        push_char(&mut r, '\u{1e}');
        r.append(state.as_str());
        push_char(&mut r, '\u{1e}');
        r.append(duration.as_str());
        assert(r@ =~= media_signature(*self, include_media, include_play_source));
        r
    }

    /// This media limited to what is reported; nothing at all when nothing
    /// reported is known.
    pub fn into_reporting_subset(self, include_media: bool, include_play_source: bool) -> (r: Self)
        ensures
            is_reporting_subset(r, self, include_media, include_play_source),
    {
        let mut m = self;
        if !include_media {
            m.title = String::new();
            m.artist = String::new();
            m.album = String::new();
            m.cover_url = String::new();
            m.playback_state = String::new();
            m.position_ms = None;
            m.duration_ms = None;
            m.start_timestamp_ms = None;
            m.end_timestamp_ms = None;
            m.reported_at_ms = None;
        }
        if !include_play_source {
            m.source_app_id = String::new();
        }
        proof {
            assert(is_blank(Seq::<char>::empty()));
        }
        if m.is_empty() && !m.has_play_source() {
            return MediaInfo::default();
        }
        m
    }

    /// The playback state to report.
    pub fn effective_playback_state(&self) -> (r: String)
        ensures
            r@ == effective_state(*self),
    {
        if !is_blank_str(self.playback_state.as_str()) {
            return trim_str(self.playback_state.as_str());
        }
        if !self.is_empty() {
            return "playing".to_owned();
        }
        String::new()
    }

    /// The media part of a report's metadata; nothing when title, artist and
    /// album are all blank.
    pub fn as_metadata_map(&self) -> (r: Option<JsonMap>)
        ensures
            media_empty(*self) ==> r is None,
            !media_empty(*self) ==> r is Some && r.unwrap()@ == media_metadata_entries(*self),
    {
        if self.is_empty() {
            return None;
        }
        let mut map = JsonMap::new();
        if !is_blank_str(self.title.as_str()) {
            map.push_new("title".to_owned(), JsonValue::Text(trim_str(self.title.as_str())));
        }
        if !is_blank_str(self.artist.as_str()) {
            map.push_new("artist".to_owned(), JsonValue::Text(trim_str(self.artist.as_str())));
            map.push_new("singer".to_owned(), JsonValue::Text(trim_str(self.artist.as_str())));
        }
        if !is_blank_str(self.album.as_str()) {
            map.push_new("album".to_owned(), JsonValue::Text(trim_str(self.album.as_str())));
        }
        if !is_blank_str(self.cover_url.as_str()) {
            map.push_new(
                "coverDataUrl".to_owned(),
                JsonValue::Text(trim_str(self.cover_url.as_str())),
            );
        }
        let playback_state = self.effective_playback_state();
        if !playback_state.as_str().is_empty() {
            map.push_new("status".to_owned(), JsonValue::Text(playback_state));
        }
        if let Some(position_ms) = self.position_ms {
            if position_ms >= 0 {
                map.push_new(
                    "positionMs".to_owned(),
                    JsonValue::Number(JsonNumber::from_i64(position_ms)),
                );
            }
        }
        if let Some(duration_ms) = self.duration_ms {
            if duration_ms >= 0 {
                map.push_new(
                    "durationMs".to_owned(),
                    JsonValue::Number(JsonNumber::from_i64(duration_ms)),
                );
            }
        }
        if let Some(reported_at_ms) = self.reported_at_ms {
            if reported_at_ms > 0 {
                map.push_new(
                    "reportedAt".to_owned(),
                    JsonValue::Number(JsonNumber::from_i64(reported_at_ms)),
                );
            }
        }
        if self.start_timestamp_ms.is_some() || self.end_timestamp_ms.is_some() {
            let mut timestamps = JsonMap::new();
            if let Some(start) = self.start_timestamp_ms {
                if start > 0 {
                    timestamps.push_new(
                        "start".to_owned(),
                        JsonValue::Number(JsonNumber::from_i64(start)),
                    );
                }
            }
            if let Some(end) = self.end_timestamp_ms {
                if end > 0 {
                    timestamps.push_new(
                        "end".to_owned(),
                        JsonValue::Number(JsonNumber::from_i64(end)),
                    );
                }
            }
            assert(timestamps@ =~= media_timestamps_entries(*self));
            if !timestamps.is_empty() {
                map.push_new("timestamps".to_owned(), JsonValue::Object(timestamps));
            }
        }
        assert(map@ =~= media_metadata_entries(*self));
        Some(map)
    }

    /// The non-blank parts among title, artist and album, joined by ` / `.
    pub fn summary(&self) -> (r: String)
        ensures
            r@ == join(summary_parts(*self), " / "@),
    {
        let mut parts: Vec<String> = Vec::new();
        if !is_blank_str(self.title.as_str()) {
            parts.push(trim_str(self.title.as_str()));
        }
        if !is_blank_str(self.artist.as_str()) {
            parts.push(trim_str(self.artist.as_str()));
        }
        if !is_blank_str(self.album.as_str()) {
            parts.push(trim_str(self.album.as_str()));
        }
        let r = join_strings(&parts, " / ");
        assert(parts@.map_values(|p: String| p@) =~= summary_parts(*self));
        r
    }
}

/// `x` clamped into the range of `i64`, as saturating arithmetic gives.
pub open spec fn saturate(x: int) -> i64 {
    if x < i64::MIN {
        i64::MIN
    } else if x > i64::MAX {
        i64::MAX
    } else {
        x as i64
    }
}

fn saturating(x: i128) -> (r: i64)
    ensures
        r == saturate(x as int),
{
    if x < (i64::MIN as i128) {
        i64::MIN
    } else if x > (i64::MAX as i128) {
        i64::MAX
    } else {
        x as i64
    }
}

/// When the media started and when it will end, from where it is now;
/// known only while it is playing with a valid position and length.
pub open spec fn timestamps_from_position(
    playback_state: Seq<char>,
    position_ms: Option<i64>,
    duration_ms: Option<i64>,
    reported_at_ms: i64,
) -> (Option<i64>, Option<i64>) {
    if playback_state != "playing"@ || position_ms is None || position_ms.unwrap() < 0
        || duration_ms is None || duration_ms.unwrap() <= 0 {
        (None, None)
    } else {
        let p = position_ms.unwrap();
        let d = duration_ms.unwrap();
        let clamped = if p < d {
            p
        } else {
            d
        };
        (
            Some(saturate(reported_at_ms - clamped)),
            Some(saturate(reported_at_ms + (d - clamped))),
        )
    }
}

/// Start and end of the playing media on the wall clock, from its position
/// and length at `reported_at_ms`.
pub fn media_timestamps_from_position(
    playback_state: &str,
    position_ms: Option<i64>,
    duration_ms: Option<i64>,
    reported_at_ms: i64,
) -> (r: (Option<i64>, Option<i64>))
    ensures
        r == timestamps_from_position(playback_state@, position_ms, duration_ms, reported_at_ms),
{
    if !str_eq(playback_state, "playing") {
        return (None, None);
    }
    let position_ms = match position_ms {
        Some(p) if p >= 0 => p,
        _ => return (None, None),
    };
    let duration_ms = match duration_ms {
        Some(d) if d > 0 => d,
        _ => return (None, None),
    };
    let clamped = if position_ms < duration_ms {
        position_ms
    } else {
        duration_ms
    };
    let start = saturating((reported_at_ms as i128) - (clamped as i128));
    let end = saturating((reported_at_ms as i128) + ((duration_ms - clamped) as i128));
    (Some(start), Some(end))
}

/// The system clock's type (`std::time::SystemTime`), carried through
/// opaquely.
#[verifier::external_type_specification]
#[verifier::external_body]
pub struct ExSystemTime(std::time::SystemTime);

/// Reads the system clock (`SystemTime::now`).  Nothing is stated of the
/// result: it is the time.
#[verifier::external_body]
fn system_time_now() -> (r: std::time::SystemTime) {
    std::time::SystemTime::now()
}

/// The time elapsed from the Unix epoch to `t`
/// (`SystemTime::duration_since(UNIX_EPOCH)`); none when `t` is before the
/// epoch.  Nothing more is stated: the result depends on `t`, which Verus
/// does not see into.
#[verifier::external_body]
fn since_unix_epoch(t: &std::time::SystemTime) -> (r: Option<std::time::Duration>) {
    t.duration_since(std::time::UNIX_EPOCH).ok()
}

/// The whole milliseconds of a duration (`Duration::as_millis`).  Nothing
/// is stated: Verus does not see into a `Duration`.
#[verifier::external_body]
fn duration_as_millis(d: &std::time::Duration) -> (r: u128) {
    d.as_millis()
}

/// The clock's reading: the whole milliseconds since the Unix epoch, or
/// none when the clock is before the epoch.
pub(crate) fn read_unix_millis() -> (r: Option<u128>) {
    let now = system_time_now();
    match since_unix_epoch(&now) {
        Some(d) => Some(duration_as_millis(&d)),
        None => None,
    }
}

/// A clock reading as signed milliseconds: the reading when it fits an
/// `i64`, else 0; 0 for a clock before the epoch.
pub open spec fn millis_i64_of_reading(reading: Option<u128>) -> i64 {
    match reading {
        Some(ms) => if ms <= i64::MAX as u128 {
            ms as i64
        } else {
            0
        },
        None => 0,
    }
}

/// A clock reading as signed milliseconds.
pub fn millis_i64_of(reading: Option<u128>) -> (r: i64)
    ensures
        r == millis_i64_of_reading(reading),
        r >= 0,
{
    match reading {
        Some(ms) => if ms <= (i64::MAX as u128) {
            ms as i64
        } else {
            0
        },
        None => 0,
    }
}

/// The current time in milliseconds since the epoch, or 0 when the clock
/// is before the epoch or the value does not fit an `i64`.
pub fn now_unix_millis_i64() -> (r: i64)
    ensures
        r >= 0,
{
    millis_i64_of(read_unix_millis())
}

/// The operating system the client runs on.
#[derive(Clone, Copy, Debug, PartialEq, Eq, Structural)]
pub enum TargetPlatform {
    Windows,
    Linux,
    Macos,
    Other,
}

/// The platform's name in self-test results.
pub fn platform_name(target: TargetPlatform) -> (r: &'static str)
    ensures
        r@ == (match target {
            TargetPlatform::Windows => "windows"@,
            TargetPlatform::Linux => "linux"@,
            TargetPlatform::Macos => "macos"@,
            TargetPlatform::Other => "unsupported"@,
        }),
{
    match target {
        TargetPlatform::Windows => "windows",
        TargetPlatform::Linux => "linux",
        TargetPlatform::Macos => "macos",
        TargetPlatform::Other => "unsupported",
    }
}

/// A localizable text of a self-test result.
#[derive(Debug)]
pub struct ProbeTextSpec {
    pub key: Option<&'static str>,
    pub params: Option<JsonValue>,
    pub fallback: String,
}

/// A text with a translation key.
pub fn localized_text(key: &'static str, params: Option<JsonValue>, fallback: String) -> (r:
    ProbeTextSpec)
    ensures
        r.key == Some(key),
        r.params == params,
        r.fallback == fallback,
{
    ProbeTextSpec { key: Some(key), params, fallback }
}

/// The key of a text as an owned string.
pub open spec fn key_seq(k: Option<&'static str>) -> Option<Seq<char>> {
    match k {
        Some(s) => Some(s@),
        None => None,
    }
}

fn key_string(k: Option<&'static str>) -> (r: Option<String>)
    ensures
        crate::text::opt_seq(r) == key_seq(k),
{
    match k {
        Some(s) => Some(s.to_owned()),
        None => None,
    }
}

/// One check's result: its success, summary, detail and guidance, each
/// guidance line both as plain text and as a localizable entry.
pub fn make_probe(
    success: bool,
    summary: ProbeTextSpec,
    detail: ProbeTextSpec,
    guidance: Vec<ProbeTextSpec>,
) -> (r: PlatformProbeResult)
    ensures
        r.success == success,
        r.summary == summary.fallback,
        r.detail == detail.fallback,
        crate::text::opt_seq(r.summary_key) == key_seq(summary.key),
        r.summary_params == summary.params,
        crate::text::opt_seq(r.detail_key) == key_seq(detail.key),
        r.detail_params == detail.params,
        r.guidance@.len() == guidance@.len(),
        r.guidance_entries@.len() == guidance@.len(),
        forall|i: int|
            0 <= i < guidance@.len() ==> {
                &&& (#[trigger] r.guidance@[i])@ == guidance@[i].fallback@
                &&& r.guidance_entries@[i].text@ == guidance@[i].fallback@
                &&& crate::text::opt_seq(r.guidance_entries@[i].key) == key_seq(guidance@[i].key)
                &&& r.guidance_entries@[i].params == guidance@[i].params
            },
{
    let ProbeTextSpec { key: summary_key, params: summary_params, fallback: summary_fallback } =
        summary;
    let ProbeTextSpec { key: detail_key, params: detail_params, fallback: detail_fallback } =
        detail;
    let mut lines: Vec<String> = Vec::new();
    let mut i: usize = 0;
    while i < guidance.len()
        invariant
            i <= guidance.len(),
            lines@.len() == i,
            forall|j: int| 0 <= j < i ==> (#[trigger] lines@[j])@ == guidance@[j].fallback@,
        decreases guidance.len() - i,
    {
        lines.push(guidance[i].fallback.clone());
        i = i + 1;
    }
    let ghost g = guidance@;
    let mut entries: Vec<LocalizedTextEntry> = Vec::new();
    let mut rest = guidance;
    let mut reversed: Vec<LocalizedTextEntry> = Vec::new();
    while rest.len() > 0
        invariant
            rest@ == g.take(rest@.len() as int),
            rest@.len() <= g.len(),
            reversed@.len() == g.len() - rest@.len(),
            forall|j: int|
                0 <= j < reversed@.len() ==> {
                    let e = #[trigger] reversed@[j];
                    let s = g[g.len() - 1 - j];
                    &&& e.text@ == s.fallback@
                    &&& crate::text::opt_seq(e.key) == key_seq(s.key)
                    &&& e.params == s.params
                },
        decreases rest@.len(),
    {
        let ghost before = rest@;
        let spec_item = rest.pop().unwrap();
        assert(rest@ =~= g.take(rest@.len() as int));
        let ProbeTextSpec { key, params, fallback } = spec_item;
        reversed.push(LocalizedTextEntry { text: fallback, key: key_string(key), params });
    }
    while reversed.len() > 0
        invariant
            reversed@.len() + entries@.len() == g.len(),
            forall|j: int|
                0 <= j < reversed@.len() ==> {
                    let e = #[trigger] reversed@[j];
                    let s = g[g.len() - 1 - j];
                    &&& e.text@ == s.fallback@
                    &&& crate::text::opt_seq(e.key) == key_seq(s.key)
                    &&& e.params == s.params
                },
            forall|j: int|
                0 <= j < entries@.len() ==> {
                    let e = #[trigger] entries@[j];
                    let s = g[j];
                    &&& e.text@ == s.fallback@
                    &&& crate::text::opt_seq(e.key) == key_seq(s.key)
                    &&& e.params == s.params
                },
        decreases reversed@.len(),
    {
        let ghost before = reversed@;
        let e = reversed.pop().unwrap();
        assert(e == before[before.len() - 1]);
        entries.push(e);
    }
    PlatformProbeResult {
        success,
        summary: summary_fallback,
        detail: detail_fallback,
        guidance: lines,
        summary_key: key_string(summary_key),
        summary_params,
        detail_key: key_string(detail_key),
        detail_params,
        guidance_entries: entries,
    }
}

/// The self-test result for `target` from its three checks.
pub fn build_self_test_result(
    target: TargetPlatform,
    foreground: PlatformProbeResult,
    window_title: PlatformProbeResult,
    media: PlatformProbeResult,
) -> (r: PlatformSelfTestResult)
    ensures
        r.platform@ == platform_name_spec(target),
        r.foreground == foreground,
        r.window_title == window_title,
        r.media == media,
{
    PlatformSelfTestResult {
        platform: platform_name(target).to_owned(),
        foreground,
        window_title,
        media,
    }
}

/// The platform's name in self-test results.
pub open spec fn platform_name_spec(target: TargetPlatform) -> Seq<char> {
    match target {
        TargetPlatform::Windows => "windows"@,
        TargetPlatform::Linux => "linux"@,
        TargetPlatform::Macos => "macos"@,
        TargetPlatform::Other => "unsupported"@,
    }
}


/// What is reported of a media reading: nothing when neither the media
/// nor its source is reported (the reading is then not consulted), else
/// the reading limited to what is reported; a failed reading stays a
/// failure.
pub open spec fn media_for_reporting_ok(
    r: Result<MediaInfo, String>,
    include_media: bool,
    include_play_source: bool,
    reading: Result<MediaInfo, String>,
) -> bool {
    if !include_media && !include_play_source {
        r is Ok && media_is_default(r->Ok_0)
    } else {
        match reading {
            Ok(m) => r is Ok && is_reporting_subset(r->Ok_0, m, include_media, include_play_source),
            Err(e) => r == Err::<MediaInfo, String>(e),
        }
    }
}

/// What is reported of a media reading.
pub fn media_for_reporting(
    include_media: bool,
    include_play_source: bool,
    reading: Result<MediaInfo, String>,
) -> (r: Result<MediaInfo, String>)
    ensures
        media_for_reporting_ok(r, include_media, include_play_source, reading),
{
    if !include_media && !include_play_source {
        return Ok(MediaInfo::default());
    }
    match reading {
        Ok(m) => Ok(m.into_reporting_subset(include_media, include_play_source)),
        Err(e) => Err(e),
    }
}

/// What is reported of a media reading when its cover art is wanted: the
/// media, and its source when that is reported.
pub fn artwork_for_reporting(include_play_source: bool, reading: Result<MediaInfo, String>) -> (r:
    Result<MediaInfo, String>)
    ensures
        match reading {
            Ok(m) => r is Ok && is_reporting_subset(r->Ok_0, m, true, include_play_source),
            Err(e) => r == Err::<MediaInfo, String>(e),
        },
{
    match reading {
        Ok(m) => Ok(m.into_reporting_subset(true, include_play_source)),
        Err(e) => Err(e),
    }
}


/// How an image is resampled when it is scaled (the filters of
/// `image::imageops::FilterType`).
#[derive(Clone, Copy, Debug, PartialEq, Eq, Structural)]
pub enum ResizeFilter {
    Nearest,
    Triangle,
    CatmullRom,
    Gaussian,
    Lanczos3,
}

/// The side of the square icons the client sends, in pixels.
pub const ICON_SIZE: u32 = 256;

/// The filter icons are scaled with.
pub const ICON_FILTER: ResizeFilter = ResizeFilter::Lanczos3;

/// The PNG that an image becomes when it is decoded, scaled and cropped
/// to fill `size` by `size` pixels with `filter`, and encoded again; none
/// when the bytes are not an image the decoder reads or the encoder fails.
pub uninterp spec fn rendered_png(bytes: Seq<u8>, size: u32, filter: ResizeFilter) -> Option<Seq<u8>>;

/// The PNG icon an image becomes: 256 by 256 pixels, scaled with Lanczos3.
pub open spec fn png_icon_bytes(bytes: Seq<u8>) -> Option<Seq<u8>> {
    rendered_png(bytes, ICON_SIZE, ICON_FILTER)
}

/// `image::load_from_memory`, then `DynamicImage::resize_to_fill` to
/// `size` by `size` with `filter`, then `DynamicImage::write_to` as PNG.
/// Claimed: the result is `rendered_png` of the arguments, which depends
/// on them alone; `None` stands for the decoder's or encoder's error.
#[verifier::external_body]
fn render_png(bytes: &Vec<u8>, size: u32, filter: ResizeFilter) -> (r: Option<Vec<u8>>)
    ensures
        crate::codec::opt_bytes(r) == rendered_png(bytes@, size, filter),
{
    let filter = match filter {
        ResizeFilter::Nearest => image::imageops::FilterType::Nearest,
        ResizeFilter::Triangle => image::imageops::FilterType::Triangle,
        ResizeFilter::CatmullRom => image::imageops::FilterType::CatmullRom,
        ResizeFilter::Gaussian => image::imageops::FilterType::Gaussian,
        ResizeFilter::Lanczos3 => image::imageops::FilterType::Lanczos3,
    };
    let resized = image::load_from_memory(bytes).ok()?.resize_to_fill(size, size, filter);
    let mut png: Vec<u8> = Vec::new();
    resized.write_to(&mut std::io::Cursor::new(&mut png), image::ImageFormat::Png).ok()?;
    Some(png)
}

/// An image as a 256-pixel PNG data URL; none when it cannot be decoded
/// or the PNG comes out empty.
pub fn image_bytes_to_png_data_url(bytes: &Vec<u8>) -> (r: Option<String>)
    ensures
        match png_icon_bytes(bytes@) {
            Some(png) => if png.len() > 0 {
                r is Some && r->Some_0@ == "data:image/png;base64,"@
                    + crate::codec::base64_standard_encoded(png)
            } else {
                r is None
            },
            None => r is None,
        },
{
    let png = match render_png(bytes, ICON_SIZE, ICON_FILTER) {
        Some(p) => p,
        None => {
            return None;
        },
    };
    if png.len() == 0 {
        return None;
    }
    let encoded = crate::codec::encode_base64_standard(&png);
    let mut r = "data:image/png;base64,".to_owned();
    r.append(encoded.as_str());
    proof {
        reveal_strlit("data:image/png;base64,");
    }
    Some(r)
}

} // verus!
