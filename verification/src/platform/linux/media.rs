//! Reading `playerctl` output: what is playing, and its cover art.
use vstd::prelude::*;

use crate::codec::{base64_standard_encoded, encode_base64_standard};
use crate::platform::{media_empty, media_is_default, media_timestamps_from_position, timestamps_from_position, MediaInfo};
use crate::platform::linux::wayland::{first_quote, quote_position};
use crate::text::{
    chars_of, contains, contains_str, push_char, has_prefix, is_blank, is_blank_str, lines, lines_of, parse_i64_spec,
    parse_i64_str, starts_with, str_eq, to_lowercase, trim, trim_str, unicode_lowercase,
};

verus! {

/// `value`, unless it is blank: then `fallback` (`if_empty`).
pub open spec fn or_if_blank(value: Seq<char>, fallback: Seq<char>) -> Seq<char> {
    if is_blank(value) {
        fallback
    } else {
        value
    }
}

/// `value`, unless it is blank: then `fallback`.
pub fn if_empty(value: &str, fallback: &str) -> (r: String)
    ensures
        r@ == or_if_blank(value@, fallback@),
{
    if is_blank_str(value) {
        fallback.to_owned()
    } else {
        value.to_owned()
    }
}

/// What a helper program's run gives: on success its first output line,
/// trimmed (empty when it printed nothing); on failure its trimmed error
/// output, else its trimmed output, else `命令返回失败`.
pub open spec fn command_outcome(success: bool, stdout: Seq<char>, stderr: Seq<char>) -> Result<
    Seq<char>,
    Seq<char>,
> {
    if !success {
        Err(or_if_blank(or_if_blank(trim(stderr), trim(stdout)), "命令返回失败"@))
    } else if lines(stdout).len() > 0 {
        Ok(trim(lines(stdout)[0]))
    } else {
        Ok(Seq::empty())
    }
}

/// What a helper program's run gives, from its exit status and its output
/// as text.
pub fn command_result(success: bool, stdout: &str, stderr: &str) -> (r: Result<String, String>)
    ensures
        match (r, command_outcome(success, stdout@, stderr@)) {
            (Ok(a), Ok(b)) => a@ == b,
            (Err(a), Err(b)) => a@ == b,
            _ => false,
        },
{
    if !success {
        let e = trim_str(stderr);
        let o = trim_str(stdout);
        let first = if_empty(e.as_str(), o.as_str());
        return Err(if_empty(first.as_str(), "命令返回失败"));
    }
    let ls = lines_of(stdout);
    if ls.len() > 0 {
        assert(ls@.map_values(|l: String| l@)[0] == ls@[0]@);
        Ok(trim_str(ls[0].as_str()))
    } else {
        Ok(String::new())
    }
}

/// The message when a helper program could not be run.
pub fn command_spawn_error(program: &str, error: &str) -> (r: String)
    ensures
        r@ == "调用 "@ + program@ + " 失败："@ + error@,
{
    let mut m = "调用 ".to_owned();
    m.append(program);
    m.append(" 失败：");
    m.append(error);
    proof {
        reveal_strlit("调用 ");
        reveal_strlit(" 失败：");
    }
    m
}

/// The playback state as the reporter names it: `playing`, `paused` or
/// `stopped` for those words or their short forms in any case, else
/// empty.
pub open spec fn playback_state_name(value: Seq<char>) -> Seq<char> {
    let v = unicode_lowercase(trim(value));
    if v == "playing"@ || v == "play"@ {
        "playing"@
    } else if v == "paused"@ || v == "pause"@ {
        "paused"@
    } else if v == "stopped"@ || v == "stop"@ {
        "stopped"@
    } else {
        Seq::empty()
    }
}

/// The playback state as the reporter names it.
pub fn normalize_playback_state(value: &str) -> (r: String)
    ensures
        r@ == playback_state_name(value@),
{
    let t = trim_str(value);
    let v = to_lowercase(t.as_str());
    let s = v.as_str();
    if str_eq(s, "playing") || str_eq(s, "play") {
        "playing".to_owned()
    } else if str_eq(s, "paused") || str_eq(s, "pause") {
        "paused".to_owned()
    } else if str_eq(s, "stopped") || str_eq(s, "stop") {
        "stopped".to_owned()
    } else {
        String::new()
    }
}

/// A time in microseconds, as text, in milliseconds: none when it is not
/// an `i64` or is negative.
pub open spec fn micros_text_to_ms(value: Seq<char>) -> Option<i64> {
    match parse_i64_spec(trim(value)) {
        Some(m) => if m < 0 {
            None
        } else {
            Some((m / 1000) as i64)
        },
        None => None,
    }
}

/// A position in microseconds, as text, in milliseconds.
pub fn parse_microseconds_to_ms(value: &str) -> (r: Option<i64>)
    ensures
        r == micros_text_to_ms(value@),
{
    let t = trim_str(value);
    match parse_i64_str(t.as_str()) {
        Some(m) => if m < 0 {
            None
        } else {
            Some(m / 1000)
        },
        None => None,
    }
}

/// A length in microseconds (MPRIS `mpris:length`), as text, in
/// milliseconds.
pub fn parse_mpris_length_to_ms(value: &str) -> (r: Option<i64>)
    ensures
        r == micros_text_to_ms(value@),
{
    parse_microseconds_to_ms(value)
}

/// The `playerctl` output means no player is running.
pub open spec fn no_player_output(stdout: Seq<char>, stderr: Seq<char>) -> bool {
    let combined = unicode_lowercase(stdout + "\n"@ + stderr);
    contains(combined, "no players found"@) || contains(
        combined,
        "no player could handle this command"@,
    )
}

/// What a failed `playerctl` run means: nothing playing when no player
/// runs, else an error with its error output.
pub fn playerctl_failure(stdout: &str, stderr: &str) -> (r: Result<MediaInfo, String>)
    ensures
        no_player_output(stdout@, stderr@) ==> r is Ok && media_is_default(r->Ok_0),
        !no_player_output(stdout@, stderr@) ==> r is Err && r->Err_0@ == "读取媒体信息失败："@
            + or_if_blank(trim(stderr@), "playerctl 返回失败"@),
{
    let mut combined = stdout.to_owned();
    combined.append("\n");
    combined.append(stderr);
    let lower = to_lowercase(combined.as_str());
    proof {
        reveal_strlit("\n");
    }
    if contains_str(lower.as_str(), "no players found") || contains_str(
        lower.as_str(),
        "no player could handle this command",
    ) {
        return Ok(MediaInfo::default());
    }
    let mut m = "读取媒体信息失败：".to_owned();
    let e = trim_str(stderr);
    let tail = if_empty(e.as_str(), "playerctl 返回失败");
    m.append(tail.as_str());
    proof {
        reveal_strlit("读取媒体信息失败：");
    }
    Err(m)
}

/// The `i`th line of `playerctl` output, trimmed, or empty.
pub open spec fn output_line(ls: Seq<Seq<char>>, i: int) -> Seq<char> {
    if i < ls.len() {
        trim(ls[i])
    } else {
        Seq::empty()
    }
}

fn line_at(ls: &Vec<String>, i: usize) -> (r: String)
    ensures
        r@ == output_line(ls@.map_values(|l: String| l@), i as int),
{
    if i < ls.len() {
        assert(ls@.map_values(|l: String| l@)[i as int] == ls@[i as int]@);
        trim_str(ls[i].as_str())
    } else {
        String::new()
    }
}

/// The media that `playerctl metadata` output describes: one line each
/// for title, artist, album, player, cover URL, status, position and
/// length.  `cover_url` is the cover as it is reported, and
/// `reported_at_ms` the time of the reading.  Nothing when title, artist
/// and album are all blank.
pub open spec fn playerctl_media_ok(m: MediaInfo, stdout: Seq<char>, cover_url: Seq<char>, reported_at_ms: i64) -> bool {
    let ls = lines(stdout);
    let state = playback_state_name(output_line(ls, 5));
    let position = micros_text_to_ms(output_line(ls, 6));
    let duration = micros_text_to_ms(output_line(ls, 7));
    let ts = timestamps_from_position(state, position, duration, reported_at_ms);
    if is_blank(output_line(ls, 0)) && is_blank(output_line(ls, 1)) && is_blank(output_line(ls, 2)) {
        media_is_default(m)
    } else {
        &&& m.title@ == output_line(ls, 0)
        &&& m.artist@ == output_line(ls, 1)
        &&& m.album@ == output_line(ls, 2)
        &&& m.source_app_id@ == output_line(ls, 3)
        &&& m.cover_url@ == cover_url
        &&& m.playback_state@ == state
        &&& m.position_ms == position
        &&& m.duration_ms == duration
        &&& m.start_timestamp_ms == ts.0
        &&& m.end_timestamp_ms == ts.1
        &&& m.reported_at_ms == Some(reported_at_ms)
    }
}

/// The cover URL line of `playerctl metadata` output, trimmed.
pub fn playerctl_art_url(stdout: &str) -> (r: String)
    ensures
        r@ == output_line(lines(stdout@), 4),
{
    let ls = lines_of(stdout);
    line_at(&ls, 4)
}

/// The media that `playerctl metadata` output describes.
pub fn media_from_playerctl(stdout: &str, cover_url: String, reported_at_ms: i64) -> (r: MediaInfo)
    ensures
        playerctl_media_ok(r, stdout@, cover_url@, reported_at_ms),
{
    let ls = lines_of(stdout);
    let title = line_at(&ls, 0);
    let artist = line_at(&ls, 1);
    let album = line_at(&ls, 2);
    let source_app_id = line_at(&ls, 3);
    let playback_state = normalize_playback_state(line_at(&ls, 5).as_str());
    let position_ms = parse_microseconds_to_ms(line_at(&ls, 6).as_str());
    let duration_ms = parse_mpris_length_to_ms(line_at(&ls, 7).as_str());
    let (start_timestamp_ms, end_timestamp_ms) = media_timestamps_from_position(
        playback_state.as_str(),
        position_ms,
        duration_ms,
        reported_at_ms,
    );
    let media = MediaInfo {
        title,
        artist,
        album,
        source_app_id,
        cover_url,
        playback_state,
        position_ms,
        duration_ms,
        start_timestamp_ms,
        end_timestamp_ms,
        reported_at_ms: Some(reported_at_ms),
    };
    if media.is_empty() {
        return MediaInfo::default();
    }
    media
}

/// Where a reported cover comes from: nowhere, the report itself (a
/// `data:` URL), or an HTTP(S) address to download.
#[derive(Debug)]
pub enum ArtworkSource {
    Missing,
    Inline(String),
    Download(String),
}

/// Where a reported cover comes from, given its trimmed URL.
pub open spec fn artwork_source_spec(url: Seq<char>) -> (u8, Seq<char>) {
    let t = trim(url);
    if t.len() == 0 {
        (0, Seq::empty())
    } else if has_prefix(t, "data:"@) {
        (1, t)
    } else if has_prefix(t, "http://"@) || has_prefix(t, "https://"@) {
        (2, t)
    } else {
        (0, Seq::empty())
    }
}

/// Where a reported cover comes from.
pub fn artwork_source(url: &str) -> (r: ArtworkSource)
    ensures
        match r {
            ArtworkSource::Missing => artwork_source_spec(url@).0 == 0,
            ArtworkSource::Inline(u) => artwork_source_spec(url@) == (1u8, u@),
            ArtworkSource::Download(u) => artwork_source_spec(url@) == (2u8, u@),
        },
{
    let t = trim_str(url);
    if t.as_str().is_empty() {
        return ArtworkSource::Missing;
    }
    proof {
        reveal_strlit("data:");
        reveal_strlit("http://");
        reveal_strlit("https://");
    }
    if starts_with(t.as_str(), "data:") {
        ArtworkSource::Inline(t)
    } else if starts_with(t.as_str(), "http://") || starts_with(t.as_str(), "https://") {
        ArtworkSource::Download(t)
    } else {
        ArtworkSource::Missing
    }
}

/// `bytes` start with `prefix`.
pub open spec fn bytes_start_with(bytes: Seq<u8>, prefix: Seq<u8>) -> bool {
    prefix.len() <= bytes.len() && bytes.subrange(0, prefix.len() as int) == prefix
}

/// ASCII lower case of a byte.
pub open spec fn lower_byte(b: u8) -> u8 {
    if 65 <= b <= 90 {
        (b + 32) as u8
    } else {
        b
    }
}

/// The first 512 bytes of an image mention `<svg`, in any ASCII case.
pub open spec fn svg_sample(bytes: Seq<u8>) -> bool {
    let n: int = if bytes.len() < 512 {
        bytes.len() as int
    } else {
        512
    };
    exists|i: int|
        0 <= i && i + 4 <= n && lower_byte(#[trigger] bytes[i]) == 60 && lower_byte(bytes[i + 1]) == 115
            && lower_byte(bytes[i + 2]) == 118 && lower_byte(bytes[i + 3]) == 103
}

/// Whether the first 512 bytes of an image mention `<svg`.
pub fn looks_like_svg(bytes: &Vec<u8>) -> (b: bool)
    ensures
        b == svg_sample(bytes@),
{
    let n: usize = if bytes.len() < 512 {
        bytes.len()
    } else {
        512
    };
    if n < 4 {
        return false;
    }
    let mut i: usize = 0;
    while i + 4 <= n
        invariant
            n <= bytes.len(),
            n == (if bytes@.len() < 512 { bytes@.len() as int } else { 512 }),
            4 <= n,
            i + 3 <= n,
            forall|j: int|
                0 <= j < i ==> !(lower_byte(#[trigger] bytes@[j]) == 60 && lower_byte(bytes@[j + 1])
                    == 115 && lower_byte(bytes@[j + 2]) == 118 && lower_byte(bytes@[j + 3]) == 103),
        decreases n - i,
    {
        let a = lower(bytes[i]);
        let b = lower(bytes[i + 1]);
        let c = lower(bytes[i + 2]);
        let d = lower(bytes[i + 3]);
        if a == 60 && b == 115 && c == 118 && d == 103 {
            return true;
        }
        i = i + 1;
    }
    false
}

fn lower(b: u8) -> (r: u8)
    ensures
        r == lower_byte(b),
{
    if 65 <= b && b <= 90 {
        b + 32
    } else {
        b
    }
}

/// The image type of downloaded cover art, by its first bytes: JPEG, PNG,
/// GIF, WebP, ICO or SVG, else JPEG.
pub open spec fn artwork_content_type(bytes: Seq<u8>) -> Seq<char> {
    if bytes_start_with(bytes, seq![0xFFu8, 0xD8, 0xFF]) {
        "image/jpeg"@
    } else if bytes_start_with(bytes, seq![0x89u8, 80, 78, 71, 13, 10, 26, 10]) {
        "image/png"@
    } else if bytes_start_with(bytes, seq![71u8, 73, 70, 56, 55, 97]) || bytes_start_with(
        bytes,
        seq![71u8, 73, 70, 56, 57, 97],
    ) {
        "image/gif"@
    } else if bytes.len() >= 12 && bytes.subrange(0, 4) == seq![82u8, 73, 70, 70]
        && bytes.subrange(8, 12) == seq![87u8, 69, 66, 80] {
        "image/webp"@
    } else if bytes.len() >= 4 && bytes[0] == 0 && bytes[1] == 0 && (bytes[2] == 1 || bytes[2] == 2)
        && bytes[3] == 0 {
        "image/x-icon"@
    } else if svg_sample(bytes) {
        "image/svg+xml"@
    } else {
        "image/jpeg"@
    }
}

/// Whether `bytes` start with `prefix`.
pub fn starts_with_bytes(bytes: &Vec<u8>, prefix: &Vec<u8>) -> (b: bool)
    ensures
        b == bytes_start_with(bytes@, prefix@),
{
    if prefix.len() > bytes.len() {
        return false;
    }
    let mut i: usize = 0;
    while i < prefix.len()
        invariant
            i <= prefix.len() <= bytes.len(),
            forall|j: int| 0 <= j < i ==> bytes@[j] == prefix@[j],
        decreases prefix.len() - i,
    {
        if bytes[i] != prefix[i] {
            return false;
        }
        i = i + 1;
    }
    assert(bytes@.subrange(0, prefix@.len() as int) =~= prefix@);
    true
}

/// The image type of downloaded cover art.
pub fn detect_image_content_type(bytes: &Vec<u8>) -> (r: String)
    ensures
        r@ == artwork_content_type(bytes@),
{
    if starts_with_bytes(bytes, &vec![0xFFu8, 0xD8, 0xFF]) {
        "image/jpeg".to_owned()
    } else if starts_with_bytes(bytes, &vec![0x89u8, 80, 78, 71, 13, 10, 26, 10]) {
        "image/png".to_owned()
    } else if starts_with_bytes(bytes, &vec![71u8, 73, 70, 56, 55, 97]) || starts_with_bytes(
        bytes,
        &vec![71u8, 73, 70, 56, 57, 97],
    ) {
        "image/gif".to_owned()
    } else if bytes.len() >= 12 && bytes[0] == 82 && bytes[1] == 73 && bytes[2] == 70 && bytes[3]
        == 70 && bytes[8] == 87 && bytes[9] == 69 && bytes[10] == 66 && bytes[11] == 80 {
        assert(bytes@.subrange(0, 4) =~= seq![82u8, 73, 70, 70]);
        assert(bytes@.subrange(8, 12) =~= seq![87u8, 69, 66, 80]);
        "image/webp".to_owned()
    } else if bytes.len() >= 4 && bytes[0] == 0 && bytes[1] == 0 && (bytes[2] == 1 || bytes[2]
        == 2) && bytes[3] == 0 {
        proof {
            if bytes@.len() >= 12 && bytes@.subrange(0, 4) == seq![82u8, 73, 70, 70] {
                assert(bytes@.subrange(0, 4)[0] == bytes@[0]);
            }
        }
        "image/x-icon".to_owned()
    } else {
        proof {
            if bytes@.len() >= 12 && bytes@.subrange(0, 4) == seq![82u8, 73, 70, 70] && bytes@.subrange(8, 12) == seq![87u8, 69, 66, 80] {
                assert(bytes@.subrange(0, 4)[0] == bytes@[0]);
                assert(bytes@.subrange(0, 4)[1] == bytes@[1]);
                assert(bytes@.subrange(0, 4)[2] == bytes@[2]);
                assert(bytes@.subrange(0, 4)[3] == bytes@[3]);
                assert(bytes@.subrange(8, 12)[0] == bytes@[8]);
                assert(bytes@.subrange(8, 12)[1] == bytes@[9]);
                assert(bytes@.subrange(8, 12)[2] == bytes@[10]);
                assert(bytes@.subrange(8, 12)[3] == bytes@[11]);
            }
        }
        if looks_like_svg(bytes) {
            "image/svg+xml".to_owned()
        } else {
            "image/jpeg".to_owned()
        }
    }
}

/// The data URL of downloaded cover art: its type (the response's image
/// content type when it gave one, else guessed from the bytes) and its
/// Base64; empty when nothing was downloaded.
pub fn artwork_data_url(header_content_type: Option<String>, bytes: &Vec<u8>) -> (r: String)
    ensures
        bytes@.len() == 0 ==> r@.len() == 0,
        bytes@.len() > 0 ==> r@ == "data:"@ + (match header_content_type {
            Some(h) if !is_blank(h@) && has_prefix(trim(h@), "image/"@) => trim(h@),
            _ => artwork_content_type(bytes@),
        }) + ";base64,"@ + base64_standard_encoded(bytes@),
{
    if bytes.len() == 0 {
        return String::new();
    }
    let content_type = match header_content_type {
        Some(h) => {
            let t = trim_str(h.as_str());
            if !is_blank_str(h.as_str()) && starts_with(t.as_str(), "image/") {
                t
            } else {
                detect_image_content_type(bytes)
            }
        },
        None => detect_image_content_type(bytes),
    };
    let encoded = encode_base64_standard(bytes);
    let mut r = "data:".to_owned();
    r.append(content_type.as_str());
    r.append(";base64,");
    r.append(encoded.as_str());
    proof {
        reveal_strlit("data:");
        reveal_strlit(";base64,");
    }
    r
}

/// The D-Bus name of an MPRIS player: the instance name itself when it is
/// one already, else the MPRIS prefix and the name.
pub open spec fn mpris_destination(instance: Seq<char>) -> Seq<char> {
    if has_prefix(trim(instance), "org.mpris.MediaPlayer2."@) {
        trim(instance)
    } else {
        "org.mpris.MediaPlayer2."@ + trim(instance)
    }
}

/// The D-Bus name of an MPRIS player; none for a blank instance name.
pub fn mpris_destination_of(instance: &str) -> (r: Option<String>)
    ensures
        is_blank(instance@) ==> r is None,
        !is_blank(instance@) ==> r is Some && r->Some_0@ == mpris_destination(instance@),
{
    if is_blank_str(instance) {
        return None;
    }
    let t = trim_str(instance);
    if starts_with(t.as_str(), "org.mpris.MediaPlayer2.") {
        Some(t)
    } else {
        let mut d = "org.mpris.MediaPlayer2.".to_owned();
        d.append(t.as_str());
        Some(d)
    }
}

/// What `parse_gdbus_string_variant` has read after the first quote: the
/// text so far, whether a backslash is pending, and whether the closing
/// quote was found.  A backslash keeps the next character as it is.
pub open spec fn variant_scan(s: Seq<char>) -> (Seq<char>, bool, bool)
    decreases s.len(),
{
    if s.len() == 0 {
        (Seq::empty(), false, false)
    } else {
        variant_step(variant_scan(s.drop_last()), s.last())
    }
}

/// One character of `variant_scan`.
pub open spec fn variant_step(p: (Seq<char>, bool, bool), c: char) -> (Seq<char>, bool, bool) {
    if p.2 {
        p
    } else if p.1 {
        (p.0.push(c), false, false)
    } else if c == '\\' {
        (p.0, true, false)
    } else if c == '\'' {
        (p.0, false, true)
    } else {
        (p.0.push(c), false, false)
    }
}

/// The string in `gdbus` output for a string property, such as
/// `(<'spotify'>,)`: the characters after the first `'` up to the next
/// unescaped one (or the end), trimmed; none when there is no quote or the
/// string is blank.
pub open spec fn gdbus_string_variant(output: Seq<char>) -> Option<Seq<char>> {
    match first_quote(output) {
        Some(i) => {
            let v = trim(variant_scan(output.subrange(i + 1, output.len() as int)).0);
            if v.len() == 0 {
                None
            } else {
                Some(v)
            }
        },
        None => None,
    }
}

proof fn lemma_variant_scan_done(s: Seq<char>, i: int)
    requires
        0 <= i <= s.len(),
        variant_scan(s.subrange(0, i)).2,
    ensures
        variant_scan(s) == variant_scan(s.subrange(0, i)),
    decreases s.len() - i,
{
    if i < s.len() {
        assert(s.subrange(0, i + 1).drop_last() =~= s.subrange(0, i));
        lemma_variant_scan_done(s, i + 1);
    } else {
        assert(s.subrange(0, i) =~= s);
    }
}

/// The string in `gdbus` output for a string property.
pub fn parse_gdbus_string_variant(output: &str) -> (r: Option<String>)
    ensures
        crate::text::opt_seq(r) == gdbus_string_variant(output@),
{
    let v = chars_of(output);
    let start = match quote_position(&v) {
        Some(i) => i,
        None => {
            return None;
        },
    };
    let ghost rest = v@.subrange(start + 1, v.len() as int);
    let mut value = String::new();
    let mut escaped = false;
    let mut done = false;
    let mut i: usize = start + 1;
    while i < v.len() && !done
        invariant
            start + 1 <= i <= v.len(),
            v@ == output@,
            rest == v@.subrange(start + 1, v.len() as int),
            first_quote(output@) == Some(start as int),
            variant_scan(rest.subrange(0, i - start - 1)) == (value@, escaped, done),
        decreases v.len() - i,
    {
        let c = v[i];
        let ghost k = i - start - 1;
        proof {
            assert(rest.subrange(0, k + 1).drop_last() =~= rest.subrange(0, k));
            assert(rest.subrange(0, k + 1).last() == c);
        }
        if escaped {
            push_char(&mut value, c);
            escaped = false;
        } else if c == '\\' {
            escaped = true;
        } else if c == '\'' {
            done = true;
        } else {
            push_char(&mut value, c);
        }
        i = i + 1;
    }
    proof {
        if done {
            lemma_variant_scan_done(rest, i - start - 1);
        } else {
            assert(rest.subrange(0, rest.len() as int) =~= rest);
        }
    }
    let t = trim_str(value.as_str());
    if t.as_str().is_empty() {
        None
    } else {
        Some(t)
    }
}

/// The first line of `playerctl`'s `{{playerInstance}}` output, trimmed;
/// none when it is blank.
pub open spec fn player_instance(stdout: Seq<char>) -> Option<Seq<char>> {
    let first = if lines(stdout).len() > 0 {
        trim(lines(stdout)[0])
    } else {
        Seq::empty()
    };
    if first.len() == 0 {
        None
    } else {
        Some(first)
    }
}

/// The player instance named by `playerctl` output.
pub fn player_instance_from_output(stdout: &str) -> (r: Option<String>)
    ensures
        crate::text::opt_seq(r) == player_instance(stdout@),
{
    let ls = lines_of(stdout);
    assert(ls@.map_values(|l: String| l@).len() == ls@.len());
    if ls.len() == 0 {
        return None;
    }
    assert(ls@.map_values(|l: String| l@)[0] == ls@[0]@);
    let t = trim_str(ls[0].as_str());
    if t.as_str().is_empty() {
        None
    } else {
        Some(t)
    }
}

} // verus!
