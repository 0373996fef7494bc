//! The decisions of the reporter's polling loop.
//!
//! Each turn of the loop reads the foreground window and, at most every
//! few seconds, the playing media; it sends a report when the activity
//! changed, a heartbeat when it did not but the heartbeat interval has
//! passed, and otherwise nothing; it then sleeps for the poll interval,
//! longer after repeated errors.  The caller performs the reads, the
//! requests and the sleep, and asks this state what to do at each step.
use vstd::prelude::*;

use crate::models::ClientConfig;
use crate::platform::{media_is_default, media_signature, ForegroundSnapshot, MediaInfo};
use crate::text::{is_blank, is_blank_str, opt_seq, push_char, str_eq};

use super::{MAX_ERROR_BACKOFF_MS, MIN_MEDIA_POLL_INTERVAL_MS, MIN_POLL_INTERVAL_MS};

verus! {

/// At least `interval` milliseconds have passed since `last`; `unknown`
/// when there is no `last` or the clock went back.
pub open spec fn elapsed_at_least(last: Option<u64>, now: u64, interval: u64, unknown: bool) -> bool {
    match last {
        Some(l) => if now >= l {
            now - l >= interval
        } else {
            unknown
        },
        None => unknown,
    }
}

fn elapsed_check(last: Option<u64>, now: u64, interval: u64, unknown: bool) -> (b: bool)
    ensures
        b == elapsed_at_least(last, now, interval, unknown),
{
    match last {
        Some(l) => if now >= l {
            now - l >= interval
        } else {
            unknown
        },
        None => unknown,
    }
}

/// The wait after a turn: the poll interval, or after more than one error
/// in a row the poll interval doubled per error (up to 16 times), at most
/// `MAX_ERROR_BACKOFF_MS`.
pub open spec fn backoff_ms(poll_interval_ms: u64, consecutive_errors: u32) -> u64 {
    if consecutive_errors > 1 {
        let factor: int = if consecutive_errors >= 4 {
            16
        } else if consecutive_errors == 3 {
            8
        } else {
            4
        };
        let product = poll_interval_ms * factor;
        if product > MAX_ERROR_BACKOFF_MS {
            MAX_ERROR_BACKOFF_MS
        } else {
            product as u64
        }
    } else {
        poll_interval_ms
    }
}

/// What to do with the activity just read.
#[derive(Clone, Copy, Debug, PartialEq, Eq, Structural)]
pub enum SendDecision {
    /// The activity is the one last sent and no heartbeat is due.
    Skip,
    /// The activity changed: send it.
    Report,
    /// The activity is the one last sent and the heartbeat interval passed.
    Heartbeat,
}

/// The state the polling loop carries from one turn to the next.
#[derive(Debug)]
pub struct ReporterLoop {
    pub poll_interval_ms: u64,
    pub heartbeat_interval_ms: Option<u64>,
    pub last_signature: Option<String>,
    pub last_report_at_ms: Option<u64>,
    pub consecutive_errors: u32,
    pub last_media_error: Option<String>,
    pub cached_media: MediaInfo,
    pub last_media_poll_at_ms: Option<u64>,
}

/// The signature of one reading: the foreground application, the window
/// title and the media signature, separated by `U+001E`.
pub open spec fn activity_signature_spec(
    snapshot: ForegroundSnapshot,
    media: MediaInfo,
    config: ClientConfig,
) -> Seq<char> {
    snapshot.process_name@ + seq!['\u{1e}'] + snapshot.process_title@ + seq!['\u{1e}']
        + media_signature(media, config.report_media, config.report_play_source)
}

/// The signature of one reading, which decides whether it is news.
pub fn activity_signature(
    snapshot: &ForegroundSnapshot,
    media: &MediaInfo,
    config: &ClientConfig,
) -> (r: String)
    ensures
        r@ == activity_signature_spec(*snapshot, *media, *config),
{
    let mut r = snapshot.process_name.clone();
    push_char(&mut r, '\u{1e}');
    r.append(snapshot.process_title.as_str());
    push_char(&mut r, '\u{1e}');
    let media_sig = media.signature_for_reporting(config.report_media, config.report_play_source);
    r.append(media_sig.as_str());
    r
}

/// Whether the foreground window is read at all.
pub open spec fn collects_foreground(config: ClientConfig) -> bool {
    config.report_foreground_app || config.report_window_title
}

/// Whether the media is read at all.
pub open spec fn collects_media(config: ClientConfig) -> bool {
    config.report_media || config.report_play_source
}

/// Whether the foreground window is read at all.
pub fn should_collect_foreground(config: &ClientConfig) -> (b: bool)
    ensures
        b == collects_foreground(*config),
{
    config.report_foreground_app || config.report_window_title
}

/// Whether the media is read at all.
pub fn should_collect_media(config: &ClientConfig) -> (b: bool)
    ensures
        b == collects_media(*config),
{
    config.report_media || config.report_play_source
}

/// The interval between media readings.
pub open spec fn media_poll_interval(poll_interval_ms: u64) -> u64 {
    if poll_interval_ms > MIN_MEDIA_POLL_INTERVAL_MS {
        poll_interval_ms
    } else {
        MIN_MEDIA_POLL_INTERVAL_MS
    }
}

impl ReporterLoop {
    /// The loop's state before its first turn: polling at least every
    /// second, and a heartbeat unless its interval is 0.
    pub fn new(config: &ClientConfig) -> (r: Self)
        ensures
            r.poll_interval_ms == if config.poll_interval_ms > MIN_POLL_INTERVAL_MS {
                config.poll_interval_ms
            } else {
                MIN_POLL_INTERVAL_MS
            },
            r.heartbeat_interval_ms == if config.heartbeat_interval_ms == 0 {
                None::<u64>
            } else {
                Some(config.heartbeat_interval_ms)
            },
            r.last_signature is None,
            r.last_report_at_ms is None,
            r.consecutive_errors == 0,
            r.last_media_error is None,
            media_is_default(r.cached_media),
            r.last_media_poll_at_ms is None,
    {
        ReporterLoop {
            poll_interval_ms: if config.poll_interval_ms > MIN_POLL_INTERVAL_MS {
                config.poll_interval_ms
            } else {
                MIN_POLL_INTERVAL_MS
            },
            heartbeat_interval_ms: if config.heartbeat_interval_ms == 0 {
                None
            } else {
                Some(config.heartbeat_interval_ms)
            },
            last_signature: None,
            last_report_at_ms: None,
            consecutive_errors: 0,
            last_media_error: None,
            cached_media: MediaInfo::default(),
            last_media_poll_at_ms: None,
        }
    }

    /// Whether the media should be read again at `now_ms`: on the first
    /// turn, when the clock went back, or once the media interval passed.
    pub fn media_poll_due(&self, now_ms: u64) -> (b: bool)
        ensures
            b == elapsed_at_least(
                self.last_media_poll_at_ms,
                now_ms,
                media_poll_interval(self.poll_interval_ms),
                true,
            ),
    {
        let interval = if self.poll_interval_ms > MIN_MEDIA_POLL_INTERVAL_MS {
            self.poll_interval_ms
        } else {
            MIN_MEDIA_POLL_INTERVAL_MS
        };
        elapsed_check(self.last_media_poll_at_ms, now_ms, interval, true)
    }

    /// Keeps a media reading made at `now_ms`.  A new reading of the same
    /// media keeps the cover art known so far; a failed reading leaves no
    /// media, and its error is returned to be logged unless it repeats the
    /// last one.
    pub fn record_media_reading(
        &mut self,
        reading: Result<MediaInfo, String>,
        now_ms: u64,
        config: &ClientConfig,
    ) -> (to_log: Option<String>)
        ensures
            final(self).last_media_poll_at_ms == Some(now_ms),
            final(self).poll_interval_ms == old(self).poll_interval_ms,
            final(self).heartbeat_interval_ms == old(self).heartbeat_interval_ms,
            final(self).last_signature == old(self).last_signature,
            final(self).last_report_at_ms == old(self).last_report_at_ms,
            final(self).consecutive_errors == old(self).consecutive_errors,
            match reading {
                Ok(m) => {
                    let previous = media_signature(
                        old(self).cached_media,
                        config.report_media,
                        config.report_play_source,
                    );
                    let same = previous.len() > 0 && previous == media_signature(
                        m,
                        config.report_media,
                        config.report_play_source,
                    );
                    &&& to_log is None
                    &&& final(self).last_media_error is None
                    &&& final(self).cached_media == if same {
                        MediaInfo { cover_url: old(self).cached_media.cover_url, ..m }
                    } else {
                        m
                    }
                },
                Err(e) => {
                    &&& final(self).last_media_error == Some(e)
                    &&& media_is_default(final(self).cached_media)
                    &&& to_log == if old(self).last_media_error is Some
                        && old(self).last_media_error.unwrap()@ == e@ {
                        None::<String>
                    } else {
                        Some(e)
                    }
                },
            },
    {
        self.last_media_poll_at_ms = Some(now_ms);
        let previous = self.cached_media.signature_for_reporting(
            config.report_media,
            config.report_play_source,
        );
        match reading {
            Ok(media) => {
                self.last_media_error = None;
                let mut media = media;
                let current = media.signature_for_reporting(
                    config.report_media,
                    config.report_play_source,
                );
                if !previous.as_str().is_empty() && previous == current {
                    media.cover_url = self.cached_media.cover_url.clone();
                }
                self.cached_media = media;
                None
            },
            Err(error) => {
                let repeated = match &self.last_media_error {
                    Some(last) => str_eq(last.as_str(), error.as_str()),
                    None => false,
                };
                self.last_media_error = Some(error.clone());
                self.cached_media = MediaInfo::default();
                if repeated {
                    None
                } else {
                    Some(error)
                }
            },
        }
    }

    /// Forgets the media when it is not read at all.
    pub fn clear_media(&mut self)
        ensures
            final(self).last_media_error is None,
            media_is_default(final(self).cached_media),
            final(self).last_media_poll_at_ms is None,
            final(self).poll_interval_ms == old(self).poll_interval_ms,
            final(self).heartbeat_interval_ms == old(self).heartbeat_interval_ms,
            final(self).last_signature == old(self).last_signature,
            final(self).last_report_at_ms == old(self).last_report_at_ms,
            final(self).consecutive_errors == old(self).consecutive_errors,
    {
        self.last_media_error = None;
        self.cached_media = MediaInfo::default();
        self.last_media_poll_at_ms = None;
    }

    /// What to do with a reading of signature `signature` at `now_ms`: a
    /// changed activity is reported; an unchanged one gets a heartbeat once
    /// the heartbeat interval passed since the last report, and is skipped
    /// otherwise.
    pub fn send_decision(&self, signature: &String, now_ms: u64) -> (d: SendDecision)
        ensures
            !(self.last_signature is Some && self.last_signature.unwrap()@ == signature@) ==> d
                == SendDecision::Report,
            self.last_signature is Some && self.last_signature.unwrap()@ == signature@ ==> d == if (
            self.heartbeat_interval_ms is Some && elapsed_at_least(
                self.last_report_at_ms,
                now_ms,
                self.heartbeat_interval_ms.unwrap(),
                false,
            )) {
                SendDecision::Heartbeat
            } else {
                SendDecision::Skip
            },
    {
        let same = match &self.last_signature {
            Some(last) => str_eq(last.as_str(), signature.as_str()),
            None => false,
        };
        if !same {
            return SendDecision::Report;
        }
        match self.heartbeat_interval_ms {
            Some(interval) => if elapsed_check(self.last_report_at_ms, now_ms, interval, false) {
                SendDecision::Heartbeat
            } else {
                SendDecision::Skip
            },
            None => SendDecision::Skip,
        }
    }

    /// Takes over the cover art found for the media being sent when it is
    /// the media known to the loop.
    pub fn adopt_payload_cover(&mut self, payload_media: &MediaInfo, config: &ClientConfig)
        ensures
            final(self).cached_media == if media_signature(
                old(self).cached_media,
                config.report_media,
                config.report_play_source,
            ) == media_signature(*payload_media, config.report_media, config.report_play_source) {
                MediaInfo { cover_url: payload_media.cover_url, ..old(self).cached_media }
            } else {
                old(self).cached_media
            },
            final(self).last_signature == old(self).last_signature,
            final(self).last_report_at_ms == old(self).last_report_at_ms,
            final(self).last_media_poll_at_ms == old(self).last_media_poll_at_ms,
            final(self).last_media_error == old(self).last_media_error,
            final(self).consecutive_errors == old(self).consecutive_errors,
            final(self).poll_interval_ms == old(self).poll_interval_ms,
            final(self).heartbeat_interval_ms == old(self).heartbeat_interval_ms,
    {
        let cached = self.cached_media.signature_for_reporting(
            config.report_media,
            config.report_play_source,
        );
        let sent = payload_media.signature_for_reporting(
            config.report_media,
            config.report_play_source,
        );
        if cached == sent {
            self.cached_media.cover_url = payload_media.cover_url.clone();
        }
    }

    /// Records a report the server accepted at `now_ms`: its signature and
    /// time, and the cover URL the server stored, when it gave one.
    pub fn record_report(
        &mut self,
        signature: String,
        now_ms: u64,
        server_cover_url: &Option<String>,
        payload_media: &mut MediaInfo,
    )
        ensures
            final(self).last_signature == Some(signature),
            final(self).last_report_at_ms == Some(now_ms),
            server_cover_url is Some && !is_blank(server_cover_url.unwrap()@) ==> {
                &&& *final(payload_media) == MediaInfo {
                    cover_url: server_cover_url.unwrap(),
                    ..*old(payload_media)
                }
                &&& final(self).cached_media == MediaInfo {
                    cover_url: server_cover_url.unwrap(),
                    ..old(self).cached_media
                }
            },
            !(server_cover_url is Some && !is_blank(server_cover_url.unwrap()@)) ==> {
                &&& *final(payload_media) == *old(payload_media)
                &&& final(self).cached_media == old(self).cached_media
            },
            final(self).last_media_poll_at_ms == old(self).last_media_poll_at_ms,
            final(self).last_media_error == old(self).last_media_error,
            final(self).consecutive_errors == old(self).consecutive_errors,
            final(self).poll_interval_ms == old(self).poll_interval_ms,
            final(self).heartbeat_interval_ms == old(self).heartbeat_interval_ms,
    {
        if let Some(url) = server_cover_url {
            if !is_blank_str(url.as_str()) {
                payload_media.cover_url = url.clone();
                self.cached_media.cover_url = url.clone();
            }
        }
        self.last_signature = Some(signature);
        self.last_report_at_ms = Some(now_ms);
    }

    /// Ends a turn: counts the error or resets the count, and says how long
    /// to sleep.
    pub fn finish_turn(&mut self, had_error: bool) -> (sleep_ms: u64)
        ensures
            final(self).consecutive_errors == if had_error {
                if old(self).consecutive_errors == u32::MAX {
                    u32::MAX
                } else {
                    (old(self).consecutive_errors + 1) as u32
                }
            } else {
                0u32
            },
            sleep_ms == backoff_ms(old(self).poll_interval_ms, final(self).consecutive_errors),
            final(self).poll_interval_ms == old(self).poll_interval_ms,
            final(self).heartbeat_interval_ms == old(self).heartbeat_interval_ms,
            final(self).last_signature == old(self).last_signature,
            final(self).last_report_at_ms == old(self).last_report_at_ms,
            final(self).last_media_error == old(self).last_media_error,
            final(self).cached_media == old(self).cached_media,
            final(self).last_media_poll_at_ms == old(self).last_media_poll_at_ms,
    {
        if had_error {
            self.consecutive_errors = self.consecutive_errors.saturating_add(1);
        } else {
            self.consecutive_errors = 0;
        }
        error_sleep_ms(self.poll_interval_ms, self.consecutive_errors)
    }
}

/// The wait after a turn, from the poll interval and the errors in a row.
pub fn error_sleep_ms(poll_interval_ms: u64, consecutive_errors: u32) -> (r: u64)
    ensures
        r == backoff_ms(poll_interval_ms, consecutive_errors),
{
    if consecutive_errors > 1 {
        let factor: u64 = if consecutive_errors >= 4 {
            16
        } else if consecutive_errors == 3 {
            8
        } else {
            4
        };
        assert((poll_interval_ms as u128) * (factor as u128) <= 0xffff_ffff_ffff_ffffu128 * 16)
            by (nonlinear_arith)
            requires
                factor <= 16,
        ;
        let product: u128 = (poll_interval_ms as u128) * (factor as u128);
        if product > (MAX_ERROR_BACKOFF_MS as u128) {
            MAX_ERROR_BACKOFF_MS
        } else {
            product as u64
        }
    } else {
        poll_interval_ms
    }
}

/// The cover art the report should carry is looked up only when media and
/// its art are reported, the media is known without art, and it has a
/// signature to check the lookup against.
pub open spec fn wants_artwork_spec(media: MediaInfo, config: ClientConfig) -> bool {
    &&& config.report_media
    &&& config.report_media_artwork
    &&& !crate::platform::media_empty(media)
    &&& is_blank(media.cover_url@)
    &&& media_signature(media, config.report_media, config.report_play_source).len() > 0
}

/// Whether to look up cover art for the media about to be sent.
pub fn wants_artwork(media: &MediaInfo, config: &ClientConfig) -> (b: bool)
    ensures
        b == wants_artwork_spec(*media, *config),
{
    if !config.report_media || !config.report_media_artwork || media.is_empty()
        || !is_blank_str(media.cover_url.as_str()) {
        return false;
    }
    let expected = media.signature_for_reporting(config.report_media, config.report_play_source);
    !expected.as_str().is_empty()
}

/// The media a report carries: `media`, with the cover art of `artwork`, a
/// reading made for its art, when that reading is of the same media.
pub fn media_with_artwork_for_payload(
    media: &MediaInfo,
    config: &ClientConfig,
    artwork: Option<Result<MediaInfo, String>>,
) -> (r: MediaInfo)
    ensures
        r == if wants_artwork_spec(*media, *config) && artwork is Some && artwork.unwrap() is Ok
            && media_signature(
            artwork.unwrap()->Ok_0,
            config.report_media,
            config.report_play_source,
        ) == media_signature(*media, config.report_media, config.report_play_source) {
            MediaInfo { cover_url: artwork.unwrap()->Ok_0.cover_url, ..*media }
        } else {
            *media
        },
{
    let mut payload_media = media.clone();
    if !wants_artwork(media, config) {
        return payload_media;
    }
    let expected = media.signature_for_reporting(config.report_media, config.report_play_source);
    match artwork {
        Some(Ok(found)) => {
            let found_signature = found.signature_for_reporting(
                config.report_media,
                config.report_play_source,
            );
            if found_signature == expected {
                payload_media.cover_url = found.cover_url;
            }
            payload_media
        },
        _ => payload_media,
    }
}

} // verus!
