//! Properties of the library that span several calls or hold for every
//! input.
use vstd::prelude::*;

use vstd::arithmetic::power2::{lemma_pow2_pos, lemma_pow2_strictly_increases, pow2};

use crate::codec::{base64_standard_decoded, is_base64_standard_char, utf8_text};
use crate::commands::app_state::{suggested_value_spec, timing_problem};
use crate::discord::presence::{collapse_ws, lemma_collapse_ws_idempotent};
use crate::discord::{
    after_begin, after_error, after_error_keeping_connection, after_presence_update,
    after_stopped, is_active_run, sync_backoff_ms, DiscordPresenceState, MAX_ERROR_BACKOFF_MS,
    SYNC_INTERVAL_MS,
};
use crate::import_config::{decoded_text, first_object, import_candidate_texts, import_outcome_ok};
use crate::commands::helpers::{
    activity_report_body, connectivity_probe_body, inspiration_asset_body, inspiration_entry_body,
    report_device,
};
use crate::platform::windows::{status_name, SessionPlaybackStatus};
use crate::json::{
    field, lemma_obj_get_only, lemma_obj_get_push, obj_get, JsonData, JsonMap,
};
use crate::models::{ActivityPayload, ClientConfig, InspirationEntryCreateInput};
use crate::models::{AppStatePayload, ImportedIntegrationConfig, ReporterLogEntry};
use crate::platform::linux::app_icon::{
    append_unseen, best_icon, desktop_entries, icon_file_matches_name, icon_score,
};
use crate::platform::{
    media_empty, media_metadata_entries, media_timestamps_entries, push_if, is_reporting_subset, media_for_reporting_ok, media_signature, ForegroundSnapshot, MediaInfo,
};
use crate::reporter::logging::{
    entries_without_artwork, is_artwork_key, items_without_artwork, without_artwork,
};
use crate::reporter::worker::{activity_signature_spec, backoff_ms};
use crate::reporter::{logs_after_push, post_recorded, PostOutcome, ReporterState, MAX_LOGS};
use crate::state_store::{load_outcome_ok, prepared_for_save, LoadedState, StateFileRead};
use crate::text::{
    decimal, is_blank, lemma_decimal_digits, lemma_trim_empty_iff_blank, lemma_trim_idempotent,
    opt_seq, parse_unsigned, trim,
};

verus! {

/// Events of a Discord sync run that is not the active one (a run that
/// was stopped or replaced) never change the state.
pub proof fn law_stale_run_events_ignored(
    s: DiscordPresenceState,
    run_id: u64,
    connected: bool,
    error: Option<String>,
    summary: Option<String>,
    synced_at: String,
)
    requires
        !is_active_run(s.active_run_id, run_id),
    ensures
        after_presence_update(s, connected, error, summary, run_id, synced_at) == s,
        after_error(s, error, connected, run_id) == s,
        after_error_keeping_connection(s, error, run_id) == s,
        after_stopped(s, run_id) == s,
{
}

/// Once the worker of the active run has stopped, the sync is not
/// running and nothing that run reports afterwards changes the state.
pub proof fn law_stopped_run_stays_stopped(
    s: DiscordPresenceState,
    run_id: u64,
    connected: bool,
    error: Option<String>,
    summary: Option<String>,
    synced_at: String,
)
    requires
        is_active_run(s.active_run_id, run_id),
    ensures
        !after_stopped(s, run_id).running,
        !after_stopped(s, run_id).connected,
        after_presence_update(after_stopped(s, run_id), connected, error, summary, run_id, synced_at)
            == after_stopped(s, run_id),
        after_error(after_stopped(s, run_id), error, connected, run_id) == after_stopped(s, run_id),
{
}

/// A request to start the sync while it runs changes nothing; when it is
/// idle, the new run becomes the active one, disconnected and without an
/// error.
pub proof fn law_start_while_running_refused(s: DiscordPresenceState, run_id: u64)
    ensures
        s.running ==> after_begin(s, run_id) == s,
        !s.running ==> after_begin(s, run_id).running && is_active_run(
            after_begin(s, run_id).active_run_id,
            run_id,
        ) && !after_begin(s, run_id).connected && after_begin(s, run_id).last_error is None,
{
}

/// The wait after failed Discord syncs is never shorter than the sync
/// interval nor longer than `MAX_ERROR_BACKOFF_MS`, and the first failure
/// waits exactly the sync interval.
pub proof fn law_sync_backoff_bounded(consecutive_errors: u32)
    ensures
        SYNC_INTERVAL_MS <= sync_backoff_ms(consecutive_errors) <= MAX_ERROR_BACKOFF_MS,
        consecutive_errors <= 1 ==> sync_backoff_ms(consecutive_errors) == SYNC_INTERVAL_MS,
{
    let e: nat = if consecutive_errors <= 1 {
        0
    } else {
        (consecutive_errors - 1) as nat
    };
    lemma_pow2_pos(e);
    assert(pow2(0) == 1) by {
        vstd::arithmetic::power2::lemma2_to64();
    }
    assert(SYNC_INTERVAL_MS * pow2(e) >= SYNC_INTERVAL_MS) by (nonlinear_arith)
        requires
            pow2(e) >= 1,
    ;
}

/// More failures in a row never shorten the wait of the Discord sync.
pub proof fn law_sync_backoff_monotone(fewer: u32, more: u32)
    requires
        fewer <= more,
    ensures
        sync_backoff_ms(fewer) <= sync_backoff_ms(more),
{
    let e1: nat = if fewer <= 1 {
        0
    } else {
        (fewer - 1) as nat
    };
    let e2: nat = if more <= 1 {
        0
    } else {
        (more - 1) as nat
    };
    if e1 < e2 {
        lemma_pow2_strictly_increases(e1, e2);
        assert(SYNC_INTERVAL_MS * pow2(e1) <= SYNC_INTERVAL_MS * pow2(e2)) by (nonlinear_arith)
            requires
                pow2(e1) < pow2(e2),
        ;
    }
}

/// The reporter waits the poll interval after a good turn or a single
/// error; after more errors in a row it waits longer, but never longer
/// than the poll interval or `30000` ms, whichever is larger, and more
/// errors never shorten the wait.
pub proof fn law_reporter_backoff_bounded(poll_interval_ms: u64, fewer: u32, more: u32)
    requires
        fewer <= more,
    ensures
        fewer <= 1 ==> backoff_ms(poll_interval_ms, fewer) == poll_interval_ms,
        backoff_ms(poll_interval_ms, more) <= if poll_interval_ms > 30000 {
            poll_interval_ms
        } else {
            30000
        },
        poll_interval_ms <= 30000 ==> backoff_ms(poll_interval_ms, fewer) <= backoff_ms(
            poll_interval_ms,
            more,
        ),
{
    assert(poll_interval_ms * 4 <= poll_interval_ms * 8) by (nonlinear_arith);
    assert(poll_interval_ms * 8 <= poll_interval_ms * 16) by (nonlinear_arith);
    assert(poll_interval_ms <= poll_interval_ms * 4) by (nonlinear_arith);
}

/// The reporter's log keeps the newest line first, the older ones after
/// it in order, and never more than `MAX_LOGS` lines.
pub proof fn law_log_newest_first_and_bounded(
    new: Seq<ReporterLogEntry>,
    old: Seq<ReporterLogEntry>,
    entry: ReporterLogEntry,
)
    requires
        logs_after_push(new, old, entry),
    ensures
        new.len() <= MAX_LOGS,
        new[0] == entry,
        old.len() < MAX_LOGS ==> new.len() == old.len() + 1,
        forall|i: int| 1 <= i < new.len() ==> #[trigger] new[i] == old[i - 1],
{
}

/// A number written in decimal reads back as itself, when it fits.
pub proof fn law_decimal_reads_back(n: nat, max: nat)
    requires
        n <= max,
    ensures
        parse_unsigned(decimal(n), max) == Some(n),
{
    lemma_decimal_digits(n);
}

/// The value offered for a timing setting is always one that can be
/// saved, when the default itself can.
pub proof fn law_suggested_timing_is_acceptable(value: Option<JsonData>, min: u64, default_value: u64)
    requires
        default_value >= min,
    ensures
        timing_problem(JsonData::PosInt(suggested_value_spec(value, min, default_value)), min) is None,
{
}

/// Trimming twice is trimming once.
pub proof fn law_trim_idempotent(s: Seq<char>)
    ensures
        trim(trim(s)) == trim(s),
{
    lemma_trim_idempotent(s);
}

/// A Discord presence line, once its words are joined by single spaces,
/// stays the same when that is done again.
pub proof fn law_presence_line_normalization_idempotent(s: Seq<char>)
    ensures
        collapse_ws(collapse_ws(s)) == collapse_ws(s),
{
    lemma_collapse_ws_idempotent(s);
}

/// A quick-connect input is tried as JSON before any Base64 decoding.
pub proof fn law_import_tries_json_first(t: Seq<char>)
    ensures
        import_candidate_texts(t).len() >= 1,
        import_candidate_texts(t)[0] == t,
{
}

/// No name is in `s` twice.
pub open spec fn all_distinct(s: Seq<Seq<char>>) -> bool {
    forall|i: int, j: int| 0 <= i < j < s.len() ==> s[i] != s[j]
}

proof fn lemma_append_unseen_distinct(acc: Seq<Seq<char>>, xs: Seq<Seq<char>>)
    requires
        all_distinct(acc),
    ensures
        all_distinct(append_unseen(acc, xs)),
    decreases xs.len(),
{
    if xs.len() > 0 {
        lemma_append_unseen_distinct(acc, xs.drop_last());
        let a = append_unseen(acc, xs.drop_last());
        if !a.contains(xs.last()) {
            let b = a.push(xs.last());
            assert forall|i: int, j: int| 0 <= i < j < b.len() implies b[i] != b[j] by {
                if j == b.len() - 1 {
                    assert(b[i] == a[i]);
                    if b[i] == b[j] {
                        assert(a.contains(xs.last()));
                    }
                }
            }
        }
    }
}

/// The desktop entries looked for are each looked for once.
pub proof fn law_desktop_entries_distinct(source_app_id: Seq<char>, desktop_entry: Option<Seq<char>>)
    ensures
        all_distinct(desktop_entries(source_app_id, desktop_entry)),
{
    let first = match desktop_entry {
        Some(d) => d,
        None => Seq::<char>::empty(),
    };
    let none = Seq::<Seq<char>>::empty();
    lemma_append_unseen_distinct(none, crate::platform::linux::app_icon::entry_candidates(first));
    lemma_append_unseen_distinct(
        append_unseen(none, crate::platform::linux::app_icon::entry_candidates(first)),
        crate::platform::linux::app_icon::entry_candidates(source_app_id),
    );
}

/// The icon file picked among `paths` is one of them that matches the
/// icon name, no matching file scores higher, and every matching file
/// before it scores lower; none is picked only when no file matches.
pub proof fn law_best_icon_is_first_best_match(paths: Seq<Seq<char>>, icon_name: Seq<char>)
    ensures
        match best_icon(paths, icon_name) {
            Some(b) => exists|k: int|
                0 <= k < paths.len() && paths[k] == b && icon_file_matches_name(b, icon_name)
                    && (forall|j: int|
                    0 <= j < paths.len() && icon_file_matches_name(paths[j], icon_name) ==> icon_score(
                        paths[j],
                    ) <= icon_score(b)) && (forall|j: int|
                    0 <= j < k && icon_file_matches_name(paths[j], icon_name) ==> icon_score(paths[j])
                        < icon_score(b)),
            None => forall|j: int| 0 <= j < paths.len() ==> !icon_file_matches_name(paths[j], icon_name),
        },
    decreases paths.len(),
{
    if paths.len() > 0 {
        let init = paths.drop_last();
        law_best_icon_is_first_best_match(init, icon_name);
        let p = paths.last();
        let n = paths.len() - 1;
        assert forall|j: int| 0 <= j < n implies paths[j] == init[j] by {}
        match best_icon(init, icon_name) {
            Some(b) => {
                let k = choose|k: int|
                    0 <= k < init.len() && init[k] == b && icon_file_matches_name(b, icon_name)
                        && (forall|j: int|
                        0 <= j < init.len() && icon_file_matches_name(init[j], icon_name) ==> icon_score(
                            init[j],
                        ) <= icon_score(b)) && (forall|j: int|
                        0 <= j < k && icon_file_matches_name(init[j], icon_name) ==> icon_score(init[j])
                            < icon_score(b));
                if icon_file_matches_name(p, icon_name) && icon_score(p) > icon_score(b) {
                    assert(paths[n] == p);
                    assert forall|j: int|
                        0 <= j < paths.len() && icon_file_matches_name(paths[j], icon_name) implies icon_score(
                            paths[j],
                        ) <= icon_score(p) by {
                        if j < n {
                            assert(paths[j] == init[j]);
                        }
                    }
                    assert forall|j: int|
                        0 <= j < n && icon_file_matches_name(paths[j], icon_name) implies icon_score(
                            paths[j],
                        ) < icon_score(p) by {
                        assert(paths[j] == init[j]);
                    }
                } else {
                    assert(paths[k] == b);
                    assert forall|j: int|
                        0 <= j < paths.len() && icon_file_matches_name(paths[j], icon_name) implies icon_score(
                            paths[j],
                        ) <= icon_score(b) by {
                        if j < n {
                            assert(paths[j] == init[j]);
                        }
                    }
                    assert forall|j: int|
                        0 <= j < k && icon_file_matches_name(paths[j], icon_name) implies icon_score(
                            paths[j],
                        ) < icon_score(b) by {
                        assert(paths[j] == init[j]);
                    }
                }
            },
            None => {
                if icon_file_matches_name(p, icon_name) {
                    assert(paths[n] == p);
                    assert forall|j: int|
                        0 <= j < paths.len() && icon_file_matches_name(paths[j], icon_name) implies icon_score(
                            paths[j],
                        ) <= icon_score(p) by {
                        if j < n {
                            assert(paths[j] == init[j]);
                        }
                    }
                } else {
                    assert forall|j: int| 0 <= j < paths.len() implies !icon_file_matches_name(
                        paths[j],
                        icon_name,
                    ) by {
                        if j < n {
                            assert(paths[j] == init[j]);
                        }
                    }
                }
            },
        }
    }
}

/// No object of the document, at any depth, has a cover-art entry.
pub open spec fn free_of_artwork(d: JsonData) -> bool
    decreases d,
{
    match d {
        JsonData::Array(items) => items_free_of_artwork(items),
        JsonData::Object(es) => entries_free_of_artwork(es),
        _ => true,
    }
}

/// No item has a cover-art entry at any depth.
pub open spec fn items_free_of_artwork(s: Seq<JsonData>) -> bool
    decreases s,
{
    if s.len() == 0 {
        true
    } else {
        items_free_of_artwork(s.drop_last()) && free_of_artwork(s.last())
    }
}

/// No entry is cover art, and no value has any at any depth.
pub open spec fn entries_free_of_artwork(s: Seq<(Seq<char>, JsonData)>) -> bool
    decreases s,
{
    if s.len() == 0 {
        true
    } else {
        entries_free_of_artwork(s.drop_last()) && !is_artwork_key(s.last().0) && free_of_artwork(
            s.last().1,
        )
    }
}

proof fn lemma_items_without_artwork(s: Seq<JsonData>)
    ensures
        items_free_of_artwork(items_without_artwork(s)),
    decreases s,
{
    if s.len() > 0 {
        lemma_items_without_artwork(s.drop_last());
        law_logged_reports_hold_no_artwork(s.last());
        let r = items_without_artwork(s);
        assert(r.drop_last() =~= items_without_artwork(s.drop_last()));
    }
}

proof fn lemma_entries_without_artwork(s: Seq<(Seq<char>, JsonData)>)
    ensures
        entries_free_of_artwork(entries_without_artwork(s)),
    decreases s,
{
    if s.len() > 0 {
        lemma_entries_without_artwork(s.drop_last());
        law_logged_reports_hold_no_artwork(s.last().1);
        let prev = entries_without_artwork(s.drop_last());
        if !is_artwork_key(s.last().0) {
            let r = prev.push((s.last().0, without_artwork(s.last().1)));
            assert(r.drop_last() =~= prev);
        }
    }
}

/// A report as it is logged holds no cover art at any depth.
pub proof fn law_logged_reports_hold_no_artwork(d: JsonData)
    ensures
        free_of_artwork(without_artwork(d)),
    decreases d,
{
    match d {
        JsonData::Array(items) => lemma_items_without_artwork(items),
        JsonData::Object(es) => lemma_entries_without_artwork(es),
        _ => {},
    }
}

/// Two readings that agree on what is reported (the trimmed title, artist,
/// album, playback state and the duration when media is reported, the
/// trimmed source when the source is reported) have the same reporting
/// signature, whatever else differs: cover art, position, timestamps and
/// surrounding whitespace never change it.
pub proof fn law_signature_ignores_unreported_fields(
    m1: MediaInfo,
    m2: MediaInfo,
    include_media: bool,
    include_play_source: bool,
)
    requires
        include_media ==> {
            &&& trim(m1.title@) == trim(m2.title@)
            &&& trim(m1.artist@) == trim(m2.artist@)
            &&& trim(m1.album@) == trim(m2.album@)
            &&& trim(m1.playback_state@) == trim(m2.playback_state@)
            &&& m1.duration_ms == m2.duration_ms
        },
        include_play_source ==> trim(m1.source_app_id@) == trim(m2.source_app_id@),
    ensures
        media_signature(m1, include_media, include_play_source) == media_signature(
            m2,
            include_media,
            include_play_source,
        ),
{
}

/// Limiting a reading to what is reported keeps its reporting signature.
pub proof fn law_reporting_subset_keeps_signature(
    r: MediaInfo,
    m: MediaInfo,
    include_media: bool,
    include_play_source: bool,
)
    requires
        is_reporting_subset(r, m, include_media, include_play_source),
    ensures
        media_signature(r, include_media, include_play_source) == media_signature(
            m,
            include_media,
            include_play_source,
        ),
{
    lemma_trim_empty_iff_blank(r.title@);
    lemma_trim_empty_iff_blank(r.artist@);
    lemma_trim_empty_iff_blank(r.album@);
    lemma_trim_empty_iff_blank(r.source_app_id@);
    lemma_trim_empty_iff_blank(m.title@);
    lemma_trim_empty_iff_blank(m.artist@);
    lemma_trim_empty_iff_blank(m.album@);
    lemma_trim_empty_iff_blank(m.source_app_id@);
    if include_play_source {
        assert(trim(r.source_app_id@) =~= trim(m.source_app_id@));
    }
    if !include_media {
        law_signature_ignores_unreported_fields(r, m, include_media, include_play_source);
    }
}

/// The reading taken for cover art and the one taken for the media report
/// agree on the reporting signature when they come from the same media
/// reading: both fail with its error, or both succeed with the same
/// signature.
pub proof fn law_artwork_and_media_readings_agree(
    reading: Result<MediaInfo, String>,
    include_play_source: bool,
    media: Result<MediaInfo, String>,
    artwork: Result<MediaInfo, String>,
)
    requires
        media_for_reporting_ok(media, true, include_play_source, reading),
        match reading {
            Ok(m) => artwork is Ok && is_reporting_subset(artwork->Ok_0, m, true, include_play_source),
            Err(e) => artwork == Err::<MediaInfo, String>(e),
        },
    ensures
        media is Ok <==> artwork is Ok,
        media is Err ==> media == artwork,
        media is Ok ==> media_signature(media->Ok_0, true, include_play_source) == media_signature(
            artwork->Ok_0,
            true,
            include_play_source,
        ),
{
    if let Ok(m) = reading {
        law_reporting_subset_keeps_signature(media->Ok_0, m, true, include_play_source);
        law_reporting_subset_keeps_signature(artwork->Ok_0, m, true, include_play_source);
    }
}

/// A quick-connect input that is standard Base64 (as
/// `STANDARD.encode` writes it: its alphabet and `=` only, decoding to the
/// UTF-8 bytes of a text `s`) is read as `s`: the texts tried are the
/// input itself, which holds no `{` and so no JSON object, then `s`.  The
/// payload found is therefore the one that `s` holds as JSON.
pub proof fn law_base64_import_reads_the_text(s: Seq<char>, b: Seq<char>)
    requires
        base64_standard_decoded(b) == Some(vstd::utf8::encode_utf8(s)),
        forall|i: int| 0 <= i < b.len() ==> is_base64_standard_char(#[trigger] b[i]),
    ensures
        trim(b) == b,
        forall|i: int| 0 <= i < b.len() ==> b[i] != '{',
        import_candidate_texts(trim(b)).len() >= 2,
        import_candidate_texts(trim(b))[0] == b,
        import_candidate_texts(trim(b))[1] == s,
{
    vstd::utf8::encode_utf8_valid_utf8(s);
    vstd::utf8::encode_utf8_decode_utf8(s);
    assert(utf8_text(vstd::utf8::encode_utf8(s)) == Some(s));
    assert(decoded_text(base64_standard_decoded(b)) == seq![s]);
    if b.len() > 0 {
        assert(!crate::text::is_ws(b[0]));
        assert(!crate::text::is_ws(b.last()));
    }
    assert(crate::text::trim_start(b) == b);
}

/// A state as it is saved, read back from a file whose text parses as
/// that same state, loads as itself, in every field: no copy of the file
/// is kept aside and nothing needs saving again.  A state that had a
/// device key is saved unchanged, so it is the state that loads.
pub proof fn law_saved_state_loads_back(
    payload: AppStatePayload,
    saved: AppStatePayload,
    save_random_bytes: Seq<u8>,
    read: StateFileRead,
    loaded: Result<LoadedState, String>,
    load_random_bytes: Seq<u8>,
)
    requires
        prepared_for_save(saved, payload, save_random_bytes),
        read is Content,
        !is_blank(read->Content_0@),
        load_outcome_ok(loaded, read, Some(saved), load_random_bytes),
    ensures
        loaded is Ok,
        loaded->Ok_0.payload == saved,
        !loaded->Ok_0.needs_save,
        !loaded->Ok_0.backup_corrupt_file,
        !is_blank(payload.config.generated_hash_key@) ==> loaded->Ok_0.payload == payload,
{
}

/// Pasting the standard Base64 of a JSON object's text imports the same
/// settings as pasting the text: `parsed_text` and `parsed_base64` are the
/// parses of the candidates of each input (see
/// `law_base64_import_reads_the_text`: the Base64 input itself holds no
/// object, and its next candidate is the text, which parses as the text
/// does).
pub proof fn law_base64_import_equals_json_import(
    s: Seq<char>,
    b: Seq<char>,
    parsed_text: Seq<Option<JsonMap>>,
    parsed_base64: Seq<Option<JsonMap>>,
    from_text: Result<ImportedIntegrationConfig, String>,
    from_base64: Result<ImportedIntegrationConfig, String>,
)
    requires
        base64_standard_decoded(b) == Some(vstd::utf8::encode_utf8(s)),
        forall|i: int| 0 <= i < b.len() ==> is_base64_standard_char(#[trigger] b[i]),
        b.len() > 0,
        !is_blank(s),
        parsed_text.len() >= 1,
        parsed_text[0] is Some,
        parsed_base64.len() >= 2,
        parsed_base64[0] is None,
        parsed_base64[1] is Some && parsed_base64[1]->Some_0@ == parsed_text[0]->Some_0@,
        import_outcome_ok(from_text, s, parsed_text),
        import_outcome_ok(from_base64, b, parsed_base64),
    ensures
        from_text is Ok,
        from_base64 is Ok,
        from_base64->Ok_0.raw@ == from_text->Ok_0.raw@,
        opt_seq(from_base64->Ok_0.report_endpoint) == opt_seq(from_text->Ok_0.report_endpoint),
        opt_seq(from_base64->Ok_0.token) == opt_seq(from_text->Ok_0.token),
        opt_seq(from_base64->Ok_0.token_name) == opt_seq(from_text->Ok_0.token_name),
        from_base64->Ok_0.device_name is None && from_text->Ok_0.device_name is None,
{
    law_base64_import_reads_the_text(s, b);
    assert(!crate::text::is_ws(b[0]));
    assert(!is_blank(b));
    assert(first_object(parsed_base64.drop_first()) == Some(parsed_base64[1]->Some_0@));
    assert(first_object(parsed_base64) == first_object(parsed_text));
}

/// A device waiting for approval keeps the reporter running: after a
/// report answered "pending approval", the same run goes on, with the
/// server's message as the last error and as the pending approval, with
/// its approval page; once a later report is accepted, the error and the
/// pending approval are gone, and the run is still the same.
pub proof fn law_pending_approval_keeps_polling_until_accepted(
    s0: ReporterState,
    s1: ReporterState,
    s2: ReporterState,
    first: ForegroundSnapshot,
    second: ForegroundSnapshot,
    pending: PostOutcome,
    accepted: PostOutcome,
    first_heartbeat: bool,
    second_heartbeat: bool,
    first_millis: u128,
    second_millis: u128,
    first_sequence: u64,
    second_sequence: u64,
    first_now: String,
    second_now: String,
)
    requires
        pending is PendingApproval,
        accepted is Reported,
        post_recorded(s1, s0, first, pending, first_heartbeat, first_millis, first_sequence, first_now),
        post_recorded(s2, s1, second, accepted, second_heartbeat, second_millis, second_sequence, second_now),
    ensures
        s1.running == s0.running && s1.active_run_id == s0.active_run_id,
        s1.last_pending_approval_message == Some(pending->PendingApproval_message),
        s1.last_pending_approval_url == pending->PendingApproval_approval_url,
        s1.last_error == Some(pending->PendingApproval_message),
        s2.running == s0.running && s2.active_run_id == s0.active_run_id,
        s2.last_error is None,
        s2.last_pending_approval_message is None,
        s2.last_pending_approval_url is None,
{
}

/// An optional text as a request sends it: the text itself, or `null`.
pub open spec fn given_text(o: Option<String>) -> JsonData {
    match o {
        Some(t) => JsonData::Text(t@),
        None => JsonData::Null,
    }
}

/// An optional flag as a request sends it: the flag itself, or `null`.
pub open spec fn given_flag(o: Option<bool>) -> JsonData {
    match o {
        Some(b) => JsonData::Bool(b),
        None => JsonData::Null,
    }
}

/// A new inspiration entry sends its title and content trimmed and every
/// other field exactly as given: an attached image, the lexical content,
/// the device key and the status options are passed through, `null` only
/// when absent.
pub proof fn law_inspiration_entry_passes_fields_through(input: InspirationEntryCreateInput)
    ensures
        field(inspiration_entry_body(input), "title"@) == Some(JsonData::Text(trim(input.title@))),
        field(inspiration_entry_body(input), "content"@) == Some(JsonData::Text(trim(input.content@))),
        field(inspiration_entry_body(input), "contentLexical"@) == Some(given_text(input.content_lexical)),
        field(inspiration_entry_body(input), "imageDataUrl"@) == Some(given_text(input.image_data_url)),
        field(inspiration_entry_body(input), "generatedHashKey"@) == Some(
            given_text(input.generated_hash_key),
        ),
        field(inspiration_entry_body(input), "attachCurrentStatus"@) == Some(
            given_flag(input.attach_current_status),
        ),
        field(inspiration_entry_body(input), "preComputedStatusSnapshot"@) == Some(
            given_text(input.pre_computed_status_snapshot),
        ),
        field(inspiration_entry_body(input), "attachStatusDeviceHash"@) == Some(
            given_text(input.attach_status_device_hash),
        ),
        field(inspiration_entry_body(input), "attachStatusActivityKey"@) == Some(
            given_text(input.attach_status_activity_key),
        ),
        field(inspiration_entry_body(input), "attachStatusIncludeDeviceInfo"@) == Some(
            given_flag(input.attach_status_include_device_info),
        ),
{
    let es = inspiration_entry_body(input)->Object_0;
    reveal_strlit("title");
    reveal_strlit("content");
    reveal_strlit("contentLexical");
    reveal_strlit("imageDataUrl");
    reveal_strlit("generatedHashKey");
    reveal_strlit("attachCurrentStatus");
    reveal_strlit("preComputedStatusSnapshot");
    reveal_strlit("attachStatusDeviceHash");
    reveal_strlit("attachStatusActivityKey");
    reveal_strlit("attachStatusIncludeDeviceInfo");
    assert(es.len() == 10);
    assert forall|j: int| 0 <= j < 10 implies (#[trigger] es[j]).0.len() == seq![
        5int,
        7,
        14,
        12,
        16,
        19,
        25,
        22,
        23,
        29,
    ][j] by {}
    lemma_obj_get_only(es, 0, "title"@);
    lemma_obj_get_only(es, 1, "content"@);
    lemma_obj_get_only(es, 2, "contentLexical"@);
    lemma_obj_get_only(es, 3, "imageDataUrl"@);
    lemma_obj_get_only(es, 4, "generatedHashKey"@);
    lemma_obj_get_only(es, 5, "attachCurrentStatus"@);
    lemma_obj_get_only(es, 6, "preComputedStatusSnapshot"@);
    lemma_obj_get_only(es, 7, "attachStatusDeviceHash"@);
    lemma_obj_get_only(es, 8, "attachStatusActivityKey"@);
    lemma_obj_get_only(es, 9, "attachStatusIncludeDeviceInfo"@);
}

/// An optional text as a report sends it: trimmed, or `null` when absent
/// or blank.
pub open spec fn trimmed_or_null(o: Option<String>) -> JsonData {
    match o {
        Some(t) => if is_blank(t@) {
            JsonData::Null
        } else {
            JsonData::Text(trim(t@))
        },
        None => JsonData::Null,
    }
}

/// An optional whole number as a request sends it, or `null`.
pub open spec fn given_number(o: Option<i64>) -> JsonData {
    match o {
        Some(n) => if n >= 0 {
            JsonData::PosInt(n as u64)
        } else {
            JsonData::NegInt(n)
        },
        None => JsonData::Null,
    }
}

/// A manual activity report sends what the user gave: the window title,
/// device type and push mode trimmed (`null` only when missing or blank),
/// the process name trimmed, the numbers and the charging flag as given,
/// the payload's device key (else the configured one) trimmed, and the
/// device and metadata it was built with.  The device is the payload's
/// when it names one, else the configured one, else the machine's.
pub proof fn law_activity_report_sends_what_was_given(
    config: ClientConfig,
    payload: ActivityPayload,
    device: Seq<char>,
    metadata: JsonData,
    host_name: Seq<char>,
)
    ensures
        field(activity_report_body(config, payload, device, metadata), "process_title"@) == Some(
            trimmed_or_null(payload.process_title),
        ),
        field(activity_report_body(config, payload, device, metadata), "process_name"@) == Some(
            JsonData::Text(trim(payload.process_name@)),
        ),
        field(activity_report_body(config, payload, device, metadata), "generatedHashKey"@) == Some(
            JsonData::Text(
                if is_blank(payload.generated_hash_key@) {
                    trim(config.generated_hash_key@)
                } else {
                    trim(payload.generated_hash_key@)
                },
            ),
        ),
        field(activity_report_body(config, payload, device, metadata), "device"@) == Some(
            JsonData::Text(device),
        ),
        field(activity_report_body(config, payload, device, metadata), "persist_minutes"@) == Some(
            given_number(payload.persist_minutes),
        ),
        field(activity_report_body(config, payload, device, metadata), "battery_level"@) == Some(
            given_number(payload.battery_level),
        ),
        field(activity_report_body(config, payload, device, metadata), "is_charging"@) == Some(
            given_flag(payload.is_charging),
        ),
        field(activity_report_body(config, payload, device, metadata), "device_type"@) == Some(
            trimmed_or_null(payload.device_type),
        ),
        field(activity_report_body(config, payload, device, metadata), "push_mode"@) == Some(
            trimmed_or_null(payload.push_mode),
        ),
        field(activity_report_body(config, payload, device, metadata), "metadata"@) == Some(metadata),
        report_device(payload, config, host_name) == match payload.device {
            Some(d) if !is_blank(d@) => trim(d@),
            _ => if is_blank(config.device@) {
                host_name
            } else {
                trim(config.device@)
            },
        },
{
    let es = activity_report_body(config, payload, device, metadata)->Object_0;
    reveal_strlit("generatedHashKey");
    reveal_strlit("process_name");
    reveal_strlit("device");
    reveal_strlit("process_title");
    reveal_strlit("persist_minutes");
    reveal_strlit("battery_level");
    reveal_strlit("is_charging");
    reveal_strlit("device_type");
    reveal_strlit("push_mode");
    reveal_strlit("metadata");
    assert(es.len() == 10);
    assert forall|j: int| 0 <= j < 10 implies (#[trigger] es[j]).0.len() == seq![
        16int,
        12,
        6,
        13,
        15,
        13,
        11,
        11,
        9,
        8,
    ][j] && es[j].0[0] == seq!['g', 'p', 'd', 'p', 'p', 'b', 'i', 'd', 'p', 'm'][j] by {}
    lemma_obj_get_only(es, 0, "generatedHashKey"@);
    lemma_obj_get_only(es, 1, "process_name"@);
    lemma_obj_get_only(es, 2, "device"@);
    lemma_obj_get_only(es, 3, "process_title"@);
    lemma_obj_get_only(es, 4, "persist_minutes"@);
    lemma_obj_get_only(es, 5, "battery_level"@);
    lemma_obj_get_only(es, 6, "is_charging"@);
    lemma_obj_get_only(es, 7, "device_type"@);
    lemma_obj_get_only(es, 8, "push_mode"@);
    lemma_obj_get_only(es, 9, "metadata"@);
}

/// Each media-session state is reported by its own word: a playing
/// session as `playing`, a paused one as `paused`, a stopped one as
/// `stopped`, and any other state as nothing.
pub proof fn law_playback_status_words(status: SessionPlaybackStatus)
    ensures
        (status_name(status) == "playing"@) <==> (status == SessionPlaybackStatus::Playing),
        (status_name(status) == "paused"@) <==> (status == SessionPlaybackStatus::Paused),
        (status_name(status) == "stopped"@) <==> (status == SessionPlaybackStatus::Stopped),
        (status_name(status).len() == 0) <==> (status == SessionPlaybackStatus::Closed || status
            == SessionPlaybackStatus::Opened || status == SessionPlaybackStatus::Changing),
{
    reveal_strlit("playing");
    reveal_strlit("paused");
    reveal_strlit("stopped");
    assert("playing"@[0] != "stopped"@[0]);
    assert("playing"@.len() != "paused"@.len());
    assert("stopped"@.len() != "paused"@.len());
}

/// Two readings whose activity signatures are equal differ in nothing that
/// is reported: with the same foreground window, a change of reported
/// media (a new song) changes the signature, so it is reported at once;
/// likewise a new window title with the same application and media, or a
/// new application with the same title and media.
pub proof fn law_activity_signature_tells_readings_apart(
    s1: ForegroundSnapshot,
    s2: ForegroundSnapshot,
    m1: MediaInfo,
    m2: MediaInfo,
    config: ClientConfig,
)
    ensures
        s1.process_name@ == s2.process_name@ && s1.process_title@ == s2.process_title@ ==> (
        (activity_signature_spec(s1, m1, config) == activity_signature_spec(s2, m2, config)) <==> (
        media_signature(m1, config.report_media, config.report_play_source) == media_signature(
            m2,
            config.report_media,
            config.report_play_source,
        ))),
        s1.process_name@ == s2.process_name@ && media_signature(
            m1,
            config.report_media,
            config.report_play_source,
        ) == media_signature(m2, config.report_media, config.report_play_source) ==> (
        (activity_signature_spec(s1, m1, config) == activity_signature_spec(s2, m2, config)) <==> (
        s1.process_title@ == s2.process_title@)),
        s1.process_title@ == s2.process_title@ && media_signature(
            m1,
            config.report_media,
            config.report_play_source,
        ) == media_signature(m2, config.report_media, config.report_play_source) ==> (
        (activity_signature_spec(s1, m1, config) == activity_signature_spec(s2, m2, config)) <==> (
        s1.process_name@ == s2.process_name@)),
{
    let sep = seq!['\u{1e}'];
    let n1 = s1.process_name@;
    let n2 = s2.process_name@;
    let t1 = s1.process_title@;
    let t2 = s2.process_title@;
    let g1 = media_signature(m1, config.report_media, config.report_play_source);
    let g2 = media_signature(m2, config.report_media, config.report_play_source);
    let a = activity_signature_spec(s1, m1, config);
    let b = activity_signature_spec(s2, m2, config);
    assert(a == n1 + sep + t1 + sep + g1);
    assert(b == n2 + sep + t2 + sep + g2);
    if a == b {
        if n1 == n2 && t1 == t2 {
            let p: int = n1.len() + t1.len() + 2int;
            assert(a.subrange(p, a.len() as int) =~= g1);
            assert(b.subrange(p, b.len() as int) =~= g2);
        }
        if n1 == n2 && g1 == g2 {
            assert(t1.len() == t2.len());
            let p: int = n1.len() + 1int;
            assert(a.subrange(p, p + t1.len() as int) =~= t1);
            assert(b.subrange(p, p + t2.len() as int) =~= t2);
        }
        if t1 == t2 && g1 == g2 {
            assert(n1.len() == n2.len());
            assert(a.subrange(0, n1.len() as int) =~= n1);
            assert(b.subrange(0, n2.len() as int) =~= n2);
        }
    }
    if n1 == n2 && t1 == t2 && g1 == g2 {
        assert(a =~= b);
    }
}

/// A whole number that is reported when it is at least `min`.
pub open spec fn number_from(o: Option<i64>, min: i64) -> Option<JsonData> {
    match o {
        Some(n) => if n >= min {
            Some(JsonData::PosInt(n as u64))
        } else {
            None
        },
        None => None,
    }
}

/// A text that is reported trimmed when it is not blank.
pub open spec fn text_unless_blank(t: Seq<char>) -> Option<JsonData> {
    if is_blank(t) {
        None
    } else {
        Some(JsonData::Text(trim(t)))
    }
}

proof fn lemma_obj_get_push_if_all()
    ensures
        forall|es: Seq<(Seq<char>, JsonData)>, c: bool, k: Seq<char>, v: JsonData, k2: Seq<char>|
            #[trigger] obj_get(push_if(es, c, k, v), k2) == if c && k == k2 {
                Some(v)
            } else {
                obj_get(es, k2)
            },
{
    assert forall|es: Seq<(Seq<char>, JsonData)>, c: bool, k: Seq<char>, v: JsonData, k2: Seq<char>|
        #[trigger] obj_get(push_if(es, c, k, v), k2) == if c && k == k2 {
            Some(v)
        } else {
            obj_get(es, k2)
        } by {
        lemma_obj_get_push(es, (k, v), k2);
    }
}

proof fn lemma_media_entry_title(m: MediaInfo)
    ensures
        obj_get(media_metadata_entries(m), "title"@) == text_unless_blank(m.title@),
{
    lemma_obj_get_push_if_all();
    reveal_strlit("title");
    reveal_strlit("artist");
    assert("title"@.len() != "artist"@.len());
    reveal_strlit("singer");
    assert("title"@.len() != "singer"@.len());
    reveal_strlit("album");
    assert("title"@[0] != "album"@[0]);
    reveal_strlit("coverDataUrl");
    assert("title"@.len() != "coverDataUrl"@.len());
    reveal_strlit("status");
    assert("title"@.len() != "status"@.len());
    reveal_strlit("positionMs");
    assert("title"@.len() != "positionMs"@.len());
    reveal_strlit("durationMs");
    assert("title"@.len() != "durationMs"@.len());
    reveal_strlit("reportedAt");
    assert("title"@.len() != "reportedAt"@.len());
    reveal_strlit("timestamps");
    assert("title"@.len() != "timestamps"@.len());
    assert(obj_get(Seq::<(Seq<char>, JsonData)>::empty(), "title"@) is None);
}

proof fn lemma_media_entry_artist(m: MediaInfo)
    ensures
        obj_get(media_metadata_entries(m), "artist"@) == text_unless_blank(m.artist@),
{
    lemma_obj_get_push_if_all();
    reveal_strlit("artist");
    reveal_strlit("title");
    assert("artist"@.len() != "title"@.len());
    reveal_strlit("singer");
    assert("artist"@[0] != "singer"@[0]);
    reveal_strlit("album");
    assert("artist"@.len() != "album"@.len());
    reveal_strlit("coverDataUrl");
    assert("artist"@.len() != "coverDataUrl"@.len());
    reveal_strlit("status");
    assert("artist"@[0] != "status"@[0]);
    reveal_strlit("positionMs");
    assert("artist"@.len() != "positionMs"@.len());
    reveal_strlit("durationMs");
    assert("artist"@.len() != "durationMs"@.len());
    reveal_strlit("reportedAt");
    assert("artist"@.len() != "reportedAt"@.len());
    reveal_strlit("timestamps");
    assert("artist"@.len() != "timestamps"@.len());
    assert(obj_get(Seq::<(Seq<char>, JsonData)>::empty(), "artist"@) is None);
}

proof fn lemma_media_entry_singer(m: MediaInfo)
    ensures
        obj_get(media_metadata_entries(m), "singer"@) == text_unless_blank(m.artist@),
{
    lemma_obj_get_push_if_all();
    reveal_strlit("singer");
    reveal_strlit("title");
    assert("singer"@.len() != "title"@.len());
    reveal_strlit("artist");
    assert("singer"@[0] != "artist"@[0]);
    reveal_strlit("album");
    assert("singer"@.len() != "album"@.len());
    reveal_strlit("coverDataUrl");
    assert("singer"@.len() != "coverDataUrl"@.len());
    reveal_strlit("status");
    assert("singer"@[1] != "status"@[1]);
    reveal_strlit("positionMs");
    assert("singer"@.len() != "positionMs"@.len());
    reveal_strlit("durationMs");
    assert("singer"@.len() != "durationMs"@.len());
    reveal_strlit("reportedAt");
    assert("singer"@.len() != "reportedAt"@.len());
    reveal_strlit("timestamps");
    assert("singer"@.len() != "timestamps"@.len());
    assert(obj_get(Seq::<(Seq<char>, JsonData)>::empty(), "singer"@) is None);
}

proof fn lemma_media_entry_album(m: MediaInfo)
    ensures
        obj_get(media_metadata_entries(m), "album"@) == text_unless_blank(m.album@),
{
    lemma_obj_get_push_if_all();
    reveal_strlit("album");
    reveal_strlit("title");
    assert("album"@[0] != "title"@[0]);
    reveal_strlit("artist");
    assert("album"@.len() != "artist"@.len());
    reveal_strlit("singer");
    assert("album"@.len() != "singer"@.len());
    reveal_strlit("coverDataUrl");
    assert("album"@.len() != "coverDataUrl"@.len());
    reveal_strlit("status");
    assert("album"@.len() != "status"@.len());
    reveal_strlit("positionMs");
    assert("album"@.len() != "positionMs"@.len());
    reveal_strlit("durationMs");
    assert("album"@.len() != "durationMs"@.len());
    reveal_strlit("reportedAt");
    assert("album"@.len() != "reportedAt"@.len());
    reveal_strlit("timestamps");
    assert("album"@.len() != "timestamps"@.len());
    assert(obj_get(Seq::<(Seq<char>, JsonData)>::empty(), "album"@) is None);
}

proof fn lemma_media_entry_cover_data_url(m: MediaInfo)
    ensures
        obj_get(media_metadata_entries(m), "coverDataUrl"@) == text_unless_blank(m.cover_url@),
{
    lemma_obj_get_push_if_all();
    reveal_strlit("coverDataUrl");
    reveal_strlit("title");
    assert("coverDataUrl"@.len() != "title"@.len());
    reveal_strlit("artist");
    assert("coverDataUrl"@.len() != "artist"@.len());
    reveal_strlit("singer");
    assert("coverDataUrl"@.len() != "singer"@.len());
    reveal_strlit("album");
    assert("coverDataUrl"@.len() != "album"@.len());
    reveal_strlit("status");
    assert("coverDataUrl"@.len() != "status"@.len());
    reveal_strlit("positionMs");
    assert("coverDataUrl"@.len() != "positionMs"@.len());
    reveal_strlit("durationMs");
    assert("coverDataUrl"@.len() != "durationMs"@.len());
    reveal_strlit("reportedAt");
    assert("coverDataUrl"@.len() != "reportedAt"@.len());
    reveal_strlit("timestamps");
    assert("coverDataUrl"@.len() != "timestamps"@.len());
    assert(obj_get(Seq::<(Seq<char>, JsonData)>::empty(), "coverDataUrl"@) is None);
}

proof fn lemma_media_entry_status(m: MediaInfo)
    requires
        !media_empty(m),
    ensures
        obj_get(media_metadata_entries(m), "status"@) == Some(
            JsonData::Text(
                if is_blank(m.playback_state@) {
                    "playing"@
                } else {
                    trim(m.playback_state@)
                },
            ),
        ),
{
    lemma_obj_get_push_if_all();
    reveal_strlit("status");
    reveal_strlit("title");
    assert("status"@.len() != "title"@.len());
    reveal_strlit("artist");
    assert("status"@[0] != "artist"@[0]);
    reveal_strlit("singer");
    assert("status"@[1] != "singer"@[1]);
    reveal_strlit("album");
    assert("status"@.len() != "album"@.len());
    reveal_strlit("coverDataUrl");
    assert("status"@.len() != "coverDataUrl"@.len());
    reveal_strlit("positionMs");
    assert("status"@.len() != "positionMs"@.len());
    reveal_strlit("durationMs");
    assert("status"@.len() != "durationMs"@.len());
    reveal_strlit("reportedAt");
    assert("status"@.len() != "reportedAt"@.len());
    reveal_strlit("timestamps");
    assert("status"@.len() != "timestamps"@.len());
    assert(obj_get(Seq::<(Seq<char>, JsonData)>::empty(), "status"@) is None);
    reveal_strlit("playing");
    lemma_trim_empty_iff_blank(m.playback_state@);
}

proof fn lemma_media_entry_position_ms(m: MediaInfo)
    ensures
        obj_get(media_metadata_entries(m), "positionMs"@) == number_from(m.position_ms, 0),
{
    lemma_obj_get_push_if_all();
    reveal_strlit("positionMs");
    reveal_strlit("title");
    assert("positionMs"@.len() != "title"@.len());
    reveal_strlit("artist");
    assert("positionMs"@.len() != "artist"@.len());
    reveal_strlit("singer");
    assert("positionMs"@.len() != "singer"@.len());
    reveal_strlit("album");
    assert("positionMs"@.len() != "album"@.len());
    reveal_strlit("coverDataUrl");
    assert("positionMs"@.len() != "coverDataUrl"@.len());
    reveal_strlit("status");
    assert("positionMs"@.len() != "status"@.len());
    reveal_strlit("durationMs");
    assert("positionMs"@[0] != "durationMs"@[0]);
    reveal_strlit("reportedAt");
    assert("positionMs"@[0] != "reportedAt"@[0]);
    reveal_strlit("timestamps");
    assert("positionMs"@[0] != "timestamps"@[0]);
    assert(obj_get(Seq::<(Seq<char>, JsonData)>::empty(), "positionMs"@) is None);
}

proof fn lemma_media_entry_duration_ms(m: MediaInfo)
    ensures
        obj_get(media_metadata_entries(m), "durationMs"@) == number_from(m.duration_ms, 0),
{
    lemma_obj_get_push_if_all();
    reveal_strlit("durationMs");
    reveal_strlit("title");
    assert("durationMs"@.len() != "title"@.len());
    reveal_strlit("artist");
    assert("durationMs"@.len() != "artist"@.len());
    reveal_strlit("singer");
    assert("durationMs"@.len() != "singer"@.len());
    reveal_strlit("album");
    assert("durationMs"@.len() != "album"@.len());
    reveal_strlit("coverDataUrl");
    assert("durationMs"@.len() != "coverDataUrl"@.len());
    reveal_strlit("status");
    assert("durationMs"@.len() != "status"@.len());
    reveal_strlit("positionMs");
    assert("durationMs"@[0] != "positionMs"@[0]);
    reveal_strlit("reportedAt");
    assert("durationMs"@[0] != "reportedAt"@[0]);
    reveal_strlit("timestamps");
    assert("durationMs"@[0] != "timestamps"@[0]);
    assert(obj_get(Seq::<(Seq<char>, JsonData)>::empty(), "durationMs"@) is None);
}

proof fn lemma_media_entry_reported_at(m: MediaInfo)
    ensures
        obj_get(media_metadata_entries(m), "reportedAt"@) == number_from(m.reported_at_ms, 1),
{
    lemma_obj_get_push_if_all();
    reveal_strlit("reportedAt");
    reveal_strlit("title");
    assert("reportedAt"@.len() != "title"@.len());
    reveal_strlit("artist");
    assert("reportedAt"@.len() != "artist"@.len());
    reveal_strlit("singer");
    assert("reportedAt"@.len() != "singer"@.len());
    reveal_strlit("album");
    assert("reportedAt"@.len() != "album"@.len());
    reveal_strlit("coverDataUrl");
    assert("reportedAt"@.len() != "coverDataUrl"@.len());
    reveal_strlit("status");
    assert("reportedAt"@.len() != "status"@.len());
    reveal_strlit("positionMs");
    assert("reportedAt"@[0] != "positionMs"@[0]);
    reveal_strlit("durationMs");
    assert("reportedAt"@[0] != "durationMs"@[0]);
    reveal_strlit("timestamps");
    assert("reportedAt"@[0] != "timestamps"@[0]);
    assert(obj_get(Seq::<(Seq<char>, JsonData)>::empty(), "reportedAt"@) is None);
}

proof fn lemma_media_entry_timestamps(m: MediaInfo)
    ensures
        (obj_get(media_metadata_entries(m), "timestamps"@) is Some) <==> (number_from(
            m.start_timestamp_ms,
            1,
        ) is Some || number_from(m.end_timestamp_ms, 1) is Some),
        obj_get(media_metadata_entries(m), "timestamps"@) is Some ==> {
            let ts = obj_get(media_metadata_entries(m), "timestamps"@)->Some_0;
            &&& ts is Object
            &&& obj_get(ts->Object_0, "start"@) == number_from(m.start_timestamp_ms, 1)
            &&& obj_get(ts->Object_0, "end"@) == number_from(m.end_timestamp_ms, 1)
        },
{
    lemma_obj_get_push_if_all();
    reveal_strlit("timestamps");
    reveal_strlit("title");
    assert("timestamps"@.len() != "title"@.len());
    reveal_strlit("artist");
    assert("timestamps"@.len() != "artist"@.len());
    reveal_strlit("singer");
    assert("timestamps"@.len() != "singer"@.len());
    reveal_strlit("album");
    assert("timestamps"@.len() != "album"@.len());
    reveal_strlit("coverDataUrl");
    assert("timestamps"@.len() != "coverDataUrl"@.len());
    reveal_strlit("status");
    assert("timestamps"@.len() != "status"@.len());
    reveal_strlit("positionMs");
    assert("timestamps"@[0] != "positionMs"@[0]);
    reveal_strlit("durationMs");
    assert("timestamps"@[0] != "durationMs"@[0]);
    reveal_strlit("reportedAt");
    assert("timestamps"@[0] != "reportedAt"@[0]);
    assert(obj_get(Seq::<(Seq<char>, JsonData)>::empty(), "timestamps"@) is None);
    reveal_strlit("start");
    reveal_strlit("end");
    assert("start"@.len() != "end"@.len());
    assert(obj_get(Seq::<(Seq<char>, JsonData)>::empty(), "start"@) is None);
    assert(obj_get(Seq::<(Seq<char>, JsonData)>::empty(), "end"@) is None);
    let ts = media_timestamps_entries(m);
    if number_from(m.start_timestamp_ms, 1) is Some || number_from(m.end_timestamp_ms, 1) is Some {
        assert(ts.len() > 0);
    } else {
        assert(ts.len() == 0);
    }
}

proof fn lemma_media_entry_other(m: MediaInfo, k: Seq<char>)
    requires
        k != "title"@,
        k != "artist"@,
        k != "singer"@,
        k != "album"@,
        k != "coverDataUrl"@,
        k != "status"@,
        k != "positionMs"@,
        k != "durationMs"@,
        k != "reportedAt"@,
        k != "timestamps"@,
    ensures
        obj_get(media_metadata_entries(m), k) is None,
{
    lemma_obj_get_push_if_all();
    assert(obj_get(Seq::<(Seq<char>, JsonData)>::empty(), k) is None);
}

/// The media part of a report carries every field that is known, and
/// nothing else: title, album and cover trimmed, the artist (also as the
/// singer), the playback state (`playing` when none is given), the
/// position and the song's length when not negative, the reading time
/// and the start and end timestamps when positive.
pub proof fn law_media_metadata_reports_each_field(m: MediaInfo, k: Seq<char>)
    requires
        !media_empty(m),
    ensures
        obj_get(media_metadata_entries(m), "title"@) == text_unless_blank(m.title@),
        obj_get(media_metadata_entries(m), "artist"@) == text_unless_blank(m.artist@),
        obj_get(media_metadata_entries(m), "singer"@) == text_unless_blank(m.artist@),
        obj_get(media_metadata_entries(m), "album"@) == text_unless_blank(m.album@),
        obj_get(media_metadata_entries(m), "coverDataUrl"@) == text_unless_blank(m.cover_url@),
        obj_get(media_metadata_entries(m), "status"@) == Some(
            JsonData::Text(
                if is_blank(m.playback_state@) {
                    "playing"@
                } else {
                    trim(m.playback_state@)
                },
            ),
        ),
        obj_get(media_metadata_entries(m), "positionMs"@) == number_from(m.position_ms, 0),
        obj_get(media_metadata_entries(m), "durationMs"@) == number_from(m.duration_ms, 0),
        obj_get(media_metadata_entries(m), "reportedAt"@) == number_from(m.reported_at_ms, 1),
        (obj_get(media_metadata_entries(m), "timestamps"@) is Some) <==> (number_from(
            m.start_timestamp_ms,
            1,
        ) is Some || number_from(m.end_timestamp_ms, 1) is Some),
        obj_get(media_metadata_entries(m), "timestamps"@) is Some ==> {
            let ts = obj_get(media_metadata_entries(m), "timestamps"@)->Some_0;
            &&& ts is Object
            &&& obj_get(ts->Object_0, "start"@) == number_from(m.start_timestamp_ms, 1)
            &&& obj_get(ts->Object_0, "end"@) == number_from(m.end_timestamp_ms, 1)
        },
        k != "title"@ && k != "artist"@ && k != "singer"@ && k != "album"@ && k != "coverDataUrl"@
            && k != "status"@ && k != "positionMs"@ && k != "durationMs"@ && k != "reportedAt"@
            && k != "timestamps"@ ==> obj_get(media_metadata_entries(m), k) is None,
{
    lemma_media_entry_title(m);
    lemma_media_entry_artist(m);
    lemma_media_entry_singer(m);
    lemma_media_entry_album(m);
    lemma_media_entry_cover_data_url(m);
    lemma_media_entry_status(m);
    lemma_media_entry_position_ms(m);
    lemma_media_entry_duration_ms(m);
    lemma_media_entry_reported_at(m);
    lemma_media_entry_timestamps(m);
    if k != "title"@ && k != "artist"@ && k != "singer"@ && k != "album"@ && k != "coverDataUrl"@
        && k != "status"@ && k != "positionMs"@ && k != "durationMs"@ && k != "reportedAt"@
        && k != "timestamps"@ {
        lemma_media_entry_other(m, k);
    }
}

/// A connectivity probe sends the configured device key and device type
/// trimmed and the device it was built with; an image upload sends the
/// image as given and the configured device key trimmed.
pub proof fn law_probe_and_upload_send_what_was_given(
    config: ClientConfig,
    device: Seq<char>,
    image_data_url: Seq<char>,
)
    ensures
        field(connectivity_probe_body(config, device), "generatedHashKey"@) == Some(
            JsonData::Text(trim(config.generated_hash_key@)),
        ),
        field(connectivity_probe_body(config, device), "device"@) == Some(JsonData::Text(device)),
        field(connectivity_probe_body(config, device), "deviceType"@) == Some(
            JsonData::Text(trim(config.device_type@)),
        ),
        field(inspiration_asset_body(config, image_data_url), "imageDataUrl"@) == Some(
            JsonData::Text(image_data_url),
        ),
        field(inspiration_asset_body(config, image_data_url), "generatedHashKey"@) == Some(
            JsonData::Text(trim(config.generated_hash_key@)),
        ),
{
    reveal_strlit("generatedHashKey");
    reveal_strlit("device");
    reveal_strlit("deviceType");
    reveal_strlit("imageDataUrl");
    let p = connectivity_probe_body(config, device)->Object_0;
    assert(p.len() == 3);
    assert forall|j: int| 0 <= j < 3 implies (#[trigger] p[j]).0.len() == seq![16int, 6, 10][j] by {}
    lemma_obj_get_only(p, 0, "generatedHashKey"@);
    lemma_obj_get_only(p, 1, "device"@);
    lemma_obj_get_only(p, 2, "deviceType"@);
    let a = inspiration_asset_body(config, image_data_url)->Object_0;
    assert(a.len() == 2);
    assert forall|j: int| 0 <= j < 2 implies (#[trigger] a[j]).0.len() == seq![12int, 16][j] by {}
    lemma_obj_get_only(a, 0, "imageDataUrl"@);
    lemma_obj_get_only(a, 1, "generatedHashKey"@);
}

} // verus!
