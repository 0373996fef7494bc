//! The background reporter: its shared state, the texts it logs, and the
//! decisions of its polling loop.  The thread that runs the loop, and the
//! reads and requests it makes, live with the caller; each step of the
//! loop is a function here from what was read to what to do next.
use vstd::prelude::*;

pub mod logging;
pub mod messages;
pub mod payload;
pub mod worker;

use crate::json::{opt_data, JsonData, JsonMap, JsonValue};
use crate::locale::BackendLocale;
use crate::models::{
    ApiResult, ClientConfig, StartCheck, RealtimeReporterSnapshot, ReporterActivity, ReporterLogEntry,
};
use crate::platform::{media_is_default, media_signature, ForegroundSnapshot, MediaInfo};
use crate::text::{decimal, is_blank, is_blank_str, opt_seq, push_char, u128_to_decimal, u64_to_decimal};
use logging::{
    localized_text, log_text_spec, pending_approval_detail, pending_detail_is, reporter_log_text,
    LogTextSpec, ReporterLogText,
};

verus! {

/// The most log lines kept.
pub const MAX_LOGS: usize = 120;

/// The longest wait after repeated errors, in milliseconds.
pub const MAX_ERROR_BACKOFF_MS: u64 = 30000;

/// The shortest poll interval, in milliseconds.
pub const MIN_POLL_INTERVAL_MS: u64 = 1000;

/// The shortest interval between two media readings, in milliseconds.
pub const MIN_MEDIA_POLL_INTERVAL_MS: u64 = 5000;

/// Whether the reporter could start with these settings.
pub fn config_is_ready(config: &ClientConfig) -> (b: bool)
    ensures
        b == (payload::reporter_config_problem(*config) is None),
{
    payload::config_is_ready(config)
}

/// Whether the saved settings start the reporter when the app launches:
/// reporting is switched on and the settings are complete.
pub fn starts_at_launch(config: &ClientConfig) -> (b: bool)
    ensures
        b == (config.reporter_enabled && payload::reporter_config_problem(*config) is None),
{
    config.reporter_enabled && config_is_ready(config)
}

/// Two log lines hold the same texts and values.
pub open spec fn same_log_entry(a: ReporterLogEntry, b: ReporterLogEntry) -> bool {
    &&& a.id@ == b.id@
    &&& a.timestamp@ == b.timestamp@
    &&& a.level@ == b.level@
    &&& a.title@ == b.title@
    &&& a.detail@ == b.detail@
    &&& opt_seq(a.title_key) == opt_seq(b.title_key)
    &&& opt_data(a.title_params) == opt_data(b.title_params)
    &&& opt_seq(a.detail_key) == opt_seq(b.detail_key)
    &&& opt_data(a.detail_params) == opt_data(b.detail_params)
    &&& opt_data(a.payload) == opt_data(b.payload)
}

fn copy_opt_value(v: &Option<JsonValue>) -> (r: Option<JsonValue>)
    ensures
        opt_data(r) == opt_data(*v),
{
    match v {
        Some(x) => Some(x.duplicate()),
        None => None,
    }
}

/// A copy of a log line.
pub fn copy_log_entry(e: &ReporterLogEntry) -> (r: ReporterLogEntry)
    ensures
        same_log_entry(r, *e),
{
    ReporterLogEntry {
        id: e.id.clone(),
        timestamp: e.timestamp.clone(),
        level: e.level.clone(),
        title: e.title.clone(),
        detail: e.detail.clone(),
        title_key: e.title_key.clone(),
        title_params: copy_opt_value(&e.title_params),
        detail_key: e.detail_key.clone(),
        detail_params: copy_opt_value(&e.detail_params),
        payload: copy_opt_value(&e.payload),
    }
}

/// The identifier of a log line: the time in milliseconds and a sequence
/// number, joined by `-`.
pub open spec fn log_id(millis: u128, sequence: u64) -> Seq<char> {
    decimal(millis as nat) + "-"@ + decimal(sequence as nat)
}

/// The key of a log text as an owned string.
pub open spec fn key_view(k: Option<&'static str>) -> Option<Seq<char>> {
    match k {
        Some(s) => Some(s@),
        None => None,
    }
}

/// A log line at `level` with a title, a detail and an optional payload.
pub fn make_log_entry(
    millis: u128,
    sequence: u64,
    timestamp: String,
    level: &str,
    title: LogTextSpec,
    detail: LogTextSpec,
    payload: Option<JsonValue>,
) -> (r: ReporterLogEntry)
    ensures
        r.id@ == log_id(millis, sequence),
        r.timestamp == timestamp,
        r.level@ == level@,
        r.title == title.fallback,
        r.detail == detail.fallback,
        opt_seq(r.title_key) == key_view(title.key),
        r.title_params == title.params,
        opt_seq(r.detail_key) == key_view(detail.key),
        r.detail_params == detail.params,
        r.payload == payload,
{
    let mut id = u128_to_decimal(millis);
    push_char(&mut id, '-');
    let seq_text = u64_to_decimal(sequence);
    id.append(seq_text.as_str());
    proof {
        reveal_strlit("-");
        assert(id@ =~= log_id(millis, sequence));
    }
    let LogTextSpec { key: title_key, params: title_params, fallback: title_text } = title;
    let LogTextSpec { key: detail_key, params: detail_params, fallback: detail_text } = detail;
    ReporterLogEntry {
        id,
        timestamp,
        level: level.to_owned(),
        title: title_text,
        detail: detail_text,
        title_key: match title_key {
            Some(k) => Some(k.to_owned()),
            None => None,
        },
        title_params,
        detail_key: match detail_key {
            Some(k) => Some(k.to_owned()),
            None => None,
        },
        detail_params,
        payload,
    }
}

/// The reporter's state that the user interface reads.
#[derive(Debug)]
pub struct ReporterState {
    pub running: bool,
    pub active_run_id: Option<u64>,
    pub logs: Vec<ReporterLogEntry>,
    pub current_activity: Option<ReporterActivity>,
    pub last_heartbeat_at: Option<String>,
    pub last_error: Option<String>,
    pub last_pending_approval_message: Option<String>,
    pub last_pending_approval_url: Option<String>,
}

/// A snapshot shows the state as it is.
pub open spec fn snapshot_of(r: RealtimeReporterSnapshot, s: ReporterState) -> bool {
    &&& r.running == s.running
    &&& r.logs@.len() == s.logs@.len()
    &&& forall|i: int| 0 <= i < s.logs@.len() ==> same_log_entry(#[trigger] r.logs@[i], s.logs@[i])
    &&& r.current_activity == s.current_activity
    &&& r.last_heartbeat_at == s.last_heartbeat_at
    &&& r.last_error == s.last_error
    &&& r.last_pending_approval_message == s.last_pending_approval_message
    &&& r.last_pending_approval_url == s.last_pending_approval_url
}

/// `new` holds `entry` first, then the lines of `old`, at most `MAX_LOGS`
/// in all.
pub open spec fn logs_after_push(
    new: Seq<ReporterLogEntry>,
    old: Seq<ReporterLogEntry>,
    entry: ReporterLogEntry,
) -> bool {
    &&& new.len() == if old.len() + 1 > MAX_LOGS {
        MAX_LOGS as int
    } else {
        old.len() + 1 as int
    }
    &&& new[0] == entry
    &&& forall|i: int| 1 <= i < new.len() ==> #[trigger] new[i] == old[i - 1]
}

/// What became of a report, as the state and the log take it.
#[derive(Debug)]
pub enum PostOutcome {
    /// Accepted: the cover URL the server stored, the detail to log and
    /// the server's answer.
    Reported { media_cover_url: Option<String>, detail: LogTextSpec, response: Option<JsonValue> },
    /// The device waits for approval: the server's message, the approval
    /// page and its answer.
    PendingApproval { message: String, approval_url: Option<String>, response: Option<JsonValue> },
    /// The report failed with this error.
    Failed(String),
}

/// The entry's title is the log text `text`.
pub open spec fn title_is(e: ReporterLogEntry, text: ReporterLogText) -> bool {
    &&& opt_seq(e.title_key) == Some(log_text_spec(text).0)
    &&& e.title_params is None
    &&& e.title@ == log_text_spec(text).1
}

/// The state after recording the answer to a report sent for `snapshot`:
/// a log line first (id from `millis` and `sequence`, time `now`), the
/// activity with `now` as its time, and then by the answer:
/// - accepted: a `success` line (a heartbeat's or a report's title, the
///   given detail and the server's answer), the stored cover URL, no error
///   and no pending approval, `now` as the last heartbeat;
/// - pending approval: a `warn` line with the message and the approval
///   page, the message as the last error and as the pending approval with
///   its page, the last heartbeat unchanged;
/// - failed: an `error` line with the error, the error as the last error,
///   the pending approval and the last heartbeat unchanged.
/// The run goes on: whether it runs, and which run, is unchanged.
pub open spec fn post_recorded(
    new: ReporterState,
    old: ReporterState,
    snapshot: ForegroundSnapshot,
    outcome: PostOutcome,
    is_heartbeat: bool,
    millis: u128,
    sequence: u64,
    now: String,
) -> bool {
    let e = new.logs@[0];
    &&& logs_after_push(new.logs@, old.logs@, e)
    &&& e.id@ == log_id(millis, sequence)
    &&& e.timestamp == now
    &&& new.running == old.running
    &&& new.active_run_id == old.active_run_id
    &&& new.current_activity == Some(
        ReporterActivity {
            process_name: snapshot.process_name,
            process_title: Some(snapshot.process_title),
            updated_at: Some(now),
            media_cover_url: match outcome {
                PostOutcome::Reported { media_cover_url, .. } => media_cover_url,
                _ => None,
            },
        },
    )
    &&& match outcome {
        PostOutcome::Reported { media_cover_url, detail, response } => {
            &&& e.level@ == "success"@
            &&& title_is(
                e,
                if is_heartbeat {
                    ReporterLogText::ActivityHeartbeatTitle
                } else {
                    ReporterLogText::ActivityReportedTitle
                },
            )
            &&& e.detail == detail.fallback
            &&& opt_seq(e.detail_key) == key_view(detail.key)
            &&& e.detail_params == detail.params
            &&& e.payload == response
            &&& new.last_error is None
            &&& new.last_pending_approval_message is None
            &&& new.last_pending_approval_url is None
            &&& new.last_heartbeat_at == Some(now)
        },
        PostOutcome::PendingApproval { message, approval_url, response } => {
            &&& e.level@ == "warn"@
            &&& title_is(e, ReporterLogText::PendingApprovalTitle)
            &&& pending_detail_is(
                opt_seq(e.detail_key),
                opt_data(e.detail_params),
                e.detail@,
                message@,
                opt_seq(approval_url),
            )
            &&& e.payload == response
            &&& new.last_error == Some(message)
            &&& new.last_pending_approval_message == Some(message)
            &&& new.last_pending_approval_url == approval_url
            &&& new.last_heartbeat_at == old.last_heartbeat_at
        },
        PostOutcome::Failed(error) => {
            &&& e.level@ == "error"@
            &&& title_is(e, ReporterLogText::ReportFailedTitle)
            &&& e.detail == error
            &&& e.detail_key is None
            &&& e.detail_params is None
            &&& e.payload is None
            &&& new.last_error == Some(error)
            &&& new.last_pending_approval_message == old.last_pending_approval_message
            &&& new.last_pending_approval_url == old.last_pending_approval_url
            &&& new.last_heartbeat_at == old.last_heartbeat_at
        },
    }
}

fn copy_opt_string(s: &Option<String>) -> (r: Option<String>)
    ensures
        r == *s,
{
    match s {
        Some(x) => Some(x.clone()),
        None => None,
    }
}

fn copy_activity(a: &Option<ReporterActivity>) -> (r: Option<ReporterActivity>)
    ensures
        r == *a,
{
    match a {
        Some(x) => Some(
            ReporterActivity {
                process_name: x.process_name.clone(),
                process_title: copy_opt_string(&x.process_title),
                updated_at: copy_opt_string(&x.updated_at),
                media_cover_url: copy_opt_string(&x.media_cover_url),
            },
        ),
        None => None,
    }
}

impl ReporterState {
    /// A reporter that has never run.
    pub fn new() -> (r: Self)
        ensures
            !r.running,
            r.active_run_id is None,
            r.logs@.len() == 0,
            r.current_activity is None,
            r.last_heartbeat_at is None,
            r.last_error is None,
            r.last_pending_approval_message is None,
            r.last_pending_approval_url is None,
    {
        ReporterState {
            running: false,
            active_run_id: None,
            logs: Vec::new(),
            current_activity: None,
            last_heartbeat_at: None,
            last_error: None,
            last_pending_approval_message: None,
            last_pending_approval_url: None,
        }
    }

    /// What the user interface shows of this state.
    pub fn snapshot(&self) -> (r: RealtimeReporterSnapshot)
        ensures
            snapshot_of(r, *self),
    {
        let mut logs: Vec<ReporterLogEntry> = Vec::new();
        let mut i: usize = 0;
        while i < self.logs.len()
            invariant
                i <= self.logs.len(),
                logs@.len() == i,
                forall|j: int| 0 <= j < i ==> same_log_entry(#[trigger] logs@[j], self.logs@[j]),
            decreases self.logs.len() - i,
        {
            logs.push(copy_log_entry(&self.logs[i]));
            i = i + 1;
        }
        RealtimeReporterSnapshot {
            running: self.running,
            logs,
            current_activity: copy_activity(&self.current_activity),
            last_heartbeat_at: copy_opt_string(&self.last_heartbeat_at),
            last_error: copy_opt_string(&self.last_error),
            last_pending_approval_message: copy_opt_string(&self.last_pending_approval_message),
            last_pending_approval_url: copy_opt_string(&self.last_pending_approval_url),
        }
    }

    /// What a request to start the reporter with `config` comes to:
    /// refused with the message of the first missing setting, whether or
    /// not a run is going on; else answered as it is while a run is going
    /// on; else a new run may begin.  The state is only read.
    pub fn check_start(&self, config: &ClientConfig, locale: BackendLocale) -> (r: StartCheck)
        ensures
            r is Refused <==> payload::reporter_config_problem(*config) is Some,
            r is Refused ==> r->Refused_0@ == payload::reporter_problem_message(
                locale,
                payload::reporter_config_problem(*config).unwrap(),
            ),
            r is AlreadyRunning <==> (payload::reporter_config_problem(*config) is None
                && self.running),
            r is Ready <==> (payload::reporter_config_problem(*config) is None && !self.running),
    {
        match payload::validate_reporter_config(config, locale) {
            Err(message) => StartCheck::Refused(message),
            Ok(()) => if self.running {
                StartCheck::AlreadyRunning
            } else {
                StartCheck::Ready
            },
        }
    }

    /// Marks run `run_id` as started, unless a run is going on: then the
    /// state stays as it is and the answer is `false`.  A new run clears the
    /// last error and the pending approval.
    pub fn begin_run(&mut self, run_id: u64) -> (started: bool)
        ensures
            started == !old(self).running,
            !started ==> *final(self) == *old(self),
            started ==> {
                &&& final(self).running
                &&& final(self).active_run_id == Some(run_id)
                &&& final(self).last_error is None
                &&& final(self).last_pending_approval_message is None
                &&& final(self).last_pending_approval_url is None
                &&& final(self).logs == old(self).logs
                &&& final(self).current_activity == old(self).current_activity
                &&& final(self).last_heartbeat_at == old(self).last_heartbeat_at
            },
    {
        if self.running {
            return false;
        }
        self.running = true;
        self.active_run_id = Some(run_id);
        self.last_error = None;
        self.last_pending_approval_message = None;
        self.last_pending_approval_url = None;
        true
    }

    /// Starts run `run_id` and logs that it started (an `info` line with
    /// id from `millis` and `sequence`, time `now`), unless a run is going
    /// on: then nothing changes and the answer is `false`.  A new run
    /// clears the last error and the pending approval.
    pub fn start_run(&mut self, run_id: u64, millis: u128, sequence: u64, now: String) -> (started: bool)
        ensures
            started == !old(self).running,
            !started ==> *final(self) == *old(self),
            started ==> {
                let e = final(self).logs@[0];
                &&& final(self).running
                &&& final(self).active_run_id == Some(run_id)
                &&& final(self).last_error is None
                &&& final(self).last_pending_approval_message is None
                &&& final(self).last_pending_approval_url is None
                &&& final(self).current_activity == old(self).current_activity
                &&& final(self).last_heartbeat_at == old(self).last_heartbeat_at
                &&& logs_after_push(final(self).logs@, old(self).logs@, e)
                &&& e.id@ == log_id(millis, sequence)
                &&& e.timestamp == now
                &&& e.level@ == "info"@
                &&& title_is(e, ReporterLogText::StartedTitle)
                &&& opt_seq(e.detail_key) == Some(log_text_spec(ReporterLogText::StartedDetail).0)
                &&& e.detail_params is None
                &&& e.detail@ == log_text_spec(ReporterLogText::StartedDetail).1
                &&& e.payload is None
            },
    {
        if !self.begin_run(run_id) {
            return false;
        }
        let entry = make_log_entry(
            millis,
            sequence,
            now,
            "info",
            reporter_log_text(ReporterLogText::StartedTitle),
            reporter_log_text(ReporterLogText::StartedDetail),
            None,
        );
        self.push_log(entry);
        true
    }

    /// Marks the reporter as stopped by the user.
    pub fn end_run(&mut self)
        ensures
            !final(self).running,
            final(self).active_run_id is None,
            final(self).logs == old(self).logs,
            final(self).current_activity == old(self).current_activity,
            final(self).last_heartbeat_at == old(self).last_heartbeat_at,
            final(self).last_error == old(self).last_error,
            final(self).last_pending_approval_message == old(self).last_pending_approval_message,
            final(self).last_pending_approval_url == old(self).last_pending_approval_url,
    {
        self.running = false;
        self.active_run_id = None;
    }

    /// Adds a log line at the top, keeping at most `MAX_LOGS` lines.
    pub fn push_log(&mut self, entry: ReporterLogEntry)
        ensures
            logs_after_push(final(self).logs@, old(self).logs@, entry),
            final(self).running == old(self).running,
            final(self).active_run_id == old(self).active_run_id,
            final(self).current_activity == old(self).current_activity,
            final(self).last_heartbeat_at == old(self).last_heartbeat_at,
            final(self).last_error == old(self).last_error,
            final(self).last_pending_approval_message == old(self).last_pending_approval_message,
            final(self).last_pending_approval_url == old(self).last_pending_approval_url,
    {
        let ghost old_logs = self.logs@;
        self.logs.insert(0, entry);
        if self.logs.len() > MAX_LOGS {
            self.logs.truncate(MAX_LOGS);
        }
        assert forall|i: int| 1 <= i < self.logs@.len() implies #[trigger] self.logs@[i]
            == old_logs[i - 1] by {}
    }

    /// The worker of run `run_id` has ended, with `error` if it failed.
    /// The state changes only while that run is the active one.
    pub fn mark_stopped(&mut self, error: Option<String>, run_id: u64)
        ensures
            old(self).active_run_id != Some(run_id) ==> *final(self) == *old(self),
            old(self).active_run_id == Some(run_id) ==> {
                &&& !final(self).running
                &&& final(self).active_run_id is None
                &&& final(self).last_error == if error is Some {
                    error
                } else {
                    old(self).last_error
                }
                &&& final(self).logs == old(self).logs
                &&& final(self).current_activity == old(self).current_activity
                &&& final(self).last_heartbeat_at == old(self).last_heartbeat_at
                &&& final(self).last_pending_approval_message
                    == old(self).last_pending_approval_message
                &&& final(self).last_pending_approval_url == old(self).last_pending_approval_url
            },
    {
        let is_active = match self.active_run_id {
            Some(active) => active == run_id,
            None => false,
        };
        if !is_active {
            return;
        }
        self.running = false;
        self.active_run_id = None;
        if error.is_some() {
            self.last_error = error;
        }
    }

    /// Records the activity just sent or attempted: the foreground reading,
    /// `updated_at` as its time, and the server's cover URL.  An error is
    /// kept as the last error; without one, the last error and any pending
    /// approval are cleared.  A heartbeat time, when given, is kept.
    pub fn update_activity(
        &mut self,
        snapshot: &ForegroundSnapshot,
        last_error: Option<String>,
        last_heartbeat_at: Option<String>,
        media_cover_url: Option<String>,
        updated_at: String,
    )
        ensures
            final(self).current_activity == Some(
                ReporterActivity {
                    process_name: snapshot.process_name,
                    process_title: Some(snapshot.process_title),
                    updated_at: Some(updated_at),
                    media_cover_url,
                },
            ),
            last_error is Some ==> {
                &&& final(self).last_error == last_error
                &&& final(self).last_pending_approval_message
                    == old(self).last_pending_approval_message
                &&& final(self).last_pending_approval_url == old(self).last_pending_approval_url
            },
            last_error is None ==> {
                &&& final(self).last_error is None
                &&& final(self).last_pending_approval_message is None
                &&& final(self).last_pending_approval_url is None
            },
            final(self).last_heartbeat_at == if last_heartbeat_at is Some {
                last_heartbeat_at
            } else {
                old(self).last_heartbeat_at
            },
            final(self).running == old(self).running,
            final(self).active_run_id == old(self).active_run_id,
            final(self).logs == old(self).logs,
    {
        self.current_activity = Some(
            ReporterActivity {
                process_name: snapshot.process_name.clone(),
                process_title: Some(snapshot.process_title.clone()),
                updated_at: Some(updated_at),
                media_cover_url,
            },
        );
        if last_error.is_some() {
            self.last_error = last_error;
        } else {
            self.last_error = None;
            self.last_pending_approval_message = None;
            self.last_pending_approval_url = None;
        }
        if last_heartbeat_at.is_some() {
            self.last_heartbeat_at = last_heartbeat_at;
        }
    }

    /// Records the answer to a report sent for `snapshot`: a log line and
    /// the new activity and status (see `post_recorded`).  The answer is
    /// whether the turn counts as failed: every answer but an accepted
    /// report.
    pub fn record_post_outcome(
        &mut self,
        snapshot: &ForegroundSnapshot,
        outcome: PostOutcome,
        is_heartbeat: bool,
        millis: u128,
        sequence: u64,
        now: String,
    ) -> (had_error: bool)
        ensures
            post_recorded(*final(self), *old(self), *snapshot, outcome, is_heartbeat, millis, sequence, now),
            had_error == !(outcome is Reported),
    {
        match outcome {
            PostOutcome::Reported { media_cover_url, detail, response } => {
                let title = reporter_log_text(
                    if is_heartbeat {
                        ReporterLogText::ActivityHeartbeatTitle
                    } else {
                        ReporterLogText::ActivityReportedTitle
                    },
                );
                let entry = make_log_entry(millis, sequence, now.clone(), "success", title, detail, response);
                self.push_log(entry);
                self.update_activity(snapshot, None, Some(now.clone()), media_cover_url, now);
                false
            },
            PostOutcome::PendingApproval { message, approval_url, response } => {
                let title = reporter_log_text(ReporterLogText::PendingApprovalTitle);
                let detail = pending_approval_detail(&message, &approval_url);
                let entry = make_log_entry(millis, sequence, now.clone(), "warn", title, detail, response);
                self.push_log(entry);
                self.set_pending_approval(Some(message.clone()), approval_url);
                self.update_activity(snapshot, Some(message), None, None, now);
                true
            },
            PostOutcome::Failed(error) => {
                let title = reporter_log_text(ReporterLogText::ReportFailedTitle);
                let entry = make_log_entry(
                    millis,
                    sequence,
                    now.clone(),
                    "error",
                    title,
                    logging::fallback_text(error.clone()),
                    None,
                );
                self.push_log(entry);
                self.update_activity(snapshot, Some(error), None, None, now);
                true
            },
        }
    }

    /// Sets the last error.
    pub fn set_last_error(&mut self, error: Option<String>)
        ensures
            *final(self) == (ReporterState { last_error: error, ..*old(self) }),
    {
        self.last_error = error;
    }

    /// Sets the pending approval message and URL.
    pub fn set_pending_approval(&mut self, message: Option<String>, approval_url: Option<String>)
        ensures
            *final(self) == (ReporterState {
                last_pending_approval_message: message,
                last_pending_approval_url: approval_url,
                ..*old(self)
            }),
    {
        self.last_pending_approval_message = message;
        self.last_pending_approval_url = approval_url;
    }
}

/// The answer to the user interface's request for the reporter's state.
pub fn snapshot_result(state: &ReporterState) -> (r: ApiResult<RealtimeReporterSnapshot>)
    ensures
        r.success,
        r.status == 200,
        r.error is None,
        r.data is Some && snapshot_of(r.data.unwrap(), *state),
{
    ApiResult::success(200, state.snapshot())
}

} // verus!
