//! Discord presence sync: its shared state and the decisions of its loop.
//!
//! Every sync interval the loop reads the site's public activity feed,
//! picks the activity tagged with this device's source, and shows it in
//! Discord (or clears the presence when there is none).  The caller does
//! the requests, the IPC calls and the sleeps; the functions here decide.
use vstd::prelude::*;

pub mod feed;
pub mod messages;
pub mod presence;

use vstd::arithmetic::power2::{lemma_pow2_pos, lemma_pow2_strictly_increases, lemma_pow2_unfold, pow2};

use crate::locale::{pick, BackendLocale};
use crate::models::{ClientConfig, DiscordPresenceSnapshot, StartCheck};
use crate::text::{is_blank, is_blank_str};
use feed::{select_dc_source_activity, PublicActivityFeed, PublicActivityItem, item_matches};
use messages::{
    discord_config_app_id_missing, discord_config_base_url_missing,
    discord_config_source_id_missing, discord_ipc_unavailable,
};
use presence::{map_activity_to_presence, DiscordPresencePayload};

verus! {

/// The time between two syncs, in milliseconds.
pub const SYNC_INTERVAL_MS: u64 = 15000;

/// The longest wait after repeated errors, in milliseconds.
pub const MAX_ERROR_BACKOFF_MS: u64 = 60000;

/// The first setting the Discord sync cannot start without.
#[derive(Clone, Copy, Debug, PartialEq, Eq, Structural)]
pub enum MissingDiscordSetting {
    BaseUrl,
    ApplicationId,
    SourceId,
}

/// Which required setting is blank first: site URL, application ID, then
/// source ID.
pub open spec fn discord_config_problem(config: ClientConfig) -> Option<MissingDiscordSetting> {
    if is_blank(config.base_url@) {
        Some(MissingDiscordSetting::BaseUrl)
    } else if is_blank(config.discord_application_id@) {
        Some(MissingDiscordSetting::ApplicationId)
    } else if is_blank(config.discord_source_id@) {
        Some(MissingDiscordSetting::SourceId)
    } else {
        None
    }
}

/// The message for a missing setting.
pub open spec fn discord_problem_message(
    locale: BackendLocale,
    problem: MissingDiscordSetting,
) -> Seq<char> {
    match problem {
        MissingDiscordSetting::BaseUrl => pick(
            locale,
            "缺少站点地址，无法启动 Discord 同步。"@,
            "Site URL is required before Discord sync can start."@,
        ),
        MissingDiscordSetting::ApplicationId => pick(
            locale,
            "缺少 Discord Application ID，无法启动 Discord 同步。"@,
            "Discord Application ID is required before Discord sync can start."@,
        ),
        MissingDiscordSetting::SourceId => pick(
            locale,
            "缺少 Discord 来源标识，无法启动 Discord 同步。"@,
            "Discord source ID is required before Discord sync can start."@,
        ),
    }
}

/// Checks that the settings the Discord sync needs are present.
pub fn validate_discord_presence_config(config: &ClientConfig, locale: BackendLocale) -> (r:
    Result<(), String>)
    ensures
        r is Ok <==> discord_config_problem(*config) is None,
        r is Err ==> r->Err_0@ == discord_problem_message(
            locale,
            discord_config_problem(*config).unwrap(),
        ),
{
    if is_blank_str(config.base_url.as_str()) {
        return Err(discord_config_base_url_missing(locale));
    }
    if is_blank_str(config.discord_application_id.as_str()) {
        return Err(discord_config_app_id_missing(locale));
    }
    if is_blank_str(config.discord_source_id.as_str()) {
        return Err(discord_config_source_id_missing(locale));
    }
    Ok(())
}

/// Whether the Discord sync could start with these settings.
pub fn config_is_ready(config: &ClientConfig) -> (b: bool)
    ensures
        b == (discord_config_problem(*config) is None),
{
    validate_discord_presence_config(config, BackendLocale::ZhCn).is_ok()
}

/// The wait after `consecutive_errors` failed syncs in a row: the sync
/// interval doubled for each error after the first, at most
/// `MAX_ERROR_BACKOFF_MS`.
pub open spec fn sync_backoff_ms(consecutive_errors: u32) -> int {
    let exponent: nat = if consecutive_errors <= 1 {
        0
    } else {
        (consecutive_errors - 1) as nat
    };
    let product = SYNC_INTERVAL_MS * pow2(exponent);
    if product > MAX_ERROR_BACKOFF_MS {
        MAX_ERROR_BACKOFF_MS as int
    } else {
        product
    }
}

/// The wait after `consecutive_errors` failed syncs in a row, in
/// milliseconds.
pub fn error_backoff(consecutive_errors: u32) -> (r: u64)
    ensures
        r == sync_backoff_ms(consecutive_errors),
{
    let exponent = consecutive_errors.saturating_sub(1);
    let ghost e: nat = exponent as nat;
    let mut m: u64 = SYNC_INTERVAL_MS;
    let mut i: u32 = 0;
    proof {
        lemma_pow2_pos(0);
        assert(pow2(0) == 1) by {
            vstd::arithmetic::power2::lemma2_to64();
        }
    }
    while i < exponent && m <= MAX_ERROR_BACKOFF_MS
        invariant
            i <= exponent,
            e == exponent,
            m == SYNC_INTERVAL_MS * pow2(i as nat),
            m <= 2 * MAX_ERROR_BACKOFF_MS,
        decreases exponent - i,
    {
        proof {
            lemma_pow2_unfold((i + 1) as nat);
        }
        m = m * 2;
        i = i + 1;
    }
    proof {
        if i < exponent {
            lemma_pow2_strictly_increases(i as nat, e);
        }
    }
    if m > MAX_ERROR_BACKOFF_MS {
        MAX_ERROR_BACKOFF_MS
    } else {
        m
    }
}

/// The state the user interface sees of the Discord sync.
#[derive(Debug)]
pub struct DiscordPresenceState {
    pub running: bool,
    pub active_run_id: Option<u64>,
    pub connected: bool,
    pub last_sync_at: Option<String>,
    pub last_error: Option<String>,
    pub current_summary: Option<String>,
}

/// A snapshot shows the state as it is.
pub open spec fn discord_snapshot_of(r: DiscordPresenceSnapshot, s: DiscordPresenceState) -> bool {
    &&& r.running == s.running
    &&& r.connected == s.connected
    &&& r.last_sync_at == s.last_sync_at
    &&& r.last_error == s.last_error
    &&& r.current_summary == s.current_summary
}

fn copy_opt_string(s: &Option<String>) -> (r: Option<String>)
    ensures
        r == *s,
{
    match s {
        Some(x) => Some(x.clone()),
        None => None,
    }
}

/// Whether `run_id` is the active run of a state.
pub open spec fn is_active_run(active_run_id: Option<u64>, run_id: u64) -> bool {
    active_run_id == Some(run_id)
}

/// The state after a sync of run `run_id` at `synced_at`: the new
/// connection, error and summary, when that run is the active one.
pub open spec fn after_presence_update(
    s: DiscordPresenceState,
    connected: bool,
    last_error: Option<String>,
    current_summary: Option<String>,
    run_id: u64,
    synced_at: String,
) -> DiscordPresenceState {
    if is_active_run(s.active_run_id, run_id) {
        DiscordPresenceState { connected, last_error, last_sync_at: Some(synced_at), current_summary, ..s }
    } else {
        s
    }
}

/// The state after an error of run `run_id`, when that run is active.
pub open spec fn after_error(
    s: DiscordPresenceState,
    error: Option<String>,
    connected: bool,
    run_id: u64,
) -> DiscordPresenceState {
    if is_active_run(s.active_run_id, run_id) {
        DiscordPresenceState { connected, last_error: error, ..s }
    } else {
        s
    }
}

/// The state after an error of run `run_id` that leaves the connection
/// as it is, when that run is active.
pub open spec fn after_error_keeping_connection(
    s: DiscordPresenceState,
    error: Option<String>,
    run_id: u64,
) -> DiscordPresenceState {
    if is_active_run(s.active_run_id, run_id) {
        DiscordPresenceState { last_error: error, ..s }
    } else {
        s
    }
}

/// The state after the worker of run `run_id` ended, when that run is
/// active.
pub open spec fn after_stopped(s: DiscordPresenceState, run_id: u64) -> DiscordPresenceState {
    if is_active_run(s.active_run_id, run_id) {
        DiscordPresenceState { running: false, connected: false, active_run_id: None, ..s }
    } else {
        s
    }
}

/// The state after a request to start run `run_id`: unchanged while a
/// run is going on.
pub open spec fn after_begin(s: DiscordPresenceState, run_id: u64) -> DiscordPresenceState {
    if s.running {
        s
    } else {
        DiscordPresenceState {
            running: true,
            active_run_id: Some(run_id),
            connected: false,
            last_error: None,
            ..s
        }
    }
}

impl DiscordPresenceState {
    /// A sync that has never run.
    pub fn new() -> (r: Self)
        ensures
            !r.running,
            r.active_run_id is None,
            !r.connected,
            r.last_sync_at is None,
            r.last_error is None,
            r.current_summary is None,
    {
        DiscordPresenceState {
            running: false,
            active_run_id: None,
            connected: false,
            last_sync_at: None,
            last_error: None,
            current_summary: None,
        }
    }

    /// What the user interface shows of this state.
    pub fn snapshot(&self) -> (r: DiscordPresenceSnapshot)
        ensures
            discord_snapshot_of(r, *self),
    {
        DiscordPresenceSnapshot {
            running: self.running,
            connected: self.connected,
            last_sync_at: copy_opt_string(&self.last_sync_at),
            last_error: copy_opt_string(&self.last_error),
            current_summary: copy_opt_string(&self.current_summary),
        }
    }

    fn is_active(&self, run_id: u64) -> (b: bool)
        ensures
            b == is_active_run(self.active_run_id, run_id),
    {
        match self.active_run_id {
            Some(active) => active == run_id,
            None => false,
        }
    }

    /// What a request to start the sync with `config` comes to: refused
    /// with the message of the first missing setting, whether or not a run
    /// is going on; else answered as it is while a run is going on; else a
    /// new run may begin.  The state is only read.
    pub fn check_start(&self, config: &ClientConfig, locale: BackendLocale) -> (r: StartCheck)
        ensures
            r is Refused <==> discord_config_problem(*config) is Some,
            r is Refused ==> r->Refused_0@ == discord_problem_message(
                locale,
                discord_config_problem(*config).unwrap(),
            ),
            r is AlreadyRunning <==> (discord_config_problem(*config) is None && self.running),
            r is Ready <==> (discord_config_problem(*config) is None && !self.running),
    {
        match validate_discord_presence_config(config, locale) {
            Err(message) => StartCheck::Refused(message),
            Ok(()) => if self.running {
                StartCheck::AlreadyRunning
            } else {
                StartCheck::Ready
            },
        }
    }

    /// Marks run `run_id` as started, unless a run is going on: then the
    /// state stays as it is and the answer is `false`.  A new run starts
    /// disconnected and without an error.
    pub fn begin_run(&mut self, run_id: u64) -> (started: bool)
        ensures
            started == !old(self).running,
            *final(self) == after_begin(*old(self), run_id),
    {
        if self.running {
            return false;
        }
        self.running = true;
        self.active_run_id = Some(run_id);
        self.connected = false;
        self.last_error = None;
        true
    }

    /// Marks the sync as stopped by the user.
    pub fn end_run(&mut self)
        ensures
            *final(self) == (DiscordPresenceState {
                running: false,
                active_run_id: None,
                connected: false,
                ..*old(self)
            }),
    {
        self.running = false;
        self.active_run_id = None;
        self.connected = false;
    }

    /// Records a sync of run `run_id` at `synced_at`: the connection, the
    /// error and the summary shown.  Ignored unless that run is active.
    pub fn update_presence(
        &mut self,
        connected: bool,
        last_error: Option<String>,
        current_summary: Option<String>,
        run_id: u64,
        synced_at: String,
    )
        ensures
            *final(self) == after_presence_update(
                *old(self),
                connected,
                last_error,
                current_summary,
                run_id,
                synced_at,
            ),
    {
        if !self.is_active(run_id) {
            return;
        }
        self.connected = connected;
        self.last_error = last_error;
        self.last_sync_at = Some(synced_at);
        self.current_summary = current_summary;
    }

    /// Records an error of run `run_id` and whether Discord is still
    /// connected.  Ignored unless that run is active.
    pub fn set_error(&mut self, error: Option<String>, connected: bool, run_id: u64)
        ensures
            *final(self) == after_error(*old(self), error, connected, run_id),
    {
        if !self.is_active(run_id) {
            return;
        }
        self.connected = connected;
        self.last_error = error;
    }

    /// Records an error of run `run_id`, keeping the connection state.
    /// Ignored unless that run is active.
    pub fn set_error_preserving_connection(&mut self, error: Option<String>, run_id: u64)
        ensures
            *final(self) == after_error_keeping_connection(*old(self), error, run_id),
    {
        if !self.is_active(run_id) {
            return;
        }
        self.last_error = error;
    }

    /// The worker of run `run_id` has ended.  Ignored unless that run is
    /// active.
    pub fn mark_stopped(&mut self, run_id: u64)
        ensures
            *final(self) == after_stopped(*old(self), run_id),
    {
        if !self.is_active(run_id) {
            return;
        }
        self.running = false;
        self.connected = false;
        self.active_run_id = None;
    }
}

/// What one sync should do with Discord.
#[derive(Debug)]
pub enum SyncAction {
    /// Show this presence.
    Apply(DiscordPresencePayload),
    /// Clear the presence: no activity comes from this device.
    Clear,
}

/// What one sync shows, given the feed just read: the presence of the
/// first activity from `target_dc_source`, or nothing.
pub fn plan_sync(feed: &PublicActivityFeed, target_dc_source: &str) -> (r: SyncAction)
    ensures
        r is Clear <==> (is_blank(target_dc_source@) || forall|j: int|
            0 <= j < feed.active_statuses@.len() ==> !item_matches(
                feed.active_statuses@,
                j,
                target_dc_source@,
            )),
        r is Apply ==> exists|i: int|
            0 <= i < feed.active_statuses@.len() && item_matches(
                feed.active_statuses@,
                i,
                target_dc_source@,
            ) && (forall|j: int|
                0 <= j < i ==> !item_matches(feed.active_statuses@, j, target_dc_source@))
                && r->Apply_0.details@ == presence::presence_details(feed.active_statuses@[i])
                && r->Apply_0.summary@ == presence::presence_summary(feed.active_statuses@[i])
                && crate::text::opt_seq(r->Apply_0.state) == presence::presence_state(
                feed.active_statuses@[i],
            ) && r->Apply_0.started_at_millis == presence::item_started_at_millis(
                feed.active_statuses@[i],
            ),
{
    match select_dc_source_activity(&feed.active_statuses, target_dc_source) {
        Some(activity) => SyncAction::Apply(map_activity_to_presence(activity)),
        None => SyncAction::Clear,
    }
}

/// The error count a sync loop carries between turns.
#[derive(Debug)]
pub struct DiscordLoop {
    pub consecutive_errors: u32,
}

impl DiscordLoop {
    /// A loop that has not failed yet.
    pub fn new() -> (r: Self)
        ensures
            r.consecutive_errors == 0,
    {
        DiscordLoop { consecutive_errors: 0 }
    }

    /// A sync succeeded: the error count resets and the next sync comes
    /// after the sync interval.
    pub fn record_success(&mut self) -> (sleep_ms: u64)
        ensures
            final(self).consecutive_errors == 0,
            sleep_ms == SYNC_INTERVAL_MS,
    {
        self.consecutive_errors = 0;
        SYNC_INTERVAL_MS
    }

    /// A sync failed: the error count grows (saturating) and the next try
    /// waits for the backoff of the new count.
    pub fn record_failure(&mut self) -> (sleep_ms: u64)
        ensures
            final(self).consecutive_errors == if old(self).consecutive_errors == u32::MAX {
                u32::MAX
            } else {
                (old(self).consecutive_errors + 1) as u32
            },
            sleep_ms == sync_backoff_ms(final(self).consecutive_errors),
    {
        self.consecutive_errors = self.consecutive_errors.saturating_add(1);
        error_backoff(self.consecutive_errors)
    }
}

/// The most times one Discord request is tried.
pub const MAX_IPC_ATTEMPTS: u32 = 2;

/// What to do next with the Discord connection.
#[derive(Debug)]
pub enum IpcStep {
    /// Open a new connection.
    Connect,
    /// Run the request on the open connection.
    Run,
    /// Stop, with this outcome.
    Finish(Result<(), String>),
}

/// What happened at the last step.
#[derive(Debug)]
pub enum IpcEvent {
    /// A new connection is open.
    Connected,
    /// Opening a connection failed, with this message.
    ConnectFailed(String),
    /// The request succeeded.
    Succeeded,
    /// The request failed; the connection is dropped.
    Failed,
}

/// One Discord request: it is tried at most `MAX_IPC_ATTEMPTS` times, a
/// new connection being opened before each try that has none; a failed
/// connection ends it at once.
#[derive(Debug)]
pub struct IpcSession {
    pub attempts: u32,
    pub has_client: bool,
}

impl IpcSession {
    /// A request on a connection that is open or not.
    pub fn start(has_client: bool) -> (r: (Self, IpcStep))
        ensures
            r.0.attempts == 0,
            r.0.has_client == has_client,
            has_client ==> r.1 is Run,
            !has_client ==> r.1 is Connect,
    {
        let step = if has_client {
            IpcStep::Run
        } else {
            IpcStep::Connect
        };
        (IpcSession { attempts: 0, has_client }, step)
    }

    /// The next step after `event`.
    pub fn step(&mut self, event: IpcEvent, locale: BackendLocale) -> (next: IpcStep)
        requires
            old(self).attempts < MAX_IPC_ATTEMPTS,
        ensures
            final(self).attempts <= MAX_IPC_ATTEMPTS,
            match event {
                IpcEvent::Connected => next is Run && final(self).has_client
                    && final(self).attempts == old(self).attempts,
                IpcEvent::ConnectFailed(e) => next == IpcStep::Finish(Err(e)),
                IpcEvent::Succeeded => next == IpcStep::Finish(Ok(())),
                IpcEvent::Failed => !final(self).has_client && final(self).attempts
                    == old(self).attempts + 1 && (if final(self).attempts < MAX_IPC_ATTEMPTS {
                    next is Connect
                } else {
                    next is Finish && next->Finish_0 is Err && next->Finish_0->Err_0@ == pick(
                        locale,
                        "Discord IPC 不可用，请确认桌面端 Discord 已运行。"@,
                        "Discord IPC is unavailable. Make sure Discord Desktop is running."@,
                    )
                }),
            },
    {
        match event {
            IpcEvent::Connected => {
                self.has_client = true;
                IpcStep::Run
            },
            IpcEvent::ConnectFailed(e) => IpcStep::Finish(Err(e)),
            IpcEvent::Succeeded => IpcStep::Finish(Ok(())),
            IpcEvent::Failed => {
                self.has_client = false;
                self.attempts = self.attempts + 1;
                if self.attempts < MAX_IPC_ATTEMPTS {
                    IpcStep::Connect
                } else {
                    IpcStep::Finish(Err(discord_ipc_unavailable(locale)))
                }
            },
        }
    }
}

} // verus!
