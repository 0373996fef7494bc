//! The data the client stores, sends and shows, with their defaults.
use vstd::prelude::*;

use crate::json::{JsonData, JsonValue};
use crate::text::{is_blank, is_blank_str, opt_seq, trim, trim_str};

verus! {

/// What a request to start a background worker comes to, before anything
/// is changed.
#[derive(Debug)]
pub enum StartCheck {
    /// The settings are incomplete: the start is refused with this message.
    Refused(String),
    /// A run is going on already: the state is answered as it is.
    AlreadyRunning,
    /// A new run may begin.
    Ready,
}

/// The device name used when the machine's host name is unavailable.
pub open spec fn fallback_device_name() -> Seq<char> {
    "Waken-Wa Client"@
}

/// The device name the client falls back to for a host name reading:
/// the trimmed host name when it is not blank, else `"Waken-Wa Client"`.
pub open spec fn device_name_for_host(host: Option<Seq<char>>) -> Seq<char> {
    match host {
        Some(h) => if is_blank(h) {
            fallback_device_name()
        } else {
            trim(h)
        },
        None => fallback_device_name(),
    }
}

/// Reads the machine's host name (`hostname::get`), if it is valid Unicode.
///
/// Nothing is stated of the result: it is whatever the operating system
/// reports.
#[verifier::external_body]
fn read_host_name() -> (r: Option<String>) {
    hostname::get().ok().and_then(|value| value.into_string().ok())
}

/// The device name derived from a host name reading.
pub fn device_name_from_host(host: Option<String>) -> (r: String)
    ensures
        r@ == device_name_for_host(opt_seq(host)),
{
    match host {
        Some(h) => {
            if is_blank_str(h.as_str()) {
                "Waken-Wa Client".to_owned()
            } else {
                trim_str(h.as_str())
            }
        },
        None => "Waken-Wa Client".to_owned(),
    }
}

/// The machine's name as the device name: the trimmed host name, or
/// `"Waken-Wa Client"` when it is missing or blank.
pub fn system_device_name() -> (r: String)
    ensures
        exists|host: Option<Seq<char>>| r@ == device_name_for_host(host),
{
    let host = read_host_name();
    let ghost h = opt_seq(host);
    let r = device_name_from_host(host);
    assert(r@ == device_name_for_host(h));
    r
}

/// The configured device name.
pub fn default_device_name() -> (r: String)
    ensures
        r@ == Seq::<char>::empty(),
{
    String::new()
}

/// The device name sent with reports: the trimmed configured name, or the
/// machine's name when the configured one is blank.
pub fn effective_device_name(value: &str) -> (r: String)
    ensures
        !is_blank(value@) ==> r@ == trim(value@),
        is_blank(value@) ==> exists|host: Option<Seq<char>>| r@ == device_name_for_host(host),
{
    if is_blank_str(value) {
        system_device_name()
    } else {
        trim_str(value)
    }
}

pub fn default_device_type() -> (r: String)
    ensures
        r@ == "desktop"@,
{
    "desktop".to_owned()
}

pub fn default_push_mode() -> (r: String)
    ensures
        r@ == "realtime"@,
{
    "realtime".to_owned()
}

pub fn default_use_system_proxy() -> (r: bool)
    ensures
        r,
{
    true
}

/// The default poll interval: two seconds, as the configuration guide states.
pub fn default_poll_interval_ms() -> (r: u64)
    ensures
        r == 2000,
{
    2_000
}

pub fn default_heartbeat_interval_ms() -> (r: u64)
    ensures
        r == 60000,
{
    60_000
}

pub fn default_reporter_metadata_json() -> (r: String)
    ensures
        r@ == Seq::<char>::empty(),
{
    String::new()
}

pub fn default_report_foreground_app() -> (r: bool)
    ensures
        r,
{
    true
}

pub fn default_report_window_title() -> (r: bool)
    ensures
        r,
{
    true
}

pub fn default_report_media() -> (r: bool)
    ensures
        r,
{
    true
}

pub fn default_report_play_source() -> (r: bool)
    ensures
        r,
{
    true
}

pub fn default_report_media_artwork() -> (r: bool)
    ensures
        r,
{
    true
}

pub fn default_discord_application_id() -> (r: String)
    ensures
        r@ == Seq::<char>::empty(),
{
    String::new()
}

pub fn default_discord_source_id() -> (r: String)
    ensures
        r@ == Seq::<char>::empty(),
{
    String::new()
}

/// What this build of the client can do.
#[derive(Clone, Copy, Debug, PartialEq, Eq, Structural)]
pub struct ClientCapabilities {
    pub realtime_reporter: bool,
    pub tray: bool,
    pub platform_self_test: bool,
    pub discord_presence: bool,
    pub autostart: bool,
}

/// The capabilities of a desktop build (all of them) or of a mobile or
/// other build (none).
pub fn default_client_capabilities(desktop: bool) -> (r: ClientCapabilities)
    ensures
        r.realtime_reporter == desktop,
        r.tray == desktop,
        r.platform_self_test == desktop,
        r.discord_presence == desktop,
        r.autostart == desktop,
{
    ClientCapabilities {
        realtime_reporter: desktop,
        tray: desktop,
        platform_self_test: desktop,
        discord_presence: desktop,
        autostart: desktop,
    }
}

/// The connection and reporting settings.
#[derive(Clone, Debug)]
pub struct ClientConfig {
    pub base_url: String,
    pub api_token: String,
    pub generated_hash_key: String,
    pub use_system_proxy: bool,
    pub device: String,
    pub device_type: String,
    pub push_mode: String,
    pub poll_interval_ms: u64,
    pub heartbeat_interval_ms: u64,
    pub reporter_metadata_json: String,
    pub reporter_enabled: bool,
    pub report_foreground_app: bool,
    pub report_window_title: bool,
    pub report_media: bool,
    pub report_play_source: bool,
    pub report_media_artwork: bool,
    pub discord_enabled: bool,
    pub discord_application_id: String,
    pub discord_source_id: String,
    pub launch_on_startup: bool,
}

impl ClientConfig {
    /// The settings are the defaults.
    pub open spec fn is_default(self) -> bool {
        &&& self.generated_hash_key@ == Seq::<char>::empty()
        &&& self.is_default_except_key()
    }

    /// The settings are the defaults, but for the device key.
    pub open spec fn is_default_except_key(self) -> bool {
        &&& self.base_url@ == Seq::<char>::empty()
        &&& self.api_token@ == Seq::<char>::empty()
        &&& self.use_system_proxy
        &&& self.device@ == Seq::<char>::empty()
        &&& self.device_type@ == "desktop"@
        &&& self.push_mode@ == "realtime"@
        &&& self.poll_interval_ms == 2000
        &&& self.heartbeat_interval_ms == 60000
        &&& self.reporter_metadata_json@ == Seq::<char>::empty()
        &&& !self.reporter_enabled
        &&& self.report_foreground_app
        &&& self.report_window_title
        &&& self.report_media
        &&& self.report_play_source
        &&& self.report_media_artwork
        &&& !self.discord_enabled
        &&& self.discord_application_id@ == Seq::<char>::empty()
        &&& self.discord_source_id@ == Seq::<char>::empty()
        &&& !self.launch_on_startup
    }
}

impl Default for ClientConfig {
    fn default() -> (r: Self)
        ensures
            r.is_default(),
    {
        ClientConfig {
            base_url: String::new(),
            api_token: String::new(),
            generated_hash_key: String::new(),
            use_system_proxy: default_use_system_proxy(),
            device: default_device_name(),
            device_type: default_device_type(),
            push_mode: default_push_mode(),
            poll_interval_ms: default_poll_interval_ms(),
            heartbeat_interval_ms: default_heartbeat_interval_ms(),
            reporter_metadata_json: default_reporter_metadata_json(),
            reporter_enabled: false,
            report_foreground_app: default_report_foreground_app(),
            report_window_title: default_report_window_title(),
            report_media: default_report_media(),
            report_play_source: default_report_play_source(),
            report_media_artwork: default_report_media_artwork(),
            discord_enabled: false,
            discord_application_id: default_discord_application_id(),
            discord_source_id: default_discord_source_id(),
            launch_on_startup: false,
        }
    }
}

/// An activity the user has submitted before, offered again.
#[derive(Clone, Debug)]
pub struct RecentPreset {
    pub process_name: String,
    pub process_title: Option<String>,
    pub media_title: Option<String>,
    pub media_singer: Option<String>,
    pub last_used_at: String,
}

/// Everything the client keeps between runs.
#[derive(Clone, Debug)]
pub struct AppStatePayload {
    pub config: ClientConfig,
    pub recent_presets: Vec<RecentPreset>,
    pub onboarding_dismissed: bool,
    pub locale: String,
    pub reporter_config_prompt_handled: bool,
    pub verified_generated_hash_key: String,
}

impl Default for AppStatePayload {
    fn default() -> (r: Self)
        ensures
            r.config.is_default(),
            r.recent_presets@.len() == 0,
            !r.onboarding_dismissed,
            r.locale@ == Seq::<char>::empty(),
            !r.reporter_config_prompt_handled,
            r.verified_generated_hash_key@ == Seq::<char>::empty(),
    {
        AppStatePayload {
            config: ClientConfig::default(),
            recent_presets: Vec::new(),
            onboarding_dismissed: false,
            locale: String::new(),
            reporter_config_prompt_handled: false,
            verified_generated_hash_key: String::new(),
        }
    }
}

/// An activity report as the user or the reporter submits it.
#[derive(Clone, Debug)]
pub struct ActivityPayload {
    pub generated_hash_key: String,
    pub process_name: String,
    pub device: Option<String>,
    pub process_title: Option<String>,
    pub persist_minutes: Option<i64>,
    pub battery_level: Option<i64>,
    pub is_charging: Option<bool>,
    pub device_type: Option<String>,
    pub push_mode: Option<String>,
    pub metadata: Option<JsonValue>,
}

/// A new inspiration entry.
#[derive(Clone, Debug)]
pub struct InspirationEntryCreateInput {
    pub title: String,
    pub content: String,
    pub content_lexical: Option<String>,
    pub image_data_url: Option<String>,
    pub generated_hash_key: Option<String>,
    pub attach_current_status: Option<bool>,
    pub pre_computed_status_snapshot: Option<String>,
    pub attach_status_device_hash: Option<String>,
    pub attach_status_activity_key: Option<String>,
    pub attach_status_include_device_info: Option<bool>,
}

/// Connection settings read from a quick-connect payload.
#[derive(Clone, Debug)]
pub struct ImportedIntegrationConfig {
    pub report_endpoint: Option<String>,
    pub token: Option<String>,
    pub token_name: Option<String>,
    pub device_name: Option<String>,
    pub raw: crate::json::JsonMap,
}

/// The error half of an answer to the user interface.
#[derive(Clone, Debug)]
pub struct ApiError {
    pub status: u16,
    pub message: String,
    pub code: Option<String>,
    pub params: Option<JsonValue>,
    pub details: Option<JsonValue>,
}

/// An answer to the user interface: data on success, an error otherwise.
#[derive(Clone, Debug)]
pub struct ApiResult<T> {
    pub success: bool,
    pub status: u16,
    pub data: Option<T>,
    pub error: Option<ApiError>,
}

impl<T> ApiResult<T> {
    /// A successful answer carrying `data`.
    pub fn success(status: u16, data: T) -> (r: Self)
        ensures
            r.success,
            r.status == status,
            r.data == Some(data),
            r.error is None,
    {
        ApiResult { success: true, status, data: Some(data), error: None }
    }

    /// A failed answer with a localizable error code.
    pub fn failure_localized(
        status: u16,
        code: Option<String>,
        message: String,
        params: Option<JsonValue>,
        details: Option<JsonValue>,
    ) -> (r: Self)
        ensures
            !r.success,
            r.status == status,
            r.data is None,
            r.error == Some(
                ApiError { status, message, code, params, details },
            ),
    {
        ApiResult {
            success: false,
            status,
            data: None,
            error: Some(ApiError { status, message, code, params, details }),
        }
    }

    /// A failed answer without an error code.
    pub fn failure(status: u16, message: String, details: Option<JsonValue>) -> (r: Self)
        ensures
            !r.success,
            r.status == status,
            r.data is None,
            r.error == Some(
                ApiError { status, message, code: None, params: None, details },
            ),
    {
        Self::failure_localized(status, None, message, None, details)
    }
}

/// A localizable line of text: its fallback text, key and parameters.
#[derive(Clone, Debug)]
pub struct LocalizedTextEntry {
    pub text: String,
    pub key: Option<String>,
    pub params: Option<JsonValue>,
}

/// The activity the reporter last sent.
#[derive(Clone, Debug)]
pub struct ReporterActivity {
    pub process_name: String,
    pub process_title: Option<String>,
    pub updated_at: Option<String>,
    pub media_cover_url: Option<String>,
}

/// One line of the reporter's log.
#[derive(Clone, Debug)]
pub struct ReporterLogEntry {
    pub id: String,
    pub timestamp: String,
    pub level: String,
    pub title: String,
    pub detail: String,
    pub title_key: Option<String>,
    pub title_params: Option<JsonValue>,
    pub detail_key: Option<String>,
    pub detail_params: Option<JsonValue>,
    pub payload: Option<JsonValue>,
}

/// What the user interface shows of the background reporter.
#[derive(Clone, Debug)]
pub struct RealtimeReporterSnapshot {
    pub running: bool,
    pub logs: Vec<ReporterLogEntry>,
    pub current_activity: Option<ReporterActivity>,
    pub last_heartbeat_at: Option<String>,
    pub last_error: Option<String>,
    pub last_pending_approval_message: Option<String>,
    pub last_pending_approval_url: Option<String>,
}

/// What the user interface shows of the Discord presence sync.
#[derive(Clone, Debug)]
pub struct DiscordPresenceSnapshot {
    pub running: bool,
    pub connected: bool,
    pub last_sync_at: Option<String>,
    pub last_error: Option<String>,
    pub current_summary: Option<String>,
}

/// The outcome of one platform capability check.
#[derive(Clone, Debug)]
pub struct PlatformProbeResult {
    pub success: bool,
    pub summary: String,
    pub detail: String,
    pub guidance: Vec<String>,
    pub summary_key: Option<String>,
    pub summary_params: Option<JsonValue>,
    pub detail_key: Option<String>,
    pub detail_params: Option<JsonValue>,
    pub guidance_entries: Vec<LocalizedTextEntry>,
}

/// The outcome of the platform self test.
#[derive(Clone, Debug)]
pub struct PlatformSelfTestResult {
    pub platform: String,
    pub foreground: PlatformProbeResult,
    pub window_title: PlatformProbeResult,
    pub media: PlatformProbeResult,
}

/// A reporter configuration found on this machine.
#[derive(Clone, Debug)]
pub struct ExistingReporterConfig {
    pub found: bool,
    pub path: Option<String>,
    pub config: Option<ClientConfig>,
}

} // verus!
