//! Settings taken over from a standalone reporter's `config.json`.
use vstd::prelude::*;

use crate::discord::feed::{trim_end_char, trim_trailing_slashes};
use crate::models::{
    default_device_name, default_device_type, default_heartbeat_interval_ms,
    default_poll_interval_ms, default_push_mode, default_reporter_metadata_json, ClientConfig,
    ExistingReporterConfig,
};
use crate::reporter::MIN_POLL_INTERVAL_MS;
use crate::state_store::{device_key_for, is_generated_key, new_device_key};
use crate::text::{is_blank, is_blank_str};

verus! {

/// What a reporter's `config.json` holds, each field defaulting to empty.
/// Its metadata object comes separately, as text.
#[derive(Debug)]
pub struct ReporterConfigFile {
    pub base_url: String,
    pub api_token: String,
    pub device_name: String,
    pub generated_hash_key: String,
    pub poll_interval_ms: Option<u64>,
    pub heartbeat_interval_ms: Option<u64>,
}

/// No reporter configuration at `path`.
pub fn missing_existing_config(path: String) -> (r: ExistingReporterConfig)
    ensures
        !r.found,
        r.path == Some(path),
        r.config is None,
{
    ExistingReporterConfig { found: false, path: Some(path), config: None }
}

/// The client settings for a reporter configuration: its site without
/// trailing slashes, its token, its device key (a new one when blank), its
/// device name (none when blank), its intervals (a poll interval of 0 or
/// none means the default, one under `MIN_POLL_INTERVAL_MS` is raised to
/// it), its metadata text (`metadata_json`, the
/// metadata object pretty-printed, when it has one), reporting off, and
/// the defaults for everything else.
pub open spec fn config_from_file_ok(
    c: ClientConfig,
    file: ReporterConfigFile,
    metadata_json: Option<Seq<char>>,
    random_bytes: Seq<u8>,
) -> bool {
    &&& c.base_url@ == trim_end_char(file.base_url@, '/')
    &&& c.api_token == file.api_token
    &&& if is_blank(file.generated_hash_key@) {
        is_generated_key(c.generated_hash_key@) && c.generated_hash_key@ == device_key_for(
            random_bytes,
        )
    } else {
        c.generated_hash_key == file.generated_hash_key
    }
    &&& if is_blank(file.device_name@) {
        c.device@ == Seq::<char>::empty()
    } else {
        c.device == file.device_name
    }
    &&& c.device_type@ == "desktop"@
    &&& c.push_mode@ == "realtime"@
    &&& c.poll_interval_ms == match file.poll_interval_ms {
        Some(p) => if p >= MIN_POLL_INTERVAL_MS {
            p
        } else if p >= 1 {
            MIN_POLL_INTERVAL_MS
        } else {
            2000
        },
        None => 2000,
    }
    &&& c.heartbeat_interval_ms == match file.heartbeat_interval_ms {
        Some(h) => h,
        None => 60000,
    }
    &&& c.reporter_metadata_json@ == match metadata_json {
        Some(m) => m,
        None => Seq::<char>::empty(),
    }
    &&& !c.reporter_enabled
    &&& c.use_system_proxy
    &&& c.report_foreground_app
    &&& c.report_window_title
    &&& c.report_media
    &&& c.report_play_source
    &&& c.report_media_artwork
    &&& !c.discord_enabled
    &&& c.discord_application_id@ == Seq::<char>::empty()
    &&& c.discord_source_id@ == Seq::<char>::empty()
    &&& !c.launch_on_startup
}

/// The reporter configuration found at `path`, holding `file`; a file
/// without a device key gets one made of `random_bytes`.
pub fn existing_config_from_file(
    path: String,
    file: ReporterConfigFile,
    metadata_json: Option<String>,
    random_bytes: [u8; 16],
) -> (r: ExistingReporterConfig)
    ensures
        r.found,
        r.path == Some(path),
        r.config is Some,
        config_from_file_ok(
            r.config->Some_0,
            file,
            match metadata_json {
                Some(m) => Some(m@),
                None => None,
            },
            random_bytes@,
        ),
{
    let ghost f = file;
    let ReporterConfigFile {
        base_url,
        api_token,
        device_name,
        generated_hash_key,
        poll_interval_ms,
        heartbeat_interval_ms,
    } = file;
    let key = if is_blank_str(generated_hash_key.as_str()) {
        new_device_key(random_bytes)
    } else {
        generated_hash_key
    };
    let device = if is_blank_str(device_name.as_str()) {
        default_device_name()
    } else {
        device_name
    };
    let poll = match poll_interval_ms {
        Some(p) => if p >= MIN_POLL_INTERVAL_MS {
            p
        } else if p >= 1 {
            MIN_POLL_INTERVAL_MS
        } else {
            default_poll_interval_ms()
        },
        None => default_poll_interval_ms(),
    };
    let heartbeat = match heartbeat_interval_ms {
        Some(h) => h,
        None => default_heartbeat_interval_ms(),
    };
    let metadata = match metadata_json {
        Some(m) => m,
        None => default_reporter_metadata_json(),
    };
    let mut config = ClientConfig::default();
    config.base_url = trim_trailing_slashes(base_url.as_str());
    config.api_token = api_token;
    config.generated_hash_key = key;
    config.device = device;
    config.device_type = default_device_type();
    config.push_mode = default_push_mode();
    config.poll_interval_ms = poll;
    config.heartbeat_interval_ms = heartbeat;
    config.reporter_metadata_json = metadata;
    config.reporter_enabled = false;
    ExistingReporterConfig { found: true, path: Some(path), config: Some(config) }
}

/// The message when the configuration file could not be read.
pub fn read_error(error: &str) -> (r: String)
    ensures
        r@ == "读取 reporter 配置失败："@ + error@,
{
    let mut m = "读取 reporter 配置失败：".to_owned();
    m.append(error);
    proof {
        reveal_strlit("读取 reporter 配置失败：");
    }
    m
}

/// The message when the configuration file is not a reporter
/// configuration.
pub fn parse_error(error: &str) -> (r: String)
    ensures
        r@ == "解析 reporter 配置失败："@ + error@,
{
    let mut m = "解析 reporter 配置失败：".to_owned();
    m.append(error);
    proof {
        reveal_strlit("解析 reporter 配置失败：");
    }
    m
}

} // verus!
