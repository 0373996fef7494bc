//! Verified core of the Waken-Wa reporter client.
use vstd::prelude::*;

pub mod http_client;
pub mod import_config;
pub mod json;
pub mod laws;
pub mod locale;
pub mod models;
pub mod platform;
pub mod codec;
pub mod commands;
pub mod discord;
pub mod reporter;
pub mod reporter_config;
pub mod runtime_utils;
pub mod state_store;
pub mod text;
pub mod tray;

verus! {
} // verus!
