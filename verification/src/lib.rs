//! Media-session tracking and event reconciliation for a desktop host
//! application: identity normalization, event normalization, admission
//! filtering, the session registry and the per-player tracker, all as
//! verified decision logic over plain values.

pub mod admission;
pub mod cache;
pub mod debounce;
pub mod discord;
pub mod discord_rpc;
pub mod dispatcher;
pub mod events;
pub mod identity;
pub mod ipc;
pub mod machine_uid;
pub mod media_info;
pub mod mpris;
pub mod notifications;
pub mod registry;
pub mod sessions;
pub mod smtc;
pub mod text;
pub mod tracker;
pub mod tray;
pub mod webview;
pub mod windows_utils;
