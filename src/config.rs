//! The gateway's configuration: which backends are enabled and where they are.
use vstd::prelude::*;

verus! {

/// Settings of the HTTP listener itself.
#[derive(Clone)]
pub struct BaseConfig {
    pub host: String,
    pub port: u32,
    pub file_log: bool,
    pub log_level: String,
}

/// The static web application, served under `path` from `dist_path`.
#[derive(Clone)]
pub struct WebConfig {
    pub path: String,
    pub dist_path: String,
    pub spa_support: bool,
}

/// One proxied backend: requests under `path` go to `forward_to`, and a
/// reply is awaited for `timeout` milliseconds.
#[derive(Clone)]
pub struct ProxyConfig {
    pub path: String,
    pub forward_to: String,
    pub timeout: u64,
}

/// The whole configuration; an absent section disables that service.
#[derive(Clone)]
pub struct ServerConfig {
    pub server: BaseConfig,
    pub web: Option<WebConfig>,
    pub websocket_proxy: Option<ProxyConfig>,
    pub tcp_proxy: Option<ProxyConfig>,
    pub reverse_proxy: Option<ProxyConfig>,
}

} // verus!
