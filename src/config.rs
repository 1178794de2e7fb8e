//! Server settings: where to listen, and what the monitor stream sends.
use vstd::prelude::*;

use crate::outside::{parse_port, port_of};

verus! {

/// Address to listen on by default: every interface, since the service is meant to be
/// reached remotely.
pub const DEFAULT_HOST: &'static str = "0.0.0.0";

/// Port to listen on by default.
pub const DEFAULT_PORT: u16 = 8255;

/// Web server settings.
#[derive(Debug)]
pub struct Config {
    pub host: String,
    pub port: u16,
}

impl Default for Config {
    fn default() -> (r: Config)
        ensures
            r.host@ == DEFAULT_HOST@,
            r.port == DEFAULT_PORT,
    {
        Config { host: DEFAULT_HOST.to_owned(), port: DEFAULT_PORT }
    }
}

impl Config {
    /// The defaults, with the host replaced by `host` where given, and the port by
    /// `port` where given and it reads as a port number.
    pub fn with_overrides(host: Option<String>, port: Option<String>) -> (r: Config)
        ensures
            host matches Some(h) ==> r.host == h,
            host is None ==> r.host@ == DEFAULT_HOST@,
            port matches Some(p) ==> r.port == (match port_of(p@) {
                Some(v) => v,
                None => DEFAULT_PORT,
            }),
            port is None ==> r.port == DEFAULT_PORT,
    {
        let mut config = Config::default();
        if let Some(h) = host {
            config.host = h;
        }
        if let Some(p) = port {
            if let Some(v) = parse_port(p.as_str()) {
                config.port = v;
            }
        }
        config
    }
}

/// Which updates the monitor stream sends unasked.
#[derive(Debug, Clone, Copy, PartialEq, Eq, Structural)]
pub struct MonitorConfig {
    pub always_send_screen_updates: bool,
    pub always_send_cursor_updates: bool,
}

impl Default for MonitorConfig {
    fn default() -> (r: MonitorConfig)
        ensures
            r.always_send_screen_updates,
            r.always_send_cursor_updates,
    {
        MonitorConfig { always_send_screen_updates: true, always_send_cursor_updates: true }
    }
}

/// What the service reports about the machine it controls.
#[derive(Debug, Clone)]
pub struct ComputerInfo {
    pub os_type: String,
    pub os_version: String,
    pub display_width: u32,
    pub display_height: u32,
}

} // verus!
