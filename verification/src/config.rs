//! Resolution of the server configuration: each setting takes the value the
//! caller supplied, or its documented default.

use vstd::prelude::*;

verus! {

/// Port the server listens on when none is given.
pub const DEFAULT_PORT: u16 = 8080;

/// Host the server binds when none is given.
pub open spec fn default_host_view() -> Seq<char> {
    "127.0.0.1"@
}

/// Log verbosity used when none is given.
pub open spec fn default_log_level_view() -> Seq<char> {
    "info"@
}

/// The resolved server configuration.
pub struct ServerConfig {
    /// Host to bind to.
    pub host: String,
    /// Port to listen on.
    pub port: u16,
    /// Log verbosity.
    pub log_level: String,
}

/// How a resolved configuration relates to what was supplied: every given
/// setting is kept, every missing one takes its default.
pub open spec fn config_post(
    host: Option<String>,
    port: Option<u16>,
    log_level: Option<String>,
    c: ServerConfig,
) -> bool {
    &&& c.host@ == (match host {
        Some(h) => h@,
        None => default_host_view(),
    })
    &&& c.port == (match port {
        Some(p) => p,
        None => DEFAULT_PORT,
    })
    &&& c.log_level@ == (match log_level {
        Some(l) => l@,
        None => default_log_level_view(),
    })
}

/// Resolves the configuration from optionally supplied settings.
pub fn resolve_config(
    host: Option<String>,
    port: Option<u16>,
    log_level: Option<String>,
) -> (c: ServerConfig)
    ensures
        config_post(host, port, log_level, c),
{
    let resolved_host = match host {
        Some(h) => h,
        None => "127.0.0.1".to_owned(),
    };
    let resolved_port = match port {
        Some(p) => p,
        None => DEFAULT_PORT,
    };
    let resolved_log_level = match log_level {
        Some(l) => l,
        None => "info".to_owned(),
    };
    ServerConfig { host: resolved_host, port: resolved_port, log_level: resolved_log_level }
}

} // verus!
