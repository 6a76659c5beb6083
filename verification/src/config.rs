//! The configuration value, constructed once at startup and passed by
//! reference into the orchestrator; no ambient global state.

use vstd::prelude::*;

use crate::net::Ipv4;

verus! {

/// Log verbosity levels recognized by the configuration.
#[derive(Clone, Copy, PartialEq, Eq, Structural, Debug)]
pub enum LoggingLevel {
    /// Only shows errors, warnings, and launch information.
    Critical,
    /// Shows everything except debug and trace information.
    Normal,
    /// Shows everything.
    Debug,
    /// Shows nothing.
    Off,
}

/// The cooldown and reward settings of vote processing.
#[derive(Clone, Copy, PartialEq, Eq, Structural, Debug)]
pub struct VoteConfig {
    /// The cooldown window, in hours.
    pub time_limit: u8,
    /// Points awarded per accepted vote.
    pub points: u64,
}

/// The application configuration.
#[derive(Clone, Debug)]
pub struct AppConfig {
    /// Display name of this server.
    pub server_name: String,
    /// The allow-list of addresses permitted to submit postbacks.
    pub allowed_ips: Vec<Ipv4>,
    /// The identifier of this site at the external ranking site.
    pub site_id: u32,
    /// Cooldown and reward settings.
    pub vote_config: VoteConfig,
    /// Network port to bind.
    pub port: u16,
    /// Network address to bind.
    pub ip: Ipv4,
    /// Size of the worker pool.
    pub workers: u16,
    /// Log verbosity.
    pub log_level: LoggingLevel,
    /// Database connection string.
    pub database_url: String,
}

} // verus!
