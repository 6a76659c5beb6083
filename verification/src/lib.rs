//! A vote-postback processing engine: validates the caller's network origin
//! against an allow-list, evaluates per-user vote eligibility under a cooldown
//! window, and maintains a cumulative per-user point ledger.

mod clock;
pub mod config;
pub mod eligibility;
pub mod errors;
pub mod ledger;
pub mod net;
pub mod points;
pub mod redirect;
pub mod vote;

pub use net::Ipv4;
