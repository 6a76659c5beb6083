//! The application's error taxonomy: a closed set of variants, each with an
//! explicit rendering into a message line.
//!
//! Configuration errors are fatal and reported once at startup; the
//! per-request variants are recovered locally and surfaced as a non-success
//! response.

use vstd::prelude::*;
use vstd::string::StringExecFns;

verus! {

/// Everything that can go wrong in the application.
#[derive(Clone, Debug)]
pub enum AppErrors {
    /// The configuration file is absent. Fatal.
    ConfigFileNotFound,
    /// The configuration file does not parse; carries the parser's words. Fatal.
    ConfigParseError(String),
    /// The caller's network origin could not be determined. Per-request.
    ClientIPNotFound,
    /// The store refused an operation; carries its words. Per-request.
    DatabaseError(String),
    /// The vote is still inside its cooldown window. Per-request.
    NotReadyForVote,
}

/// The message each variant renders to.
pub open spec fn spec_message(e: AppErrors) -> Seq<char> {
    match e {
        AppErrors::ConfigFileNotFound => "Can't Find the config file `config.toml`, create it if it's not exist"@,
        AppErrors::ConfigParseError(s) => "Parsing Config file: "@ + s@,
        AppErrors::ClientIPNotFound => "Client IP Notfound"@,
        AppErrors::DatabaseError(s) => "DatabaseError: "@ + s@,
        AppErrors::NotReadyForVote => "You are Not Ready for vote yet, come later."@,
    }
}

impl AppErrors {
    /// Renders this error as a message line.
    pub fn message(&self) -> (r: String)
        ensures
            r@ == spec_message(*self),
    {
        match self {
            AppErrors::ConfigFileNotFound => "Can't Find the config file `config.toml`, create it if it's not exist".to_owned(),
            AppErrors::ConfigParseError(s) => {
                let mut m = "Parsing Config file: ".to_owned();
                m.append(s.as_str());
                m
            },
            AppErrors::ClientIPNotFound => "Client IP Notfound".to_owned(),
            AppErrors::DatabaseError(s) => {
                let mut m = "DatabaseError: ".to_owned();
                m.append(s.as_str());
                m
            },
            AppErrors::NotReadyForVote => "You are Not Ready for vote yet, come later.".to_owned(),
        }
    }
}

} // verus!
