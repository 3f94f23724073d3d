//! The service's configuration and its adjustment from command-line values.

use std::num::ParseIntError;
use vstd::prelude::*;
use crate::messages::DEFAULT_PORT;
use crate::std_bindings::{parse_u16, parse_u8, unsigned_text_value};

verus! {

/// The service configuration.
pub struct Config {
    /// Where the mapping of handled directories is saved.
    pub mapping_state_path: String,
    /// Where the service writes its log.
    pub tracing_file_path: String,
    /// How many handler threads may run at once; 0 for no limit.
    pub concurrent_threads_limit: u8,
    /// The port the service listens on.
    pub port: u16,
}

impl Default for Config {
    fn default() -> (c: Self)
        ensures
            c.mapping_state_path@ == "foldend_mapping.toml"@,
            c.tracing_file_path@ == "foldend.log"@,
            c.concurrent_threads_limit == 10,
            c.port == DEFAULT_PORT,
    {
        Config {
            mapping_state_path: String::from_str("foldend_mapping.toml"),
            tracing_file_path: String::from_str("foldend.log"),
            concurrent_threads_limit: 10,
            port: DEFAULT_PORT,
        }
    }
}

/// A command-line value the configuration could not take.
pub enum ConfigArgError {
    InvalidPort(ParseIntError),
    InvalidLimit(ParseIntError),
}

/// A text that `str::parse` reads as an unsigned integer no larger than `max`.
pub open spec fn parses_within(s: Seq<char>, max: nat) -> bool {
    unsigned_text_value(s) is Some && unsigned_text_value(s)->0 <= max
}

/// The configuration after the run command's values: the mapping path, the
/// port, the limit and the log path, in that order, each when given. A port
/// or limit that does not parse stops the adjustment there, with an error.
pub open spec fn config_adjusted(
    old: Config,
    new: Config,
    mapping: Option<Seq<char>>,
    port: Option<Seq<char>>,
    limit: Option<Seq<char>>,
    log: Option<Seq<char>>,
    r: Result<(), ConfigArgError>,
) -> bool {
    let mapping_ok = match mapping {
        Some(m) => new.mapping_state_path@ == m,
        None => new.mapping_state_path == old.mapping_state_path,
    };
    let port_fails = port matches Some(p) && !parses_within(p, u16::MAX as nat);
    let limit_fails = limit matches Some(l) && !parses_within(l, u8::MAX as nat);
    &&& mapping_ok
    &&& if port_fails {
        &&& r matches Err(ConfigArgError::InvalidPort(_))
        &&& new.port == old.port
        &&& new.concurrent_threads_limit == old.concurrent_threads_limit
        &&& new.tracing_file_path == old.tracing_file_path
    } else {
        &&& match port {
            Some(p) => new.port as nat == unsigned_text_value(p)->0,
            None => new.port == old.port,
        }
        &&& if limit_fails {
            &&& r matches Err(ConfigArgError::InvalidLimit(_))
            &&& new.concurrent_threads_limit == old.concurrent_threads_limit
            &&& new.tracing_file_path == old.tracing_file_path
        } else {
            &&& match limit {
                Some(l) => new.concurrent_threads_limit as nat == unsigned_text_value(l)->0,
                None => new.concurrent_threads_limit == old.concurrent_threads_limit,
            }
            &&& match log {
                Some(g) => new.tracing_file_path@ == g,
                None => new.tracing_file_path == old.tracing_file_path,
            }
            &&& r is Ok
        }
    }
}

/// Adjusts the configuration with the values given to the run command.
pub fn modify_config(
    config: &mut Config,
    mapping: Option<&str>,
    port: Option<&str>,
    limit: Option<&str>,
    log: Option<&str>,
) -> (r: Result<(), ConfigArgError>)
    ensures
        config_adjusted(
            *old(config),
            *final(config),
            match mapping { Some(m) => Some(m@), None => None },
            match port { Some(p) => Some(p@), None => None },
            match limit { Some(l) => Some(l@), None => None },
            match log { Some(g) => Some(g@), None => None },
            r,
        ),
{
    if let Some(mapping_file_path) = mapping {
        config.mapping_state_path = String::from_str(mapping_file_path);
    }
    if let Some(p) = port {
        match parse_u16(p) {
            Ok(v) => config.port = v,
            Err(e) => return Err(ConfigArgError::InvalidPort(e)),
        }
    }
    if let Some(l) = limit {
        match parse_u8(l) {
            Ok(v) => config.concurrent_threads_limit = v,
            Err(e) => return Err(ConfigArgError::InvalidLimit(e)),
        }
    }
    if let Some(log_file_path) = log {
        config.tracing_file_path = String::from_str(log_file_path);
    }
    Ok(())
}

} // verus!
