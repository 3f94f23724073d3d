//! How the service starts from its command line: which configuration it
//! runs with.

use vstd::prelude::*;
use crate::daemon::config::Config;
use crate::messages::DEFAULT_PORT;

verus! {

/// The subcommand the service was started with.
pub enum ServiceCommand {
    /// Run the server.
    Run,
    /// Work on the service's logs.
    Logs,
    /// No known subcommand.
    Other,
}

/// How the service goes on once its configuration file was read.
pub enum StartupPlan {
    /// Run the server with this configuration (before the run command's
    /// values are applied); the flag tells that the configuration file could
    /// not be read and the default configuration is used.
    Run(Config, bool),
    /// Report that the configuration file is invalid.
    ReportInvalidConfig,
    /// Nothing to do.
    Idle,
}

/// The default configuration.
pub open spec fn is_default_config(c: Config) -> bool {
    &&& c.mapping_state_path@ == "foldend_mapping.toml"@
    &&& c.tracing_file_path@ == "foldend.log"@
    &&& c.concurrent_threads_limit == 10
    &&& c.port == DEFAULT_PORT
}

/// Decides how the service starts: a configuration path is required; the
/// run command runs with the configuration read, or with the default one
/// when the file could not be read; the logs command reports an unreadable
/// configuration; anything else does nothing.
pub fn plan_startup(config_path_given: bool, loaded: Option<Config>, command: ServiceCommand) -> (r: Result<StartupPlan, String>)
    ensures
        !config_path_given ==> (r matches Err(m) && m@ == "Config path not provided"@),
        config_path_given ==> match (loaded, command) {
            (Some(c), ServiceCommand::Run) => r matches Ok(StartupPlan::Run(k, d)) && k == c && !d,
            (Some(_), _) => r matches Ok(StartupPlan::Idle),
            (None, ServiceCommand::Run) => r matches Ok(StartupPlan::Run(k, d)) && is_default_config(k) && d,
            (None, ServiceCommand::Logs) => r matches Ok(StartupPlan::ReportInvalidConfig),
            (None, ServiceCommand::Other) => r matches Ok(StartupPlan::Idle),
        },
{
    if !config_path_given {
        return Err(String::from_str("Config path not provided"));
    }
    match loaded {
        Some(c) => match command {
            ServiceCommand::Run => Ok(StartupPlan::Run(c, false)),
            _ => Ok(StartupPlan::Idle),
        },
        None => match command {
            ServiceCommand::Run => Ok(StartupPlan::Run(Config::default(), true)),
            ServiceCommand::Logs => Ok(StartupPlan::ReportInvalidConfig),
            ServiceCommand::Other => Ok(StartupPlan::Idle),
        },
    }
}

} // verus!
