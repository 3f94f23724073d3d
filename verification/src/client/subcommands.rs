//! The client's subcommands: their names and the requests they send.

use vstd::prelude::*;
use crate::client::subcommand_utils::is_auto_startup_value;
use crate::messages::{
    GetDirectoryStatusRequest, ModifyHandlerRequest, RegisterToDirectoryRequest, StartHandlerRequest,
    StopHandlerRequest, TraceHandlerRequest,
};
use crate::std_bindings::{join_path, lowercase, path_joined, path_with_extension, with_extension};
use crate::text::join2;

verus! {

/// Registers a pipeline configuration to a directory.
#[derive(Clone, Copy, Debug)]
pub struct RegisterSubCommand;

/// Shows the summary of directory handlers.
#[derive(Clone, Copy, Debug)]
pub struct StatusSubCommand {}

/// Starts directory handlers.
#[derive(Clone, Copy, Debug)]
pub struct StartSubCommand;

/// Stops directory handlers, and optionally deregisters them.
#[derive(Clone, Copy, Debug)]
pub struct StopSubCommand;

/// Writes a default pipeline configuration.
#[derive(Clone, Copy, Debug)]
pub struct GenerateSubCommand;

/// Changes the startup type or description of directory handlers.
#[derive(Clone, Copy, Debug)]
pub struct ModifySubCommand;

/// Follows the output of directory handlers.
#[derive(Clone, Copy, Debug)]
pub struct TraceSubCommand {}

/// Whether a startup value asks for automatic startup.
pub open spec fn auto_value(value: Option<Seq<char>>) -> Option<bool> {
    match value {
        Some(v) => Some(lowercase(v) == "auto"@),
        None => None,
    }
}

impl RegisterSubCommand {
    pub fn name(&self) -> (n: &'static str)
        ensures
            n@ == "register"@,
    {
        "register"
    }

    pub fn alias(&self) -> (a: &'static str)
        ensures
            a@ == "reg"@,
    {
        "reg"
    }

    pub fn requires_connection(&self) -> (b: bool)
        ensures
            b,
    {
        true
    }

    /// The register request for a directory and a pipeline configuration
    /// path; the handler starts with the service only for the `auto` startup type.
    pub fn request(
        &self,
        directory_path: String,
        handler_config_path: String,
        is_start_on_register: bool,
        startup: Option<&str>,
    ) -> (r: RegisterToDirectoryRequest)
        ensures
            r.directory_path == directory_path,
            r.handler_config_path == handler_config_path,
            r.is_start_on_register == is_start_on_register,
            r.is_auto_startup == (startup matches Some(v) && lowercase(v@) == "auto"@),
    {
        let is_auto_startup = match startup {
            Some(value) => is_auto_startup_value(value),
            None => false,
        };
        RegisterToDirectoryRequest { directory_path, handler_config_path, is_start_on_register, is_auto_startup }
    }
}

impl StatusSubCommand {
    pub fn name(&self) -> (n: &'static str)
        ensures
            n@ == "status"@,
    {
        "status"
    }

    pub fn alias(&self) -> (a: &'static str)
        ensures
            a@ == "stat"@,
    {
        "stat"
    }

    pub fn requires_connection(&self) -> (b: bool)
        ensures
            b,
    {
        true
    }

    /// The status request for a directory path (empty for all).
    pub fn request(&self, directory_path: String) -> (r: GetDirectoryStatusRequest)
        ensures
            r.directory_path == directory_path,
    {
        GetDirectoryStatusRequest { directory_path }
    }

    /// The message shown when the service reports no handler.
    pub fn no_handler_message(&self, all_directories: bool) -> (m: String)
        ensures
            m@ == "No handler registered on "@ + if all_directories { "file system"@ } else { "directory"@ },
    {
        if all_directories {
            join2("No handler registered on ", "file system")
        } else {
            join2("No handler registered on ", "directory")
        }
    }
}

impl StartSubCommand {
    pub fn name(&self) -> (n: &'static str)
        ensures
            n@ == "start"@,
    {
        "start"
    }

    pub fn alias(&self) -> (a: &'static str)
        ensures
            a@ == ""@,
    {
        ""
    }

    pub fn requires_connection(&self) -> (b: bool)
        ensures
            b,
    {
        true
    }

    /// The start request for a directory path (empty for all).
    pub fn request(&self, directory_path: String) -> (r: StartHandlerRequest)
        ensures
            r.directory_path == directory_path,
    {
        StartHandlerRequest { directory_path }
    }
}

impl StopSubCommand {
    pub fn name(&self) -> (n: &'static str)
        ensures
            n@ == "stop"@,
    {
        "stop"
    }

    pub fn alias(&self) -> (a: &'static str)
        ensures
            a@ == ""@,
    {
        ""
    }

    pub fn requires_connection(&self) -> (b: bool)
        ensures
            b,
    {
        true
    }

    /// The stop request for a directory path (empty for all).
    pub fn request(&self, directory_path: String, remove: bool) -> (r: StopHandlerRequest)
        ensures
            r.directory_path == directory_path,
            r.remove == remove,
    {
        StopHandlerRequest { directory_path, remove }
    }
}

impl ModifySubCommand {
    pub fn name(&self) -> (n: &'static str)
        ensures
            n@ == "modify"@,
    {
        "modify"
    }

    pub fn alias(&self) -> (a: &'static str)
        ensures
            a@ == "mod"@,
    {
        "mod"
    }

    pub fn requires_connection(&self) -> (b: bool)
        ensures
            b,
    {
        true
    }

    /// The modify request for a directory path (empty for all): the startup
    /// type when one is given (automatic for `auto`), and the description
    /// when one is given.
    pub fn request(&self, directory_path: String, startup: Option<&str>, description: Option<&str>) -> (r: ModifyHandlerRequest)
        ensures
            r.directory_path == directory_path,
            r.is_auto_startup == auto_value(match startup { Some(v) => Some(v@), None => None }),
            r.modify_description is Some <==> description is Some,
            r.modify_description matches Some(d) ==> d@ == description->0@,
    {
        let is_auto_startup = match startup {
            Some(value) => Some(is_auto_startup_value(value)),
            None => None,
        };
        let modify_description = match description {
            Some(d) => Some(String::from_str(d)),
            None => None,
        };
        ModifyHandlerRequest { directory_path, is_auto_startup, modify_description }
    }
}

impl TraceSubCommand {
    pub fn name(&self) -> (n: &'static str)
        ensures
            n@ == "trace"@,
    {
        "trace"
    }

    pub fn alias(&self) -> (a: &'static str)
        ensures
            a@ == ""@,
    {
        ""
    }

    pub fn requires_connection(&self) -> (b: bool)
        ensures
            b,
    {
        true
    }

    /// The trace request for a directory path (empty for all).
    pub fn request(&self, directory_path: String) -> (r: TraceHandlerRequest)
        ensures
            r.directory_path == directory_path,
    {
        TraceHandlerRequest { directory_path }
    }
}

impl GenerateSubCommand {
    pub fn name(&self) -> (n: &'static str)
        ensures
            n@ == "generate"@,
    {
        "generate"
    }

    pub fn alias(&self) -> (a: &'static str)
        ensures
            a@ == "gen"@,
    {
        "gen"
    }

    pub fn requires_connection(&self) -> (b: bool)
        ensures
            !b,
    {
        false
    }

    /// Where to write a generated pipeline: the file name with a `toml`
    /// extension in the current directory, or in the directory given, or
    /// the path given when it is not a directory.
    pub fn construct_config_path(file_name: &str, path: Option<&str>, current_dir: &str, path_is_dir: bool) -> (r: String)
        ensures
            match path {
                None => r@ == path_with_extension(path_joined(current_dir@, file_name@), "toml"@),
                Some(p) => if path_is_dir {
                    r@ == path_with_extension(path_joined(p@, file_name@), "toml"@)
                } else {
                    r@ == p@
                },
            },
    {
        proof {
            reveal_strlit("toml");
        }
        match path {
            None => {
                let joined = join_path(current_dir, file_name);
                with_extension(joined.as_str(), "toml")
            },
            Some(p) => {
                if path_is_dir {
                    let joined = join_path(p, file_name);
                    with_extension(joined.as_str(), "toml")
                } else {
                    String::from_str(p)
                }
            },
        }
    }
}

} // verus!
