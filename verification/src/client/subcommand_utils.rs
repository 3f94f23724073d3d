//! What the client's subcommands share: the service address, the startup
//! types, directory checks and the plain-text output of answers.

use vstd::prelude::*;
use crate::messages::{HandlerStateResponse, HandlerSummary};
use crate::std_bindings::{lowercase, to_lowercase};
use crate::text::{join3, same_text, texts};

verus! {

/// The startup types a handler can be given.
pub fn startup_types() -> (v: Vec<String>)
    ensures
        texts(v@) == seq!["auto"@, "manual"@],
{
    let mut v: Vec<String> = Vec::new();
    v.push(String::from_str("auto"));
    v.push(String::from_str("manual"));
    assert(texts(v@) =~= seq!["auto"@, "manual"@]);
    v
}

/// Whether a startup type value (in any letter case) asks for automatic startup.
pub fn is_auto_startup_value(value: &str) -> (b: bool)
    ensures
        b == (lowercase(value@) == "auto"@),
{
    let lower = to_lowercase(value);
    same_text(lower.as_str(), "auto")
}

/// The service address for the port given on the command line.
pub fn construct_server_url(port: Option<&str>) -> (r: Option<String>)
    ensures
        r is Some <==> port is Some,
        r matches Some(u) ==> u@ == "http://localhost:"@ + port->0@ + "/"@,
{
    match port {
        Some(value) => Some(join3("http://localhost:", value, "/")),
        None => None,
    }
}

/// The text a startup flag is shown as.
pub fn startup_type_text(is_auto_startup: bool) -> (s: String)
    ensures
        s@ == if is_auto_startup { "auto"@ } else { "manual"@ },
{
    if is_auto_startup {
        String::from_str("auto")
    } else {
        String::from_str("manual")
    }
}

/// The text a flag is shown as.
pub fn bool_text(b: bool) -> (s: String)
    ensures
        s@ == if b { "true"@ } else { "false"@ },
{
    if b {
        String::from_str("true")
    } else {
        String::from_str("false")
    }
}

/// The plain-text form of one handler state.
pub fn simple_state_text(directory_path: &str, state: &HandlerStateResponse) -> (s: String)
    ensures
        s@ == "\n            "@ + directory_path@ + "\n            Alive: "@ + (if state.is_alive { "true"@ } else { "false"@ })
            + "\n            Message: "@ + state.message@,
{
    let alive = bool_text(state.is_alive);
    let s = join3("\n            ", directory_path, "\n            Alive: ");
    let s = join3(s.as_str(), alive.as_str(), "\n            Message: ");
    s.concat(state.message.as_str())
}

/// The plain-text form of one handler summary.
pub fn simple_summary_text(directory_path: &str, summary: &HandlerSummary) -> (s: String)
    ensures
        s@ == "\n            "@ + directory_path@ + "\n            Description: "@ + summary.description@
            + "\n            Alive: "@ + (if summary.is_alive { "true"@ } else { "false"@ })
            + "\n            Startup: "@ + (if summary.is_auto_startup { "auto"@ } else { "manual"@ }),
{
    let alive = bool_text(summary.is_alive);
    let startup = startup_type_text(summary.is_auto_startup);
    let s = join3("\n            ", directory_path, "\n            Description: ");
    let s = join3(s.as_str(), summary.description.as_str(), "\n            Alive: ");
    let s = join3(s.as_str(), alive.as_str(), "\n            Startup: ");
    s.concat(startup.as_str())
}

/// Checks a directory argument on the command line.
#[derive(Clone, Copy, Debug)]
pub struct ExistingDirectoryValueParser {}

impl ExistingDirectoryValueParser {
    pub fn new() -> (p: Self) {
        ExistingDirectoryValueParser {}
    }

    /// Checks a directory argument from the outcome of resolving it to a
    /// canonical path (the error text when that failed) and whether that
    /// canonical path is an existing directory: a resolution error is
    /// returned as it came, a path that is not an existing directory is
    /// refused, and the canonical path of a directory is accepted.
    pub fn check(&self, canonical: Result<String, String>, is_dir: bool, exists: bool) -> (r: Result<String, String>)
        ensures
            canonical is Err ==> r == canonical,
            canonical is Ok && is_dir && exists ==> r == canonical,
            canonical is Ok && !(is_dir && exists) ==> (r matches Err(m) && m@ == "Input value isn't a directory"@),
    {
        match canonical {
            Err(e) => Err(e),
            Ok(path) => {
                if is_dir && exists {
                    Ok(path)
                } else {
                    Err(String::from_str("Input value isn't a directory"))
                }
            },
        }
    }
}

impl Default for ExistingDirectoryValueParser {
    fn default() -> (p: Self) {
        ExistingDirectoryValueParser::new()
    }
}

/// Accepts a directory argument when it names an existing directory.
pub fn is_existing_directory_validator(is_dir: bool, exists: bool) -> (r: Result<(), String>)
    ensures
        (is_dir && exists) <==> r is Ok,
        r matches Err(m) ==> m@ == "Input value isn't a directory"@,
{
    if is_dir && exists {
        Ok(())
    } else {
        Err(String::from_str("Input value isn't a directory"))
    }
}

} // verus!
