//! A server configuration that says whether handling resumes on startup.

use vstd::prelude::*;

verus! {

/// A server configuration.
pub struct Config {
    /// Whether the server, when it starts, goes on handling the directories
    /// it handled before; the mapping file keeps them.
    pub continue_on_startup: bool,
}

} // verus!
