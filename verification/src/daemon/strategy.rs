//! A configuration that chooses a mapping status strategy:
//! whether the mapping of handled directories is kept in a file, and whether
//! the handlers it names are started again when the service starts.

use vstd::prelude::*;
use crate::daemon::mapping::{dirs, Mapping};
use crate::messages::StartHandlerRequest;

verus! {

/// What the service does with its mapping of handled directories.
pub enum MappingStatusStrategy {
    /// The mapping lives in memory only (the configuration text names it `None`).
    Unsaved,
    /// Registered handlers are saved to the mapping file.
    Save,
    /// As `Save`, and on startup the registered handlers are started.
    Continue,
}

/// The configuration of that format.
pub struct Config {
    pub mapping_state_path: String,
    pub mapping_status_strategy: MappingStatusStrategy,
}

impl MappingStatusStrategy {
    /// Whether the mapping is read from and written to the mapping file.
    pub fn keeps_mapping_file(&self) -> (b: bool)
        ensures
            b == !(*self is Unsaved),
    {
        match self {
            MappingStatusStrategy::Unsaved => false,
            MappingStatusStrategy::Save => true,
            MappingStatusStrategy::Continue => true,
        }
    }

    /// Whether the registered handlers are started when the service starts.
    pub fn restarts_handlers(&self) -> (b: bool)
        ensures
            b == (*self is Continue),
    {
        match self {
            MappingStatusStrategy::Continue => true,
            _ => false,
        }
    }
}

impl Mapping {
    /// The start requests sent when the service starts: one per registered
    /// directory, in entry order, under the `Continue` strategy; none otherwise.
    pub fn startup_requests(&self, strategy: &MappingStatusStrategy) -> (r: Vec<StartHandlerRequest>)
        ensures
            strategy is Continue ==> r@.map_values(|q: StartHandlerRequest| q.directory_path@) == dirs(self.entries()),
            !(strategy is Continue) ==> r@.len() == 0,
    {
        let mut r: Vec<StartHandlerRequest> = Vec::new();
        if strategy.restarts_handlers() {
            let mut i: usize = 0;
            while i < self.directory_mapping.len()
                invariant
                    i <= self.entries().len(),
                    r@.map_values(|q: StartHandlerRequest| q.directory_path@) == dirs(self.entries()).take(i as int),
                decreases self.entries().len() - i,
            {
                let ghost before = r@;
                let d = self.directory_mapping[i].0.clone();
                let ghost dv = d@;
                assert(dv == dirs(self.entries())[i as int]);
                r.push(StartHandlerRequest { directory_path: d });
                assert(r@.map_values(|q: StartHandlerRequest| q.directory_path@) =~= before.map_values(
                    |q: StartHandlerRequest| q.directory_path@,
                ).push(dv));
                assert(r@.map_values(|q: StartHandlerRequest| q.directory_path@) =~= dirs(self.entries()).take(i + 1));
                i = i + 1;
            }
            assert(dirs(self.entries()).take(self.entries().len() as int) =~= dirs(self.entries()));
        }
        r
    }
}

} // verus!
