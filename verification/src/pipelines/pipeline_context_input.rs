//! Which path an action works on.

use vstd::prelude::*;

verus! {

/// The path an action takes as its input.
#[derive(Clone, Copy, PartialEq, Eq, Structural, Debug)]
pub enum PipelineContextInput {
    /// The file whose event started the pipeline.
    EventFilePath,
    /// The file the previous action produced.
    ActionFilePath,
}

} // verus!
