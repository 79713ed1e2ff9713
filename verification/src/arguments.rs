//! The run-time flags the engine is driven with.

use vstd::prelude::*;

verus! {

/// The flags consumed from the command line: `debug` enables per-process
/// trace lines, `disable_proc_termination` is the dry-run switch (match
/// and report, but suppress the terminate call), `verbose` enables the
/// kill-intent and kill-success messages.
pub struct Arguments {
    pub debug: bool,
    pub disable_proc_termination: bool,
    pub verbose: bool,
}

impl core::default::Default for Arguments {
    /// Every flag starts switched off.
    fn default() -> (a: Arguments)
        ensures
            !a.debug,
            !a.disable_proc_termination,
            !a.verbose,
    {
        Arguments { debug: false, disable_proc_termination: false, verbose: false }
    }
}

} // verus!
