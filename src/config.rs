//! The settings that the command-line flags select.
use vstd::prelude::*;

verus! {

/// Settings for one run, fixed once the flags are read.
pub struct SrapConfig {
    /// Append to every well-known POSIX shell file, and to `file` if set.
    pub all: bool,
    /// Compute everything but write nothing.
    pub dryrun: bool,
    /// A target file named on the command line; empty when none was given.
    pub file: String,
    /// Print status lines without ANSI colours.
    pub nocolor: bool,
    /// Print diagnostic lines.
    pub verbose: bool,
}

impl SrapConfig {
    /// Every flag off and no file named.
    pub fn new_default() -> (r: SrapConfig)
        ensures
            !r.all,
            !r.dryrun,
            r.file@ == Seq::<char>::empty(),
            !r.nocolor,
            !r.verbose,
    {
        SrapConfig { all: false, dryrun: false, file: String::new(), nocolor: false, verbose: false }
    }
}

} // verus!
