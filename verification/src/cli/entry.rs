//! The name the tool is invoked by and the plugin it runs by default.

use vstd::prelude::*;
use vstd::string::StringExecFns;

verus! {

/// The name the tool is invoked by.
pub const BIN_NAME: &'static str = "spin let";

/// The plugin run when none is named.
pub const DEFAULT_SPINLET: &'static str = "shell";

/// The command line: the plugin to run.
pub struct Args {
    pub spinlet: String,
}

impl Args {
    /// The command line naming `spinlet`.
    pub fn new(spinlet: String) -> (r: Self)
        ensures
            r.spinlet@ == spinlet@,
    {
        Args { spinlet }
    }

    /// The command line that names no plugin: it runs the default one.
    pub fn default() -> (r: Self)
        ensures
            r.spinlet@ == DEFAULT_SPINLET@,
    {
        Args { spinlet: String::from_str(DEFAULT_SPINLET) }
    }
}

} // verus!
