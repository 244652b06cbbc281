//! What the program is started with.

use vstd::prelude::*;

verus! {

/// The command-line arguments.
#[derive(Debug, Clone)]
pub struct Cli {
    /// The command-line program to build.
    pub cmd: String,
}

/// The application's settings; none are defined yet.
#[derive(Debug, Clone, PartialEq, Eq, Structural)]
pub struct Settings {}

impl Default for Settings {
    fn default() -> (r: Self)
        ensures
            r == (Settings {}),
    {
        Settings {}
    }
}

} // verus!
