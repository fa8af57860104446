use vstd::prelude::*;

verus! {

/// The subcommands of the command line.
#[derive(Clone, Copy, Debug, PartialEq, Eq, Structural)]
pub enum Commands {
    /// Run the sampling loop.
    Start,
    /// Show the most recent samples.
    List,
    /// Render the map of all samples and open it.
    ShowMap,
    /// Show the effective settings.
    Config,
}

/// A parsed command line.
#[derive(Clone, Copy, Debug, PartialEq, Eq, Structural)]
pub struct Cli {
    pub command: Commands,
}

} // verus!
