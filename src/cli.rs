use vstd::prelude::*;

verus! {

/// What the program is asked to do.
#[derive(Clone, Copy, Debug, PartialEq, Eq, Structural)]
pub enum Command {
    /// Run the server.
    Run,
    /// Create or read the configuration and settings files, then exit.
    Files,
}

/// The command line.
#[derive(Clone, Debug, PartialEq, Eq)]
pub struct Args {
    /// Where the configuration file is, when not at its default place.
    pub config_path: Option<String>,
    pub subcommand: Command,
}

} // verus!
