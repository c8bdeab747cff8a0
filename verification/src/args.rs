//! Command-line shape of the shell and the routing decision.
//!
//! Parsing the command line and performing a command both involve the
//! process boundary, so they live outside the library; the decision of
//! which command a parsed invocation asks for is made here.

use vstd::prelude::*;
use crate::config::Config;

verus! {

/// A parsed invocation of the shell.
#[derive(Clone, Debug)]
pub struct Args {
    /// Config directory.
    pub config_dir: Option<String>,
    /// Verbosity; may be raised up to three times.
    pub verbosity: u8,
    /// The subcommand asked for.
    pub command: Command,
}

/// The subcommands the shell offers.
#[derive(Clone, Copy, Debug, PartialEq, Eq, Structural)]
pub enum Command {
    /// Run the inference server.
    Serve(crate::serve::Args),
    /// Show information about the installation.
    Info,
}

/// Decides which command an invocation asks the shell to perform.
/// Performing it is the shell's (unverified) work.
pub fn route(config: &Config, options: Args) -> (cmd: Command)
    ensures
        cmd == options.command,
{
    let _ = config;
    options.command
}

} // verus!
