//! Command-line facing values, stripped of any process state: the
//! caller parses its arguments and hands the result in as plain data.

use vstd::prelude::*;

verus! {

/// The one subcommand the tool understands, as plain data.
pub enum Command {
    PurgeOnline { path: Option<String> },
}

/// Parsed command-line arguments.
pub struct Args {
    pub command: Option<Command>,
}

/// The run is interactive exactly when no subcommand was given.
pub fn is_interactive(args: &Args) -> (r: bool)
    ensures
        r == (args.command is None),
{
    match args.command {
        None => true,
        Some(_) => false,
    }
}

/// Picks the history file path: an explicit path wins over the default.
pub fn get_path_input(cli_path: Option<String>, default_path: String) -> (r: String)
    ensures
        match cli_path {
            Some(p) => r@ == p@,
            None => r@ == default_path@,
        },
{
    match cli_path {
        Some(p) => p,
        None => default_path,
    }
}

} // verus!
