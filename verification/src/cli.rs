//! The command line: an optional subcommand; `diag --quick` asks for the
//! text-only diagnosis instead of the terminal interface.
use vstd::prelude::*;

verus! {

/// The parsed command line.
#[derive(Debug, Clone, Copy, PartialEq, Eq, Structural)]
pub struct Cli {
    pub command: Option<Commands>,
}

/// The subcommands.
#[derive(Debug, Clone, Copy, PartialEq, Eq, Structural)]
pub enum Commands {
    /// Network diagnosis; `quick` prints the results as text.
    Diag { quick: bool },
}

impl Cli {
    /// Whether the command line asks for the text-only diagnosis.
    pub fn quick_diag(&self) -> (r: bool)
        ensures
            r == (self.command == Some(Commands::Diag { quick: true })),
    {
        match self.command {
            Some(Commands::Diag { quick }) => quick,
            None => false,
        }
    }
}

} // verus!
