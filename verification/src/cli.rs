//! The commands that the tool understands, as plain values.

use vstd::prelude::*;
use crate::path::ProjectPath;

verus! {

/// What the user asked for.
#[derive(Debug, PartialEq, Eq)]
pub struct Cli {
    pub command: Commands,
}

/// The commands.
#[derive(Debug, PartialEq, Eq)]
pub enum Commands {
    /// Create a new project at `path`: its directory, a manifest that names
    /// it, a source directory and a first source file. Fails where `path`
    /// is taken.
    New { path: ProjectPath },
    /// Compile the project that the current directory belongs to.
    Build,
    /// Compile the project, then run its binary.
    Run,
}

} // verus!
