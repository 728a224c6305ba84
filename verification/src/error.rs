//! What can go wrong, and what the compiler has to say about a module.

use vstd::prelude::*;

verus! {

/// A failed operation.
#[derive(Debug, Clone, PartialEq, Eq)]
pub enum Error {
    /// The sources could not be parsed or type-checked.
    Compilation { message: String },
    /// The dependencies of the project could not be resolved.
    DependencyResolution { message: String },
    /// An outside program could not be run or failed.
    ShellCommand { program: String, reason: String },
}

/// A diagnostic that the compiler produced for a source file.
#[derive(Debug, Clone, PartialEq, Eq)]
pub struct Warning {
    pub path: String,
    pub message: String,
}

} // verus!
