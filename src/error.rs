//! What can go wrong in the tool.
use vstd::prelude::*;

verus! {

/// An error of the tool; each carries a message for the user.
#[derive(Clone, Debug)]
pub enum WtdError {
    /// The host has no per-user configuration directory.
    ConfigDirUnavailable(String),
    /// A file could not be read, written or created.
    Io(String),
    /// A configuration file or a manifest does not parse.
    Parse(String),
    /// A template, or the directory of templates, is missing.
    NotFound(String),
    /// A template of that name exists already.
    AlreadyExists(String),
    /// The terminal prompt failed, or its answer is out of range.
    Interaction(String),
}

impl WtdError {
    /// The message for the user.
    pub fn message(&self) -> (r: &String)
        ensures
            match self {
                WtdError::ConfigDirUnavailable(m) => r == m,
                WtdError::Io(m) => r == m,
                WtdError::Parse(m) => r == m,
                WtdError::NotFound(m) => r == m,
                WtdError::AlreadyExists(m) => r == m,
                WtdError::Interaction(m) => r == m,
            },
    {
        match self {
            WtdError::ConfigDirUnavailable(m) => m,
            WtdError::Io(m) => m,
            WtdError::Parse(m) => m,
            WtdError::NotFound(m) => m,
            WtdError::AlreadyExists(m) => m,
            WtdError::Interaction(m) => m,
        }
    }
}

} // verus!
