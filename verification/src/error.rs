//! What can stop the resolution of a configuration.

use crate::number::{decimal_text, integer_to_string, natural_text, natural_to_string};
use vstd::prelude::*;

verus! {

/// How long a program may run, and the status it leaves with when it ran longer.
#[derive(Debug, Clone, Copy, PartialEq, Eq, Structural)]
pub struct RunLimit {
    pub seconds: u64,
    pub status: i32,
}

/// An error of configuration. Each one is final: no snapshot is made.
#[derive(Debug, PartialEq, Eq)]
pub enum ConfigError {
    /// A variable holds a value that is none of the type its setting has.
    MalformedValue { variable: String, value: String, target: String },
    /// A keyed variable gives one key twice; `existing` is what the key had.
    DuplicateDefinition { variable: String, key: String, existing: RunLimit },
    /// A file could not be probed, for a reason other than its absence.
    FilesystemProbeFailure { path: String },
    /// The resolution needs to know of a file whose probe was not handed in.
    ProbeNotMade { path: String },
}

/// A `ConfigError` over plain sequences of characters.
pub enum Failure {
    MalformedValue { variable: Seq<char>, value: Seq<char>, target: Seq<char> },
    DuplicateDefinition { variable: Seq<char>, key: Seq<char>, existing: RunLimit },
    FilesystemProbeFailure { path: Seq<char> },
    ProbeNotMade { path: Seq<char> },
}

impl View for ConfigError {
    type V = Failure;

    open spec fn view(&self) -> Failure {
        match self {
            ConfigError::MalformedValue { variable, value, target } => Failure::MalformedValue {
                variable: variable@,
                value: value@,
                target: target@,
            },
            ConfigError::DuplicateDefinition { variable, key, existing } => {
                Failure::DuplicateDefinition { variable: variable@, key: key@, existing: *existing }
            },
            ConfigError::FilesystemProbeFailure { path } => Failure::FilesystemProbeFailure {
                path: path@,
            },
            ConfigError::ProbeNotMade { path } => Failure::ProbeNotMade { path: path@ },
        }
    }
}

impl Failure {
    /// The diagnostic of the failure: it names the variable, the value and the
    /// type asked for, or the key and what it already had, or the path.
    pub open spec fn message(self) -> Seq<char> {
        match self {
            Failure::MalformedValue { variable, value, target } => variable
                + ": cannot convert '"@ + value + "' to "@ + target,
            Failure::DuplicateDefinition { variable, key, existing } => variable + ": '"@ + key
                + "' already defined as {duration:"@ + natural_text(existing.seconds as nat)
                + "s, status:"@ + decimal_text(existing.status as int) + "}"@,
            Failure::FilesystemProbeFailure { path } => "cannot probe '"@ + path + "'"@,
            Failure::ProbeNotMade { path } => "no probe was made of '"@ + path + "'"@,
        }
    }
}

impl ConfigError {
    /// The diagnostic to print before the process ends.
    pub fn message(&self) -> (r: String)
        ensures
            r@ == self@.message(),
    {
        match self {
            ConfigError::MalformedValue { variable, value, target } => {
                let r = variable.clone().concat(": cannot convert '").concat(value.as_str()).concat(
                    "' to ",
                ).concat(target.as_str());
                r
            },
            ConfigError::DuplicateDefinition { variable, key, existing } => {
                let seconds = natural_to_string(existing.seconds);
                let status = integer_to_string(existing.status as i64);
                let r = variable.clone().concat(": '").concat(key.as_str()).concat(
                    "' already defined as {duration:",
                ).concat(seconds.as_str()).concat("s, status:").concat(status.as_str()).concat("}");
                r
            },
            ConfigError::FilesystemProbeFailure { path } => {
                let r = "cannot probe '".to_owned().concat(path.as_str()).concat("'");
                r
            },
            ConfigError::ProbeNotMade { path } => {
                let r = "no probe was made of '".to_owned().concat(path.as_str()).concat("'");
                r
            },
        }
    }
}

} // verus!
