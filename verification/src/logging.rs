//! The parts of a log line. Printing them, with colours and the time of day,
//! is left to the program.

use vstd::prelude::*;
use vstd::string::StringExecFns;

verus! {

/// How much a message matters.
#[derive(Clone, Copy, Debug, PartialEq, Eq, Structural)]
pub enum LogLevel {
    Debug,
    Info,
    Warn,
    Error,
}

/// The word that stands for a level in a log line.
pub open spec fn level_label(level: LogLevel) -> Seq<char> {
    match level {
        LogLevel::Debug => "DEBUG"@,
        LogLevel::Info => "INFO"@,
        LogLevel::Warn => "WARN"@,
        LogLevel::Error => "ERROR"@,
    }
}

impl LogLevel {
    /// The word that stands for this level in a log line.
    pub fn label(&self) -> (label: &'static str)
        ensures
            label@ == level_label(*self),
    {
        match self {
            LogLevel::Debug => "DEBUG",
            LogLevel::Info => "INFO",
            LogLevel::Warn => "WARN",
            LogLevel::Error => "ERROR",
        }
    }

    /// Whether messages of this level are printed: all are, but those for
    /// debugging only by a debug build.
    pub fn is_printed(&self, debug_build: bool) -> (printed: bool)
        ensures
            printed == (debug_build || *self != LogLevel::Debug),
    {
        match self {
            LogLevel::Debug => debug_build,
            _ => true,
        }
    }
}

/// How a log line names the program's version: a debug build is `dev`, a
/// release build `v` and its version.
pub fn version_label(version: &str, debug_build: bool) -> (label: String)
    ensures
        label@ == (if debug_build {
            "dev"@
        } else {
            "v"@ + version@
        }),
{
    if debug_build {
        String::from_str("dev")
    } else {
        String::from_str("v").concat(version)
    }
}

/// How a log line names the module that speaks: in square brackets.
pub fn module_label(module: &str) -> (label: String)
    ensures
        label@ == "["@ + module@ + "]"@,
{
    String::from_str("[").concat(module).concat("]")
}

} // verus!
