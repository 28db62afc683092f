//! Log levels and which of them are shown.
use vstd::prelude::*;

verus! {

#[derive(Debug, Clone, Copy, PartialEq, Eq, Structural)]
pub enum LogLevel {
    /// Output meant for the user; always shown.
    Normal,
    Error,
    Info,
    Debug,
}

/// Which of the diagnostic levels are switched on.
#[derive(Debug, Clone, Copy, PartialEq, Eq, Structural)]
pub struct LogGates {
    pub error: bool,
    pub info: bool,
    pub debug: bool,
}

pub open spec fn shown(level: LogLevel, gates: LogGates) -> bool {
    match level {
        LogLevel::Normal => true,
        LogLevel::Error => gates.error,
        LogLevel::Info => gates.info,
        LogLevel::Debug => gates.debug,
    }
}

impl LogLevel {
    /// Whether a line of this level is printed under `gates`.
    pub fn is_shown(&self, gates: LogGates) -> (r: bool)
        ensures
            r == shown(*self, gates),
    {
        match self {
            LogLevel::Normal => true,
            LogLevel::Error => gates.error,
            LogLevel::Info => gates.info,
            LogLevel::Debug => gates.debug,
        }
    }

    pub fn name(&self) -> (r: &'static str)
        ensures
            r@ == match *self {
                LogLevel::Normal => "Normal"@,
                LogLevel::Error => "Error"@,
                LogLevel::Info => "Info"@,
                LogLevel::Debug => "Debug"@,
            },
    {
        match self {
            LogLevel::Normal => "Normal",
            LogLevel::Error => "Error",
            LogLevel::Info => "Info",
            LogLevel::Debug => "Debug",
        }
    }
}

} // verus!
