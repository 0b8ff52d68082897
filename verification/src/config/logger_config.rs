//! Logging settings. The level is kept as its configuration string and
//! mapped to the closed level set on demand.

use vstd::prelude::*;

use crate::text::str_eq;

verus! {

#[derive(Clone, Copy, PartialEq, Eq, Structural, Debug)]
pub enum LogLevel {
    Trace,
    Debug,
    Info,
    Warn,
    Error,
}

pub struct LoggerConfig {
    pub enabled: bool,
    pub level: String,
}

impl LoggerConfig {
    /// The level string must be one of the five recognized names.
    pub open spec fn level_valid(&self) -> bool {
        self.level@ == "TRACE"@ || self.level@ == "DEBUG"@ || self.level@ == "INFO"@
            || self.level@ == "WARN"@ || self.level@ == "ERROR"@
    }

    pub fn new(enabled: bool, level: String) -> (c: LoggerConfig)
        ensures
            c == (LoggerConfig { enabled, level }),
    {
        LoggerConfig { enabled, level }
    }

    pub fn enabled(&self) -> (r: bool)
        ensures
            r == self.enabled,
    {
        self.enabled
    }

    pub fn level(&self) -> (r: LogLevel)
        requires
            self.level_valid(),
        ensures
            self.level@ == "TRACE"@ ==> r == LogLevel::Trace,
            self.level@ == "DEBUG"@ ==> r == LogLevel::Debug,
            self.level@ == "INFO"@ ==> r == LogLevel::Info,
            self.level@ == "WARN"@ ==> r == LogLevel::Warn,
            self.level@ == "ERROR"@ ==> r == LogLevel::Error,
    {
        proof {
            reveal_strlit("TRACE");
            reveal_strlit("DEBUG");
            reveal_strlit("INFO");
            reveal_strlit("WARN");
            reveal_strlit("ERROR");
            assert("TRACE"@.len() == 5 && "DEBUG"@.len() == 5 && "INFO"@.len() == 4 && "WARN"@.len()
                == 4 && "ERROR"@.len() == 5);
            assert("TRACE"@[0] == 'T' && "DEBUG"@[0] == 'D' && "ERROR"@[0] == 'E');
            assert("INFO"@[0] == 'I' && "WARN"@[0] == 'W');
        }
        if str_eq(self.level.as_str(), "TRACE") {
            LogLevel::Trace
        } else if str_eq(self.level.as_str(), "DEBUG") {
            LogLevel::Debug
        } else if str_eq(self.level.as_str(), "INFO") {
            LogLevel::Info
        } else if str_eq(self.level.as_str(), "WARN") {
            LogLevel::Warn
        } else {
            LogLevel::Error
        }
    }
}

} // verus!
