//! Logging levels understood by the trace engine.

use vstd::prelude::*;
use crate::util::{is_word, lower_of, lowercase, rejection_message};
use core::str::FromStr;

verus! {

/// Severity threshold of the engine's own log output.
#[derive(Clone, Copy, PartialEq, Eq, Structural, PartialOrd, Ord, Hash, Debug)]
pub enum LoggingLevel {
    Trace,
    Debug,
    Info,
    Warn,
    Error,
    Fatal,
    /// No log output at all.
    Off,
}

impl Default for LoggingLevel {
    fn default() -> (r: Self)
        ensures
            r == LoggingLevel::Off,
    {
        LoggingLevel::Off
    }
}

impl LoggingLevel {
    /// The engine's numeric code of a level.
    pub open spec fn spec_native_level(self) -> i32 {
        match self {
            LoggingLevel::Trace => 1,
            LoggingLevel::Debug => 2,
            LoggingLevel::Info => 3,
            LoggingLevel::Warn => 4,
            LoggingLevel::Error => 5,
            LoggingLevel::Fatal => 6,
            LoggingLevel::Off => 0xff,
        }
    }

    /// The code that the engine expects for this level.
    pub fn native_level(&self) -> (r: i32)
        ensures
            r == self.spec_native_level(),
    {
        match self {
            LoggingLevel::Trace => 1,
            LoggingLevel::Debug => 2,
            LoggingLevel::Info => 3,
            LoggingLevel::Warn => 4,
            LoggingLevel::Error => 5,
            LoggingLevel::Fatal => 6,
            LoggingLevel::Off => 0xff,
        }
    }

    /// The lower-case name of a level.
    pub open spec fn spec_name(self) -> Seq<char> {
        match self {
            LoggingLevel::Trace => "trace"@,
            LoggingLevel::Debug => "debug"@,
            LoggingLevel::Info => "info"@,
            LoggingLevel::Warn => "warn"@,
            LoggingLevel::Error => "error"@,
            LoggingLevel::Fatal => "fatal"@,
            LoggingLevel::Off => "none"@,
        }
    }

    /// The lower-case name of this level, as shown to users.
    pub fn as_str(&self) -> (r: &'static str)
        ensures
            r@ == self.spec_name(),
    {
        match self {
            LoggingLevel::Trace => "trace",
            LoggingLevel::Debug => "debug",
            LoggingLevel::Info => "info",
            LoggingLevel::Warn => "warn",
            LoggingLevel::Error => "error",
            LoggingLevel::Fatal => "fatal",
            LoggingLevel::Off => "none",
        }
    }
}

impl LoggingLevel {
    /// The level that a lower-case name stands for: each level's name, and
    /// also `warning` and `err`.
    pub open spec fn spec_from_name(name: Seq<char>) -> Option<LoggingLevel> {
        if name == "trace"@ {
            Some(LoggingLevel::Trace)
        } else if name == "debug"@ {
            Some(LoggingLevel::Debug)
        } else if name == "info"@ {
            Some(LoggingLevel::Info)
        } else if name == "warn"@ || name == "warning"@ {
            Some(LoggingLevel::Warn)
        } else if name == "error"@ || name == "err"@ {
            Some(LoggingLevel::Error)
        } else if name == "fatal"@ {
            Some(LoggingLevel::Fatal)
        } else if name == "none"@ {
            Some(LoggingLevel::Off)
        } else {
            None
        }
    }

    /// The level of a lower-case name.
    pub fn from_name(name: &str) -> (r: Option<LoggingLevel>)
        ensures
            r == Self::spec_from_name(name@),
    {
        if is_word(name, "trace") {
            Some(LoggingLevel::Trace)
        } else if is_word(name, "debug") {
            Some(LoggingLevel::Debug)
        } else if is_word(name, "info") {
            Some(LoggingLevel::Info)
        } else if is_word(name, "warn") || is_word(name, "warning") {
            Some(LoggingLevel::Warn)
        } else if is_word(name, "error") || is_word(name, "err") {
            Some(LoggingLevel::Error)
        } else if is_word(name, "fatal") {
            Some(LoggingLevel::Fatal)
        } else if is_word(name, "none") {
            Some(LoggingLevel::Off)
        } else {
            None
        }
    }

    /// The level named by `s`, in any case.
    pub fn parse(s: &str) -> (r: Option<LoggingLevel>)
        ensures
            r == Self::spec_from_name(lower_of(s@)),
    {
        let lower = lowercase(s);
        Self::from_name(lower.as_str())
    }
}

impl FromStr for LoggingLevel {
    type Err = String;

    fn from_str(s: &str) -> Result<Self, Self::Err> {
        match Self::parse(s) {
            Some(l) => Ok(l),
            None => Err(rejection_message("'", s, "' is not a valid logging level")),
        }
    }
}

} // verus!
