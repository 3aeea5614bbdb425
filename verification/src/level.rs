//! Logging severity levels for the diagnostic sink.

use vstd::prelude::*;
use crate::errors::Code;
use crate::errors::Status;
use crate::text::str_eq;

verus! {

/// A logging level, from finest to most severe.
#[derive(Debug, Clone, Copy, PartialEq, Eq, PartialOrd, Ord, Structural)]
pub enum Level {
    /// Finer-grained informational events than `DebugLevel`.
    TraceLevel,
    /// Very verbose logging, usually only enabled when debugging.
    DebugLevel,
    /// The default logging priority: general operational entries.
    InfoLevel,
    /// Non-critical entries that deserve eyes.
    WarnLevel,
    /// Errors that should definitely be noted.
    ErrorLevel,
    /// The highest severity; the sink exits the process after logging.
    FatalLevel,
}

/// Severity rank of a level: higher means more severe.
pub open spec fn spec_level_rank(l: Level) -> int {
    match l {
        Level::TraceLevel => 0,
        Level::DebugLevel => 1,
        Level::InfoLevel => 2,
        Level::WarnLevel => 3,
        Level::ErrorLevel => 4,
        Level::FatalLevel => 5,
    }
}

/// The level a name stands for, if it is a known name.
pub open spec fn spec_level_of(s: Seq<char>) -> Option<Level> {
    if s == "trace"@ {
        Some(Level::TraceLevel)
    } else if s == "debug"@ {
        Some(Level::DebugLevel)
    } else if s == "info"@ {
        Some(Level::InfoLevel)
    } else if s == "warn"@ {
        Some(Level::WarnLevel)
    } else if s == "error"@ {
        Some(Level::ErrorLevel)
    } else if s == "fatal"@ {
        Some(Level::FatalLevel)
    } else {
        None
    }
}

/// The name of a level.
pub open spec fn spec_level_text(l: Level) -> Seq<char> {
    match l {
        Level::TraceLevel => "trace"@,
        Level::DebugLevel => "debug"@,
        Level::InfoLevel => "info"@,
        Level::WarnLevel => "warn"@,
        Level::ErrorLevel => "error"@,
        Level::FatalLevel => "fatal"@,
    }
}

impl Level {
    fn rank(&self) -> (r: i8)
        ensures
            r as int == spec_level_rank(*self),
    {
        match self {
            Level::TraceLevel => 0,
            Level::DebugLevel => 1,
            Level::InfoLevel => 2,
            Level::WarnLevel => 3,
            Level::ErrorLevel => 4,
            Level::FatalLevel => 5,
        }
    }

    /// Whether a message of level `lvl` is logged when this level is the
    /// sink's threshold: true exactly when `lvl` is at or above it.
    pub fn enabled(&self, lvl: &Level) -> (r: bool)
        ensures
            r == (spec_level_rank(*lvl) >= spec_level_rank(*self)),
    {
        lvl.rank() >= self.rank()
    }

    /// The level a name stands for; an unknown name is refused with a
    /// bad-request status.
    pub fn from(ls: &str) -> (r: Result<Level, Status>)
        ensures
            match r {
                Ok(l) => spec_level_of(ls@) == Some(l),
                Err(e) => spec_level_of(ls@) is None && e.code == Code::BadRequest,
            },
    {
        if str_eq(ls, "trace") {
            Ok(Level::TraceLevel)
        } else if str_eq(ls, "debug") {
            Ok(Level::DebugLevel)
        } else if str_eq(ls, "info") {
            Ok(Level::InfoLevel)
        } else if str_eq(ls, "warn") {
            Ok(Level::WarnLevel)
        } else if str_eq(ls, "error") {
            Ok(Level::ErrorLevel)
        } else if str_eq(ls, "fatal") {
            Ok(Level::FatalLevel)
        } else {
            Err(Status::bad_request("logger", "unknown level name"))
        }
    }

    /// The name of this level.
    pub fn to_str(&self) -> (r: &'static str)
        ensures
            r@ == spec_level_text(*self),
    {
        match self {
            Level::TraceLevel => "trace",
            Level::DebugLevel => "debug",
            Level::InfoLevel => "info",
            Level::WarnLevel => "warn",
            Level::ErrorLevel => "error",
            Level::FatalLevel => "fatal",
        }
    }
}

} // verus!
