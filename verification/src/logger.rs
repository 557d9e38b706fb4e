//! One-time set-up of logging.
//!
//! Installing a log writer touches the file system and the whole process, so
//! it is the application's to do. What is decided here is whether it still has
//! to be done and with which settings: the first call hands out the plan, every
//! later call hands out nothing.

use vstd::prelude::*;

verus! {

/// The least severe level that is still written.
#[derive(Clone, Copy, Debug, PartialEq, Eq, Structural)]
pub enum LogLevel {
    Error,
    Warn,
    Info,
    Debug,
    Trace,
}

/// When the log file is replaced by a new one.
#[derive(Clone, Copy, Debug, PartialEq, Eq, Structural)]
pub enum Rotation {
    Daily,
}

/// The settings of the log writer.
#[derive(Clone, Debug)]
pub struct LoggerPlan {
    /// The directory of the log files, created if it is missing.
    pub directory: String,
    /// The name that each log file starts with.
    pub file_name: String,
    pub rotation: Rotation,
    pub level: LogLevel,
    /// The first line written once the writer is installed.
    pub greeting: String,
}

impl LoggerPlan {
    /// The one plan this library hands out.
    pub open spec fn is_standard(&self) -> bool {
        &&& self.directory@ == "logs"@
        &&& self.file_name@ == "aarambh-net.log"@
        &&& self.rotation == Rotation::Daily
        &&& self.level == LogLevel::Info
        &&& self.greeting@ == "Logger initialized successfully!"@
    }

    pub fn standard() -> (plan: Self)
        ensures
            plan.is_standard(),
    {
        LoggerPlan {
            directory: "logs".to_string(),
            file_name: "aarambh-net.log".to_string(),
            rotation: Rotation::Daily,
            level: LogLevel::Info,
            greeting: "Logger initialized successfully!".to_string(),
        }
    }
}

/// Remembers whether logging was set up. An application keeps one of these
/// for the whole process.
#[derive(Debug)]
pub struct LoggerOnce {
    done: bool,
}

impl LoggerOnce {
    pub closed spec fn is_done(&self) -> bool {
        self.done
    }

    /// Nothing set up yet.
    pub fn new() -> (once: Self)
        ensures
            !once.is_done(),
    {
        LoggerOnce { done: false }
    }

    #[verifier::when_used_as_spec(is_done)]
    pub fn done(&self) -> (done: bool)
        ensures
            done == self.is_done(),
    {
        self.done
    }
}

/// Says whether logging has to be set up now: the first call on `once`
/// returns the plan to carry out, every later call returns `None`.
pub fn init_logger(once: &mut LoggerOnce) -> (plan: Option<LoggerPlan>)
    ensures
        final(once).is_done(),
        plan is Some <==> !old(once).is_done(),
        plan matches Some(p) ==> p.is_standard(),
{
    if once.done {
        None
    } else {
        once.done = true;
        Some(LoggerPlan::standard())
    }
}

} // verus!
