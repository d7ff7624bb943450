//! What the fabric logs, and how a record is written out.
//!
//! The rules are here: which records are let through and what a line looks
//! like. Installing the logger for the process is the caller's part.
use vstd::prelude::*;
use vstd::string::*;

verus! {

/// How serious a record is, most serious first.
#[derive(Debug, Clone, Copy, PartialEq, Eq)]
pub enum Level {
    Error,
    Warn,
    Info,
    Debug,
    Trace,
}

/// Up to which level records are wanted at all.
#[derive(Debug, Clone, Copy, PartialEq, Eq)]
pub enum LevelFilter {
    Off,
    Error,
    Warn,
    Info,
    Debug,
    Trace,
}

impl Level {
    /// The place of the level in the order: 1 for `Error` up to 5 for `Trace`.
    pub open spec fn rank(self) -> int {
        match self {
            Level::Error => 1,
            Level::Warn => 2,
            Level::Info => 3,
            Level::Debug => 4,
            Level::Trace => 5,
        }
    }

    /// The name of the level as a log line shows it.
    pub open spec fn label(self) -> Seq<char> {
        match self {
            Level::Error => "ERROR"@,
            Level::Warn => "WARN"@,
            Level::Info => "INFO"@,
            Level::Debug => "DEBUG"@,
            Level::Trace => "TRACE"@,
        }
    }

    /// The name of the level as a log line shows it.
    pub fn as_str(&self) -> (name: &'static str)
        ensures
            name@ == self.label(),
    {
        match self {
            Level::Error => "ERROR",
            Level::Warn => "WARN",
            Level::Info => "INFO",
            Level::Debug => "DEBUG",
            Level::Trace => "TRACE",
        }
    }
}

/// `log::set_max_level`: tells the `log` crate up to which level records are
/// to reach the logger at all.
#[verifier::external_body]
pub(crate) fn set_max_level(level: LevelFilter) {
    log::set_max_level(
        match level {
            LevelFilter::Off => log::LevelFilter::Off,
            LevelFilter::Error => log::LevelFilter::Error,
            LevelFilter::Warn => log::LevelFilter::Warn,
            LevelFilter::Info => log::LevelFilter::Info,
            LevelFilter::Debug => log::LevelFilter::Debug,
            LevelFilter::Trace => log::LevelFilter::Trace,
        },
    )
}

/// The fabric's logger: lets records through up to `Info` and writes each as
/// `[LEVEL] target: message`.
#[derive(Debug, Clone, Copy, PartialEq, Eq)]
pub struct FabricLogger;

/// The line for a record.
pub open spec fn log_line(level: Level, target: Seq<char>, message: Seq<char>) -> Seq<char> {
    "["@ + level.label() + "] "@ + target + ": "@ + message
}

impl FabricLogger {
    /// Whether a record of this level is let through.
    pub fn enabled(&self, level: Level) -> (through: bool)
        ensures
            through == (level.rank() <= Level::Info.rank()),
    {
        match level {
            Level::Error => true,
            Level::Warn => true,
            Level::Info => true,
            Level::Debug => false,
            Level::Trace => false,
        }
    }

    /// The line to print for a record, or `None` where the record is not let
    /// through.
    pub fn log(&self, level: Level, target: &str, message: &str) -> (line: Option<String>)
        ensures
            match line {
                Some(text) => level.rank() <= Level::Info.rank() && text@ == log_line(
                    level,
                    target@,
                    message@,
                ),
                None => level.rank() > Level::Info.rank(),
            },
    {
        if self.enabled(level) {
            let mut text = String::from_str("[");
            text.append(level.as_str());
            text.append("] ");
            text.append(target);
            text.append(": ");
            text.append(message);
            Some(text)
        } else {
            None
        }
    }

    /// There is nothing held back to write out.
    pub fn flush(&self) {
    }
}

/// Whether the process has its logger yet. A process holds one such value;
/// it stands for the rule that the logger is installed once.
pub struct LoggerSetup {
    installed: bool,
    max_level: LevelFilter,
}

impl LoggerSetup {
    /// Whether a logger has been handed out.
    pub closed spec fn installed(&self) -> bool {
        self.installed
    }

    /// The level that was asked for when the logger was handed out.
    pub closed spec fn max_level(&self) -> LevelFilter {
        self.max_level
    }

    /// The state of a process that has no logger yet.
    pub fn new() -> (setup: Self)
        ensures
            !setup.installed(),
    {
        LoggerSetup { installed: false, max_level: LevelFilter::Off }
    }

    /// Whether a logger has been handed out.
    pub fn is_installed(&self) -> (installed: bool)
        ensures
            installed == self.installed(),
    {
        self.installed
    }
}

/// Sets logging up, once: the first call sets the maximum level and hands out
/// the logger to install; every later call does nothing and hands out none.
pub fn init_logger(setup: &mut LoggerSetup, level: LevelFilter) -> (logger: Option<FabricLogger>)
    ensures
        final(setup).installed(),
        old(setup).installed() ==> logger is None,
        old(setup).installed() ==> final(setup).max_level() == old(setup).max_level(),
        !old(setup).installed() ==> logger is Some && final(setup).max_level() == level,
{
    if setup.installed {
        None
    } else {
        set_max_level(level);
        setup.installed = true;
        setup.max_level = level;
        Some(FabricLogger)
    }
}

} // verus!
