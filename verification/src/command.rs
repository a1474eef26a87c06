use vstd::prelude::*;

use crate::cli::{Command, GlobalOpts, Root};

verus! {

/// The severity of a log message, most severe first.
#[derive(PartialEq, Eq, Structural, Clone, Copy, Debug)]
pub enum LogLevel {
    Error,
    Warn,
    Info,
    Debug,
    Trace,
}

/// The rank of a level: 1 for `Error` up to 5 for `Trace`; lower is more
/// severe.
pub open spec fn level_rank(level: LogLevel) -> int {
    match level {
        LogLevel::Error => 1,
        LogLevel::Warn => 2,
        LogLevel::Info => 3,
        LogLevel::Debug => 4,
        LogLevel::Trace => 5,
    }
}

/// The name under which a level is printed.
pub open spec fn level_name(level: LogLevel) -> Seq<char> {
    match level {
        LogLevel::Error => "ERROR"@,
        LogLevel::Warn => "WARN"@,
        LogLevel::Info => "INFO"@,
        LogLevel::Debug => "DEBUG"@,
        LogLevel::Trace => "TRACE"@,
    }
}

/// The most verbose level that is let through; `Off` lets nothing through.
#[derive(PartialEq, Eq, Structural, Clone, Copy, Debug)]
pub enum LevelFilter {
    Off,
    Error,
    Warn,
    Info,
    Debug,
    Trace,
}

/// The logger of the command line tool: it prints messages of level `Info`
/// and more severe.
pub struct Logger;

impl Logger {
    /// Whether a message of `level` is printed.
    pub fn enabled(&self, level: LogLevel) -> (b: bool)
        ensures
            b == (level_rank(level) <= level_rank(LogLevel::Info)),
    {
        match level {
            LogLevel::Error | LogLevel::Warn | LogLevel::Info => true,
            LogLevel::Debug | LogLevel::Trace => false,
        }
    }

    /// The line printed for a message, `LEVEL - message`, or `None` when the
    /// level is not printed.
    pub fn log(&self, level: LogLevel, message: &str) -> (line: Option<String>)
        ensures
            line is Some <==> level_rank(level) <= level_rank(LogLevel::Info),
            line matches Some(l) ==> l@ == level_name(level) + " - "@ + message@,
    {
        if !self.enabled(level) {
            return None;
        }
        let mut line = match level {
            LogLevel::Error => String::from_str("ERROR"),
            LogLevel::Warn => String::from_str("WARN"),
            LogLevel::Info => String::from_str("INFO"),
            LogLevel::Debug => String::from_str("DEBUG"),
            LogLevel::Trace => String::from_str("TRACE"),
        };
        line.append(" - ");
        line.append(message);
        Some(line)
    }
}

/// The level filter the tool starts with: `Debug` when debugging is asked
/// for, `Error` otherwise.
pub fn log_level_filter(opts: &GlobalOpts) -> (f: LevelFilter)
    ensures
        f == (if opts.debug {
            LevelFilter::Debug
        } else {
            LevelFilter::Error
        }),
{
    if opts.debug {
        LevelFilter::Debug
    } else {
        LevelFilter::Error
    }
}

/// Decides how the command of `cli` runs: the context in which its failure
/// is reported, or `None` for the test harness, which does nothing.
pub fn run(cli: &Root) -> (context: Option<String>)
    ensures
        match cli.command {
            Command::Test {  } => context is None,
            Command::Add(_) => context matches Some(c) && c@ == "Failed to add dependency"@,
            Command::Sync(_) => context matches Some(c) && c@ == "Failed to sync dependencies"@,
            Command::Check(_) => context matches Some(c) && c@ == "Failed to check dependencies"@,
        },
{
    match &cli.command {
        Command::Test {  } => None,
        Command::Add(_) => Some(String::from_str("Failed to add dependency")),
        Command::Sync(_) => Some(String::from_str("Failed to sync dependencies")),
        Command::Check(_) => Some(String::from_str("Failed to check dependencies")),
    }
}

} // verus!
