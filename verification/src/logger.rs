//! The console logger's verbosity rule.

use vstd::prelude::*;

verus! {

/// Log severity, most severe first, mirroring the five conventional levels.
#[derive(Clone, Copy, Debug, PartialEq, Eq, Structural)]
pub enum LogLevel {
    Error,
    Warn,
    Info,
    Debug,
    Trace,
}

/// Rank of a level: lower is more severe.
pub open spec fn level_rank(l: LogLevel) -> int {
    match l {
        LogLevel::Error => 0,
        LogLevel::Warn => 1,
        LogLevel::Info => 2,
        LogLevel::Debug => 3,
        LogLevel::Trace => 4,
    }
}

fn level_rank_exec(l: LogLevel) -> (r: u8)
    ensures
        r == level_rank(l),
{
    match l {
        LogLevel::Error => 0,
        LogLevel::Warn => 1,
        LogLevel::Info => 2,
        LogLevel::Debug => 3,
        LogLevel::Trace => 4,
    }
}

/// The console logger's state: the most verbose level it lets through.
/// Writing the records out is the shell's business, not decided here.
#[derive(Clone, Copy, Debug)]
pub struct ConsoleLogger {
    pub level: LogLevel,
}

impl ConsoleLogger {
    /// Raises or lowers the verbosity.
    pub fn set_log_level(&mut self, level: LogLevel)
        ensures
            final(self).level == level,
    {
        self.level = level;
    }

    /// Whether a record of severity `level` is logged at the current
    /// verbosity: everything at least as severe as the configured level is.
    pub fn enabled(&self, level: LogLevel) -> (r: bool)
        ensures
            r == (level_rank(level) <= level_rank(self.level)),
    {
        level_rank_exec(level) <= level_rank_exec(self.level)
    }
}

} // verus!
