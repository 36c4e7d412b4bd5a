//! Logging settings: the level and the parts of each line, and the filter
//! that the level gives when the environment sets none.

use vstd::prelude::*;
use vstd::string::*;

use crate::text::owned;

verus! {

/// How much is logged.
#[derive(Debug, Clone, Copy, PartialEq, Eq, Structural)]
pub enum LogLevel {
    Trace,
    Debug,
    Info,
    Warn,
    Error,
}

/// The level's name as log filters write it.
pub open spec fn level_name(l: LogLevel) -> Seq<char> {
    match l {
        LogLevel::Trace => "TRACE"@,
        LogLevel::Debug => "DEBUG"@,
        LogLevel::Info => "INFO"@,
        LogLevel::Warn => "WARN"@,
        LogLevel::Error => "ERROR"@,
    }
}

impl LogLevel {
    /// The level's name.
    pub fn as_str(&self) -> (r: &'static str)
        ensures
            r@ == level_name(*self),
    {
        match self {
            LogLevel::Trace => "TRACE",
            LogLevel::Debug => "DEBUG",
            LogLevel::Info => "INFO",
            LogLevel::Warn => "WARN",
            LogLevel::Error => "ERROR",
        }
    }
}

/// How log lines are written.
#[derive(Debug, Clone, Copy, PartialEq, Eq, Structural)]
pub struct LogConfig {
    pub level: LogLevel,
    /// Whether a line names its module.
    pub with_target: bool,
    /// Whether a line names its file and line.
    pub with_file: bool,
    /// Whether a line names its thread.
    pub with_thread_ids: bool,
    /// Whether lines are colored.
    pub with_ansi: bool,
}

impl Default for LogConfig {
    fn default() -> (r: Self)
        ensures
            r == (LogConfig {
                level: LogLevel::Info,
                with_target: true,
                with_file: false,
                with_thread_ids: false,
                with_ansi: true,
            }),
    {
        LogConfig { level: LogLevel::Info, with_target: true, with_file: false, with_thread_ids: false, with_ansi: true }
    }
}

impl LogConfig {
    /// Everything from debug up, with module, file, line and thread, in
    /// color.
    pub fn development() -> (r: LogConfig)
        ensures
            r == (LogConfig {
                level: LogLevel::Debug,
                with_target: true,
                with_file: true,
                with_thread_ids: true,
                with_ansi: true,
            }),
    {
        LogConfig { level: LogLevel::Debug, with_target: true, with_file: true, with_thread_ids: true, with_ansi: true }
    }

    /// From info up, bare lines without color.
    pub fn production() -> (r: LogConfig)
        ensures
            r == (LogConfig {
                level: LogLevel::Info,
                with_target: false,
                with_file: false,
                with_thread_ids: false,
                with_ansi: false,
            }),
    {
        LogConfig { level: LogLevel::Info, with_target: false, with_file: false, with_thread_ids: false, with_ansi: false }
    }

    /// The filter used when the environment sets none: the level for the
    /// application and each of its crates.
    pub fn default_filter(&self) -> (r: String)
        ensures
            ({
                let l = level_name(self.level);
                r@ == "zeterm="@ + l + ",zeterm_core="@ + l + ",zeterm_mock="@ + l + ",zeterm_ssh="@ + l
                    + ",zeterm_storage="@ + l
            }),
    {
        let l = self.level.as_str();
        let mut s = owned("zeterm=");
        s.append(l);
        s.append(",zeterm_core=");
        s.append(l);
        s.append(",zeterm_mock=");
        s.append(l);
        s.append(",zeterm_ssh=");
        s.append(l);
        s.append(",zeterm_storage=");
        s.append(l);
        s
    }
}

} // verus!
