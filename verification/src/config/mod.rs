//! The configuration: where the database lies and what is logged where.
//!
//! Reading the file and starting the logger are the caller's part. This
//! module holds the values and decides what is to be done with them.

use vstd::prelude::*;

verus! {

/// Where the database lies.
#[derive(Debug, Clone, PartialEq, Eq)]
pub struct Database {
    /// The path of the SQLite database.
    pub path: String,
}

/// What is logged, and where.
#[derive(Debug, Clone, PartialEq, Eq)]
pub struct Logger {
    /// Whether logging is on.
    pub enabled: bool,
    /// Whether the log is written to a file.
    pub write_logs: bool,
    /// Whether the log is printed to the terminal.
    pub print_logs: bool,
    /// The path of the log file.
    pub log_path: String,
}

/// The whole configuration.
#[derive(Debug, Clone, PartialEq, Eq)]
pub struct Config {
    pub database: Database,
    pub logger: Logger,
}

/// How much of the log a sink takes.
#[derive(Debug, Copy, Clone, PartialEq, Eq, Structural)]
pub enum LogLevel {
    Info,
    Debug,
}

/// A place that the log goes to.
#[derive(Debug, Clone, PartialEq, Eq)]
pub enum LogSink {
    /// A file, created anew at the given path.
    File { path: String, level: LogLevel },
    /// The terminal.
    Terminal { level: LogLevel },
}

/// A sink as a plain value.
pub enum LogSinkView {
    File { path: Seq<char>, level: LogLevel },
    Terminal { level: LogLevel },
}

impl DeepView for LogSink {
    type V = LogSinkView;

    open spec fn deep_view(&self) -> LogSinkView {
        match self {
            LogSink::File { path, level } => LogSinkView::File { path: path@, level: *level },
            LogSink::Terminal { level } => LogSinkView::Terminal { level: *level },
        }
    }
}

/// What starting the logger comes to.
#[derive(Debug, Clone, PartialEq, Eq)]
pub struct LogPlan {
    /// The sinks to open, in this order.
    pub sinks: Vec<LogSink>,
    /// Whether the sinks are then installed as the process's logger.
    pub install: bool,
}

/// The sinks of a configuration: the log file at `Info` where the log is
/// written, then the terminal at `Debug` where it is printed.
pub open spec fn log_sinks(write_logs: bool, print_logs: bool, log_path: Seq<char>) -> Seq<LogSinkView> {
    let file = if write_logs {
        seq![LogSinkView::File { path: log_path, level: LogLevel::Info }]
    } else {
        Seq::empty()
    };
    if print_logs {
        file.push(LogSinkView::Terminal { level: LogLevel::Debug })
    } else {
        file
    }
}

/// Decides how the logger is started. The sinks are opened whether or not
/// logging is on; they are installed only where it is.
pub fn init_log(config: &Logger) -> (plan: LogPlan)
    ensures
        plan.sinks.deep_view() == log_sinks(config.write_logs, config.print_logs, config.log_path@),
        plan.install == config.enabled,
{
    let mut sinks: Vec<LogSink> = Vec::new();
    if config.write_logs {
        sinks.push(LogSink::File { path: config.log_path.clone(), level: LogLevel::Info });
    }
    if config.print_logs {
        sinks.push(LogSink::Terminal { level: LogLevel::Debug });
    }
    assert(sinks.deep_view() =~= log_sinks(config.write_logs, config.print_logs, config.log_path@));
    LogPlan { sinks, install: config.enabled }
}

/// The address under which the database of `config` is opened: read and
/// write, created where it does not exist.
pub fn connection_url(config: &Database) -> (url: String)
    ensures
        url@ == "sqlite://"@ + config.path@ + "?mode=rwc"@,
{
    let mut url = String::from_str("sqlite://");
    url.append(config.path.as_str());
    url.append("?mode=rwc");
    url
}

} // verus!
