//! What the command line asks for.

use vstd::prelude::*;

verus! {

/// The number of rows shown when the command line names no limit.
pub const DEFAULT_LIMIT: usize = 50;

/// The format of a table on storage.
#[derive(Copy, Clone, Debug, PartialEq, Eq, PartialOrd, Ord, Hash, Structural)]
pub enum Format {
    /// A directory of Parquet files, without transaction metadata.
    Parquet,
    /// A Delta table: its state is read from a transaction log.
    Delta,
}

/// How much the program logs.
#[derive(Copy, Clone, Debug, PartialEq, Eq, PartialOrd, Ord, Hash, Structural)]
pub enum LogLevel {
    Off,
    Info,
    Debug,
}

/// The most verbose level of messages that a logger lets through.
#[derive(Copy, Clone, Debug, PartialEq, Eq, PartialOrd, Ord, Hash, Structural)]
pub enum LevelFilter {
    Off,
    Error,
    Warn,
    Info,
    Debug,
    Trace,
}

/// What to do with a table.
#[derive(Clone, Debug, PartialEq, Eq)]
pub enum Commands {
    /// View (and export) a table.
    View {
        table_path: String,
        format: Format,
        query: String,
        limit: usize,
        partitions: Option<String>,
        no_tui: bool,
        output_path: Option<String>,
    },
    /// Print a table's schema.
    Schema { table_path: String, format: Format, partitions: Option<String>, no_tui: bool },
    /// Print the plans of a query, as parsed and as optimized.
    Explain {
        table_path: String,
        format: Format,
        query: String,
        limit: usize,
        partitions: Option<String>,
    },
    /// Run the statements of a script.
    Execute { sql_file: String },
}

/// A parsed command line.
#[derive(Clone, Debug, PartialEq, Eq)]
pub struct Cli {
    log_level: LogLevel,
    pub command: Commands,
}

impl Cli {
    /// The logger's setting for a log level: none at all for `Off`.
    pub open spec fn spec_level_filter(level: LogLevel) -> Option<LevelFilter> {
        match level {
            LogLevel::Off => None,
            LogLevel::Info => Some(LevelFilter::Info),
            LogLevel::Debug => Some(LevelFilter::Debug),
        }
    }

    /// The log level that the command line chose.
    pub closed spec fn spec_log_level(&self) -> LogLevel {
        self.log_level
    }

    /// The command that the command line chose.
    pub closed spec fn spec_command(&self) -> Commands {
        self.command
    }

    /// A command line with the given log level and command.
    pub fn new(log_level: LogLevel, command: Commands) -> (cli: Cli)
        ensures
            cli.spec_log_level() == log_level,
            cli.spec_command() == command,
    {
        Cli { log_level, command }
    }

    /// The log level that the command line chose.
    pub fn log_level(&self) -> (level: LogLevel)
        ensures
            level == self.spec_log_level(),
    {
        self.log_level
    }

    /// The level at which the logger is to be set up, or `None` where the
    /// program is to run without a logger.
    pub fn get_log_level(&self) -> (level: Option<LevelFilter>)
        ensures
            level == Cli::spec_level_filter(self.spec_log_level()),
    {
        match self.log_level {
            LogLevel::Off => None,
            LogLevel::Info => Some(LevelFilter::Info),
            LogLevel::Debug => Some(LevelFilter::Debug),
        }
    }
}

} // verus!
