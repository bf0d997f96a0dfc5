//! Choosing the logging backend and its settings.

use vstd::prelude::*;

use crate::config::{LogLevel, LoggingOptions};

verus! {

/// The logger to install.
#[derive(Debug, Clone, Copy, PartialEq, Eq, Structural)]
pub enum LoggerSetup {
    /// The systemd journal. Where `max_level` is given, it becomes the
    /// highest level that is logged.
    Journald { max_level: Option<LogLevel> },
    /// The console, set up from the environment, with or without
    /// timestamps. Where `filter_level` is given, it is used for all
    /// messages in place of what the environment says.
    Console { timestamps: bool, filter_level: Option<LogLevel> },
}

/// The console logger that `config` describes.
pub open spec fn console_setup(config: LoggingOptions) -> LoggerSetup {
    LoggerSetup::Console {
        timestamps: !config.disable_timestamps.get(),
        filter_level: config.log_level,
    }
}

/// The journal logger that `config` describes.
pub open spec fn journald_setup(config: LoggingOptions) -> LoggerSetup {
    LoggerSetup::Journald { max_level: config.log_level }
}

/// The logger that `config` describes: the journal where it asks for it,
/// the console otherwise.
pub open spec fn logger_setup(config: LoggingOptions) -> LoggerSetup {
    if config.journald.get() {
        journald_setup(config)
    } else {
        console_setup(config)
    }
}

/// Says which logger to install for `config`, and how.
pub fn init_logging(config: &LoggingOptions) -> (setup: LoggerSetup)
    ensures
        setup == logger_setup(*config),
{
    if config.journald.get() {
        init_systemd_journal_logger(config)
    } else {
        init_env_logger(config)
    }
}

fn init_env_logger(config: &LoggingOptions) -> (setup: LoggerSetup)
    ensures
        setup == console_setup(*config),
{
    LoggerSetup::Console {
        timestamps: !config.disable_timestamps.get(),
        filter_level: config.log_level,
    }
}

fn init_systemd_journal_logger(config: &LoggingOptions) -> (setup: LoggerSetup)
    ensures
        setup == journald_setup(*config),
{
    LoggerSetup::Journald { max_level: config.log_level }
}

} // verus!
