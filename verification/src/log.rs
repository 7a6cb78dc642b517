//! The settings and the entry points.
//!
//! The configuration is shared by the whole process and the display name
//! belongs to one thread; both are handed in by the caller, who keeps the first
//! behind a lock and the second in the thread's own storage.

use vstd::prelude::*;
use vstd::string::*;
use crate::clock::is_timestamp;
use crate::level::Level;
use crate::line::{make_owner_field, owner_field};
use crate::logger::{Emission, Logger};

verus! {

/// Settings functions for log.
pub struct Log;

impl Log {
    /// Set log level.
    /// By default, the log level is `Info`.
    pub fn set_level(logger: &mut Logger, level: Level)
        ensures
            final(logger).threshold() == level,
            final(logger).destination() == old(logger).destination(),
    {
        logger.set_level(level);
    }

    /// Set log output file.
    /// By default, logs are output to the console.
    pub fn set_file(logger: &mut Logger, file: Option<String>)
        ensures
            final(logger).threshold() == old(logger).threshold(),
            final(logger).destination() == match file {
                Some(path) => Some(path@),
                None => None,
            },
    {
        logger.set_file(file);
    }

    /// Set the thread name displayed in the log output of the thread that owns
    /// `current`.
    /// By default, the thread name is the text of the thread's identifier.
    pub fn set_current_thread_name(current: &mut String, name: &str)
        ensures
            final(current)@ == name@,
    {
        *current = String::from_str(name);
    }
}

/// `r` is what `logger` makes of an event of the thread called `thread_name`,
/// stamped with some well-formed timestamp.
pub open spec fn logged(
    logger: &Logger,
    r: Option<Emission>,
    thread_name: Seq<char>,
    level: Level,
    owner: Seq<char>,
    message: Seq<char>,
) -> bool {
    exists|timestamp: Seq<char>|
        is_timestamp(timestamp) && #[trigger] logger.renders(
            r,
            timestamp,
            level,
            owner_field(owner, thread_name),
            message,
        )
}

/// Log output function: what is to be written for an event of `level`, if
/// anything. The owner is followed by the display name of the emitting thread.
pub fn log(logger: &Logger, thread_name: &str, level: Level, owner: &str, message: &str) -> (r:
    Option<Emission>)
    ensures
        logged(logger, r, thread_name@, level, owner@, message@),
{
    let owner: String = make_owner_field(owner, thread_name);
    logger.log(level, owner.as_str(), message)
}

/// Logs at `Level::Debug`.
pub fn debug(logger: &Logger, thread_name: &str, owner: &str, message: &str) -> (r: Option<
    Emission,
>)
    ensures
        logged(logger, r, thread_name@, Level::Debug, owner@, message@),
{
    log(logger, thread_name, Level::Debug, owner, message)
}

/// Logs at `Level::Info`.
pub fn info(logger: &Logger, thread_name: &str, owner: &str, message: &str) -> (r: Option<
    Emission,
>)
    ensures
        logged(logger, r, thread_name@, Level::Info, owner@, message@),
{
    log(logger, thread_name, Level::Info, owner, message)
}

/// Logs at `Level::Warn`.
pub fn warn(logger: &Logger, thread_name: &str, owner: &str, message: &str) -> (r: Option<
    Emission,
>)
    ensures
        logged(logger, r, thread_name@, Level::Warn, owner@, message@),
{
    log(logger, thread_name, Level::Warn, owner, message)
}

/// Logs at `Level::Error`.
pub fn error(logger: &Logger, thread_name: &str, owner: &str, message: &str) -> (r: Option<
    Emission,
>)
    ensures
        logged(logger, r, thread_name@, Level::Error, owner@, message@),
{
    log(logger, thread_name, Level::Error, owner, message)
}

} // verus!
