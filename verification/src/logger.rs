//! How much the game logs.
use vstd::prelude::*;

verus! {

/// The least important messages that get logged.
#[derive(Clone, Copy, Debug, PartialEq, Eq, Structural)]
pub enum LogLevel {
    /// Debug messages and above.
    Debug,
    /// Informational messages and above.
    Info,
}

/// Why logging could not be set up.
#[derive(Clone, Copy, Debug, PartialEq, Eq, Structural)]
pub enum LoggerError {
    /// Another logger was installed before.
    AlreadyInitialized,
}

impl LoggerError {
    /// What went wrong, in words.
    pub fn message(&self) -> (r: &'static str)
        ensures
            r@ == "attempted to set a logger after the logging system was already initialized"@,
    {
        "attempted to set a logger after the logging system was already initialized"
    }
}

/// The level the game logs at: debug messages only when asked for.
pub open spec fn level_for(debug_enabled: bool) -> LogLevel {
    if debug_enabled {
        LogLevel::Debug
    } else {
        LogLevel::Info
    }
}

/// The level the game logs at; see [`level_for`].
pub fn log_level(debug_enabled: bool) -> (r: LogLevel)
    ensures
        r == level_for(debug_enabled),
{
    if debug_enabled {
        LogLevel::Debug
    } else {
        LogLevel::Info
    }
}

/// The level filter of the `log` crate, as this crate has set it: nothing
/// yet, or the level of the last call that set it. Only this module can
/// make one that records a level, by setting the filter.
pub struct LogFilter {
    last_set: Option<LogLevel>,
}

impl LogFilter {
    /// The level this crate last set the filter to, if any.
    pub closed spec fn set_level(self) -> Option<LogLevel> {
        self.last_set
    }

    /// The filter before this crate has set it.
    pub fn untouched() -> (f: LogFilter)
        ensures
            f.set_level() is None,
    {
        LogFilter { last_set: None }
    }

    /// The level this crate last set the filter to, if any.
    pub fn level(&self) -> (r: Option<LogLevel>)
        ensures
            r == self.set_level(),
    {
        self.last_set
    }
}

/// Calls `log::set_max_level` with the filter of the same name as `level`,
/// and returns the record of that call. Trusted to return; `log` stores the
/// filter in a process-wide atomic, which the record stands for.
#[verifier::external_body]
fn set_max_level(level: LogLevel) -> (f: LogFilter)
    ensures
        f.set_level() == Some(level),
{
    match level {
        LogLevel::Debug => log::set_max_level(log::LevelFilter::Debug),
        LogLevel::Info => log::set_max_level(log::LevelFilter::Info),
    }
    LogFilter { last_set: Some(level) }
}

/// Finishes setting up logging once the game's logger was offered to the
/// `log` crate: `registered` is whether it was taken. When it was, the
/// filter is set to [`log_level`]; when it was not, the error says so and
/// the filter is left alone.
pub fn init_logger(debug_enabled: bool, registered: bool, filter: &mut LogFilter) -> (r: Result<
    (),
    LoggerError,
>)
    ensures
        registered ==> r is Ok,
        registered ==> final(filter).set_level() == Some(level_for(debug_enabled)),
        !registered ==> r == Err::<(), LoggerError>(LoggerError::AlreadyInitialized),
        !registered ==> *final(filter) == *old(filter),
{
    if !registered {
        return Err(LoggerError::AlreadyInitialized);
    }
    *filter = set_max_level(log_level(debug_enabled));
    Ok(())
}

} // verus!
