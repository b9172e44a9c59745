//! A log call: the line for standard output and, where asked for, the entry
//! for the day file.

use vstd::prelude::*;
use vstd::string::StringExecFns;
use crate::clock::{local_now, Moment, DEFAULT_TIME_FORMAT};
use crate::config::{Config, ConfigView};
use crate::dump::{dump_at, dump_log_at, DumpEntry, DumpEntryView};
use crate::label::{get_msg_label_at, label_at, label_text, LogError};
use crate::level::LogType;

verus! {

/// The line of a log call: label, source location in brackets, message.
pub open spec fn console_text(label: Seq<char>, location: Seq<char>, message: Seq<char>) -> Seq<
    char,
> {
    label + " ["@ + location + "] "@ + message
}

/// The clock readings of one log call, in the order in which they are taken.
#[derive(Clone, Copy, Debug, PartialEq, Eq, Structural)]
pub struct Readings {
    /// Read for the timestamp of the label.
    pub label: Moment,
    /// Read for the name of the day file.
    pub file: Moment,
    /// Read for the timestamp of the entry's line.
    pub line: Moment,
}

impl Readings {
    /// The readings that `config` makes use of can be rendered as the name of
    /// a day file and under the default pattern, as every reading of the clock
    /// can.
    pub open spec fn taken_for(self, config: ConfigView) -> bool {
        &&& config.time ==> self.label.renders()
        &&& config.dump ==> self.file.renders() && self.line.renders()
    }
}

/// What a log call yields: the line to print, without its line feed, and the
/// entry for the day file where one is asked for.
#[derive(Clone, Debug)]
pub struct LogOutput {
    pub line: String,
    pub dump: Option<DumpEntry>,
}

/// A `LogOutput` with its strings as sequences of characters.
pub struct LogOutputView {
    pub line: Seq<char>,
    pub dump: Option<DumpEntryView>,
}

impl View for LogOutput {
    type V = LogOutputView;

    open spec fn view(&self) -> LogOutputView {
        LogOutputView {
            line: self.line@,
            dump: match self.dump {
                Some(e) => Some(e@),
                None => None,
            },
        }
    }
}

/// A result with its output as a view.
pub open spec fn output_of(r: Result<LogOutput, LogError>) -> Result<LogOutputView, LogError> {
    match r {
        Ok(o) => Ok(o@),
        Err(e) => Err(e),
    }
}

/// What a log call yields when the clock shows `at`. The label comes first:
/// where it fails, the call fails with its error. The entry comes second, and
/// only where `config` asks for one.
pub open spec fn log_at_spec(
    config: ConfigView,
    level: LogType,
    location: Seq<char>,
    message: Seq<char>,
    at: Readings,
) -> Result<LogOutputView, LogError> {
    match label_at(config, level, at.label) {
        Err(e) => Err(e),
        Ok(label) => {
            let line = console_text(label, location, message);
            if !config.dump {
                Ok(LogOutputView { line, dump: None })
            } else {
                match dump_at(config, level, location, message, at.file, at.line) {
                    Err(e) => Err(e),
                    Ok(entry) => Ok(LogOutputView { line, dump: Some(entry) }),
                }
            }
        },
    }
}

/// What a log call yields with timestamps and the day file switched off:
/// the line with the bare label, and no entry.
pub open spec fn plain_output(
    color: bool,
    level: LogType,
    location: Seq<char>,
    message: Seq<char>,
) -> LogOutputView {
    LogOutputView { line: console_text(label_text(color, level, None), location, message), dump: None }
}

/// Joins a label, a source location and a message into the line of a log
/// call.
pub fn console_line(label: &str, location: &str, message: &str) -> (res: String)
    ensures
        res@ == console_text(label@, location@, message@),
{
    let mut out = String::from_str(label);
    out.append(" [");
    out.append(location);
    out.append("] ");
    out.append(message);
    out
}

/// A log call with the clock readings given.
pub fn log_at(config: &Config, level: LogType, location: &str, message: &str, at: &Readings) -> (res:
    Result<LogOutput, LogError>)
    ensures
        output_of(res) == log_at_spec(config@, level, location@, message@, *at),
{
    let label = match get_msg_label_at(config, level, &at.label) {
        Ok(s) => s,
        Err(e) => return Err(e),
    };
    let line = console_line(label.as_str(), location, message);
    if !config.dump {
        return Ok(LogOutput { line, dump: None });
    }
    match dump_log_at(config, level, location, message, &at.file, &at.line) {
        Ok(entry) => Ok(LogOutput { line, dump: Some(entry) }),
        Err(e) => Err(e),
    }
}

/// A log call: reads the clock where `config` asks for a timestamp or an
/// entry, and builds the line and the entry. The result is what `log_at`
/// yields for those readings. The call fails only where a reading cannot be
/// rendered under the configured pattern: not with the default pattern, and
/// not with timestamps and the day file switched off, where the result is the
/// line with the bare label.
pub fn log(config: &Config, level: LogType, location: &str, message: &str) -> (res: Result<
    LogOutput,
    LogError,
>)
    ensures
        exists|at: Readings|
            at.taken_for(config@) && output_of(res) == #[trigger] log_at_spec(
                config@,
                level,
                location@,
                message@,
                at,
            ),
        !config.time && !config.dump ==> output_of(res) == Ok::<LogOutputView, LogError>(
            plain_output(config.color, level, location@, message@),
        ),
        res != Err::<LogOutput, LogError>(LogError::FileName),
        config.time_format@ == DEFAULT_TIME_FORMAT@ ==> res is Ok,
{
    let unread = Moment { secs: 0, nanos: 0, offset: 0 };
    let label = if config.time {
        local_now()
    } else {
        unread
    };
    let file = if config.dump {
        local_now()
    } else {
        unread
    };
    let line = if config.dump {
        local_now()
    } else {
        unread
    };
    let at = Readings { label, file, line };
    let res = log_at(config, level, location, message, &at);
    assert(at.taken_for(config@) && output_of(res) == log_at_spec(
        config@,
        level,
        location@,
        message@,
        at,
    ));
    res
}

/// A log call at level `Info`: what `log` yields for that level.
pub fn log_info(config: &Config, location: &str, message: &str) -> (res: Result<
    LogOutput,
    LogError,
>)
    ensures
        exists|at: Readings|
            at.taken_for(config@) && output_of(res) == #[trigger] log_at_spec(
                config@,
                LogType::Info,
                location@,
                message@,
                at,
            ),
        !config.time && !config.dump ==> output_of(res) == Ok::<LogOutputView, LogError>(
            plain_output(config.color, LogType::Info, location@, message@),
        ),
        res != Err::<LogOutput, LogError>(LogError::FileName),
        config.time_format@ == DEFAULT_TIME_FORMAT@ ==> res is Ok,
{
    log(config, LogType::Info, location, message)
}

/// A log call at level `Warn`: what `log` yields for that level.
pub fn log_warn(config: &Config, location: &str, message: &str) -> (res: Result<
    LogOutput,
    LogError,
>)
    ensures
        exists|at: Readings|
            at.taken_for(config@) && output_of(res) == #[trigger] log_at_spec(
                config@,
                LogType::Warn,
                location@,
                message@,
                at,
            ),
        !config.time && !config.dump ==> output_of(res) == Ok::<LogOutputView, LogError>(
            plain_output(config.color, LogType::Warn, location@, message@),
        ),
        res != Err::<LogOutput, LogError>(LogError::FileName),
        config.time_format@ == DEFAULT_TIME_FORMAT@ ==> res is Ok,
{
    log(config, LogType::Warn, location, message)
}

/// A log call at level `Error`: what `log` yields for that level.
pub fn log_error(config: &Config, location: &str, message: &str) -> (res: Result<
    LogOutput,
    LogError,
>)
    ensures
        exists|at: Readings|
            at.taken_for(config@) && output_of(res) == #[trigger] log_at_spec(
                config@,
                LogType::Error,
                location@,
                message@,
                at,
            ),
        !config.time && !config.dump ==> output_of(res) == Ok::<LogOutputView, LogError>(
            plain_output(config.color, LogType::Error, location@, message@),
        ),
        res != Err::<LogOutput, LogError>(LogError::FileName),
        config.time_format@ == DEFAULT_TIME_FORMAT@ ==> res is Ok,
{
    log(config, LogType::Error, location, message)
}

} // verus!
