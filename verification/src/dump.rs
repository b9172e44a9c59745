//! The day file: where an entry goes, what it holds, and what follows when
//! writing it fails.

use vstd::prelude::*;
use vstd::string::StringExecFns;
use crate::clock::{local_now, Moment, DAY_FILE_FORMAT, DEFAULT_TIME_FORMAT};
use crate::config::{Config, ConfigView};
use crate::label::LogError;
use crate::level::LogType;

verus! {

/// The path of the day file `file_name` in the directory `dir`.
pub open spec fn dump_path_text(dir: Seq<char>, file_name: Seq<char>) -> Seq<char> {
    dir + "/"@ + file_name
}

/// The line that a log call adds to the day file: timestamp, level, source
/// location and message, closed by a line feed.
pub open spec fn dump_line_text(
    stamp: Seq<char>,
    level: LogType,
    location: Seq<char>,
    message: Seq<char>,
) -> Seq<char> {
    stamp + " ["@ + level.text() + "] ["@ + location + "] "@ + message + "\n"@
}

/// One entry for the day file: the directory to make sure of, the file to
/// open for appending, and the line to append.
#[derive(Clone, Debug)]
pub struct DumpEntry {
    pub dir: String,
    pub path: String,
    pub line: String,
}

/// A `DumpEntry` with its strings as sequences of characters.
pub struct DumpEntryView {
    pub dir: Seq<char>,
    pub path: Seq<char>,
    pub line: Seq<char>,
}

impl View for DumpEntry {
    type V = DumpEntryView;

    open spec fn view(&self) -> DumpEntryView {
        DumpEntryView { dir: self.dir@, path: self.path@, line: self.line@ }
    }
}

/// A result with its entry as a view.
pub open spec fn entry_of(r: Result<DumpEntry, LogError>) -> Result<DumpEntryView, LogError> {
    match r {
        Ok(e) => Ok(e@),
        Err(e) => Err(e),
    }
}

/// The entry of a log call when the clock shows `file_at` as the file is
/// named and `line_at` as the line is stamped.
pub open spec fn dump_at(
    config: ConfigView,
    level: LogType,
    location: Seq<char>,
    message: Seq<char>,
    file_at: Moment,
    line_at: Moment,
) -> Result<DumpEntryView, LogError> {
    match file_at.stamp(DAY_FILE_FORMAT@) {
        None => Err(LogError::FileName),
        Some(file_name) => match line_at.stamp(config.time_format) {
            None => Err(LogError::Timestamp),
            Some(stamp) => Ok(
                DumpEntryView {
                    dir: config.logs_dir,
                    path: dump_path_text(config.logs_dir, file_name),
                    line: dump_line_text(stamp, level, location, message),
                },
            ),
        },
    }
}

/// Joins a directory and the name of a day file.
pub fn dump_path(dir: &str, file_name: &str) -> (res: String)
    ensures
        res@ == dump_path_text(dir@, file_name@),
{
    let mut out = String::from_str(dir);
    out.append("/");
    out.append(file_name);
    out
}

/// Builds the line of an entry from a timestamp that was rendered before.
pub fn dump_line(stamp: &str, level: LogType, location: &str, message: &str) -> (res: String)
    ensures
        res@ == dump_line_text(stamp@, level, location@, message@),
{
    let mut out = String::from_str(stamp);
    out.append(" [");
    out.append(level.name());
    out.append("] [");
    out.append(location);
    out.append("] ");
    out.append(message);
    out.append("\n");
    out
}

/// Builds the entry of a log call, with `file_at` as the clock reading that
/// names the file and `line_at` as the one that stamps the line. Fails with
/// `FileName` where `file_at` cannot be rendered as a file name, else with
/// `Timestamp` where `line_at` cannot be rendered under the configured
/// pattern.
pub fn dump_log_at(
    config: &Config,
    level: LogType,
    location: &str,
    message: &str,
    file_at: &Moment,
    line_at: &Moment,
) -> (res: Result<DumpEntry, LogError>)
    ensures
        entry_of(res) == dump_at(config@, level, location@, message@, *file_at, *line_at),
{
    let file_name = match file_at.format(DAY_FILE_FORMAT) {
        Some(s) => s,
        None => return Err(LogError::FileName),
    };
    let stamp = match line_at.format(config.time_format.as_str()) {
        Some(s) => s,
        None => return Err(LogError::Timestamp),
    };
    Ok(
        DumpEntry {
            dir: config.logs_dir.clone(),
            path: dump_path(config.logs_dir.as_str(), file_name.as_str()),
            line: dump_line(stamp.as_str(), level, location, message),
        },
    )
}

/// Builds the entry of a log call, reading the clock once for the file's
/// name and once for the line's timestamp. The result is the entry for that
/// pair of clock readings. The file's name is always had; the call fails only
/// where the line's reading cannot be rendered under the configured pattern,
/// which does not happen with the default pattern.
pub fn dump_log(config: &Config, level: LogType, location: &str, message: &str) -> (res: Result<
    DumpEntry,
    LogError,
>)
    ensures
        exists|file_at: Moment, line_at: Moment|
            file_at.renders() && line_at.renders() && entry_of(res) == #[trigger] dump_at(
                config@,
                level,
                location@,
                message@,
                file_at,
                line_at,
            ),
        res != Err::<DumpEntry, LogError>(LogError::FileName),
        config.time_format@ == DEFAULT_TIME_FORMAT@ ==> res is Ok,
{
    let file_at = local_now();
    let line_at = local_now();
    let res = dump_log_at(config, level, location, message, &file_at, &line_at);
    assert(file_at.renders() && line_at.renders() && entry_of(res) == dump_at(
        config@,
        level,
        location@,
        message@,
        file_at,
        line_at,
    ));
    res
}

/// The steps of putting an entry into the day file.
#[derive(Clone, Copy, Debug, PartialEq, Eq, Structural)]
pub enum DumpStep {
    /// Creating the directory, where it does not exist yet.
    CreateDir,
    /// Opening the day file for appending.
    OpenFile,
    /// Appending the line.
    WriteLine,
}

/// What follows when a step has failed.
#[derive(Clone, Debug)]
pub enum Recovery {
    /// The failure is final: the program ends.
    Abort,
    /// The failure is reported on the error stream with this text, and the
    /// log call goes on to print its line.
    Report(String),
}

impl Recovery {
    /// The text to report, or `None` where the failure is final.
    pub open spec fn report(self) -> Option<Seq<char>> {
        match self {
            Recovery::Abort => None,
            Recovery::Report(text) => Some(text@),
        }
    }
}

/// The text that reports a line that could not be put into the day file,
/// given what the system said of it.
pub open spec fn write_report_text(cause: Seq<char>) -> Seq<char> {
    "Couldn't write to file: "@ + cause
}

/// What follows when `step` has failed with `cause`: only a directory that
/// cannot be created is final. A day file that cannot be opened or written
/// to is reported, and the log call goes on.
pub open spec fn recovery_report(step: DumpStep, cause: Seq<char>) -> Option<Seq<char>> {
    if step == DumpStep::CreateDir {
        None
    } else {
        Some(write_report_text(cause))
    }
}

/// Decides what follows when `step` has failed with `cause`: a directory
/// that cannot be created ends the program; a day file that cannot be opened
/// or written to is reported, and the log call goes on.
pub fn on_dump_failure(step: DumpStep, cause: &str) -> (res: Recovery)
    ensures
        res.report() == recovery_report(step, cause@),
        step == DumpStep::CreateDir ==> res.report() == None::<Seq<char>>,
        step != DumpStep::CreateDir ==> res.report() == Some(write_report_text(cause@)),
{
    match step {
        DumpStep::CreateDir => Recovery::Abort,
        _ => {
            let mut text = String::from_str("Couldn't write to file: ");
            text.append(cause);
            Recovery::Report(text)
        },
    }
}

} // verus!
