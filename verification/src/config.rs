//! What a log call is configured with.

use vstd::prelude::*;
use vstd::string::StringExecFns;
use crate::clock::DEFAULT_TIME_FORMAT;

verus! {

/// The directory that holds the day files when none is configured.
pub const DEFAULT_LOGS_DIR: &'static str = "./logs";

/// The switches and settings of the logger.
#[derive(Clone, Debug)]
pub struct Config {
    /// Whether labels and timestamps are coloured.
    pub color: bool,
    /// Whether the label starts with a timestamp.
    pub time: bool,
    /// Whether each call also yields an entry for the day file.
    pub dump: bool,
    /// The directory that holds the day files.
    pub logs_dir: String,
    /// The strftime-style pattern of timestamps.
    pub time_format: String,
}

/// A `Config` with its strings as sequences of characters.
pub struct ConfigView {
    pub color: bool,
    pub time: bool,
    pub dump: bool,
    pub logs_dir: Seq<char>,
    pub time_format: Seq<char>,
}

impl View for Config {
    type V = ConfigView;

    open spec fn view(&self) -> ConfigView {
        ConfigView {
            color: self.color,
            time: self.time,
            dump: self.dump,
            logs_dir: self.logs_dir@,
            time_format: self.time_format@,
        }
    }
}

/// The setting to use where `given` may be absent: `given` itself, or
/// `fallback` in its absence.
pub open spec fn setting_or(given: Option<Seq<char>>, fallback: Seq<char>) -> Seq<char> {
    match given {
        Some(s) => s,
        None => fallback,
    }
}

impl Config {
    /// A configuration with the three switches as given. An absent pattern
    /// or directory gets its default.
    pub fn new(
        color: bool,
        time: bool,
        dump: bool,
        time_format: Option<String>,
        logs_dir: Option<String>,
    ) -> (res: Config)
        ensures
            res@ == (ConfigView {
                color,
                time,
                dump,
                logs_dir: setting_or(logs_dir.deep_view(), DEFAULT_LOGS_DIR@),
                time_format: setting_or(time_format.deep_view(), DEFAULT_TIME_FORMAT@),
            }),
    {
        let time_format = match time_format {
            Some(s) => s,
            None => String::from_str(DEFAULT_TIME_FORMAT),
        };
        let logs_dir = match logs_dir {
            Some(s) => s,
            None => String::from_str(DEFAULT_LOGS_DIR),
        };
        Config { color, time, dump, logs_dir, time_format }
    }
}

impl Default for Config {
    /// Colour and timestamps on, no day file, the default directory and
    /// pattern.
    fn default() -> (res: Config)
        ensures
            res@ == (ConfigView {
                color: true,
                time: true,
                dump: false,
                logs_dir: DEFAULT_LOGS_DIR@,
                time_format: DEFAULT_TIME_FORMAT@,
            }),
    {
        Config::new(true, true, false, None, None)
    }
}

} // verus!
