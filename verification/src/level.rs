//! The three log levels, their names and their colours.

use vstd::prelude::*;
use crate::paint::Tone;

verus! {

/// The level of a log call.
#[derive(Clone, Copy, Debug, PartialEq, Eq, Structural)]
pub enum LogType {
    Info,
    Warn,
    Error,
}

impl LogType {
    /// The level's name as it stands between the brackets of a label.
    pub open spec fn text(self) -> Seq<char> {
        match self {
            LogType::Info => "INFO"@,
            LogType::Warn => "WARN"@,
            LogType::Error => "ERROR"@,
        }
    }

    /// The colour in which the level's name is shown.
    pub open spec fn tone_of(self) -> Tone {
        match self {
            LogType::Info => Tone::BrightBlue,
            LogType::Warn => Tone::BrightYellow,
            LogType::Error => Tone::BrightRed,
        }
    }

    /// The level's name: `INFO`, `WARN` or `ERROR`.
    pub fn name(self) -> (res: &'static str)
        ensures
            res@ == self.text(),
    {
        match self {
            LogType::Info => "INFO",
            LogType::Warn => "WARN",
            LogType::Error => "ERROR",
        }
    }

    /// The level's colour: blue for `Info`, yellow for `Warn`, red for `Error`.
    pub fn tone(self) -> (res: Tone)
        ensures
            res == self.tone_of(),
    {
        match self {
            LogType::Info => Tone::BrightBlue,
            LogType::Warn => Tone::BrightYellow,
            LogType::Error => Tone::BrightRed,
        }
    }
}

} // verus!
