//! The label of a log line: the level's name in brackets, coloured or not,
//! with or without a timestamp before it.

use vstd::prelude::*;
use vstd::string::StringExecFns;
use crate::clock::{local_now, Moment, DEFAULT_TIME_FORMAT};
use crate::config::{Config, ConfigView};
use crate::level::LogType;
use crate::paint::{colorize, painted, Tone};

verus! {

/// Why a log call yields nothing.
#[derive(Clone, Copy, Debug, PartialEq, Eq, Structural)]
pub enum LogError {
    /// The clock reading could not be rendered under the configured pattern.
    Timestamp,
    /// The clock reading could not be rendered as the name of a day file.
    FileName,
}

/// A result with its string as a sequence of characters.
pub open spec fn text_of(r: Result<String, LogError>) -> Result<Seq<char>, LogError> {
    match r {
        Ok(s) => Ok(s@),
        Err(e) => Err(e),
    }
}

/// `text` as a label shows it: coloured in `tone` or as it is.
pub open spec fn shown(color: bool, text: Seq<char>, tone: Tone) -> Seq<char> {
    if color {
        painted(text, tone)
    } else {
        text
    }
}

/// What stands before the level's bracket: nothing, or the timestamp and a
/// space.
pub open spec fn label_lead(color: bool, stamp: Option<Seq<char>>) -> Seq<char> {
    match stamp {
        Some(s) => shown(color, s, Tone::Green) + " "@,
        None => Seq::empty(),
    }
}

/// The label of `level`: the lead, then the level's name in brackets.
pub open spec fn label_text(color: bool, level: LogType, stamp: Option<Seq<char>>) -> Seq<char> {
    label_lead(color, stamp) + "["@ + shown(color, level.text(), level.tone_of()) + "]"@
}

/// The label that `config` asks for when the clock shows `at`.
pub open spec fn label_at(config: ConfigView, level: LogType, at: Moment) -> Result<
    Seq<char>,
    LogError,
> {
    if !config.time {
        Ok(label_text(config.color, level, None))
    } else {
        match at.stamp(config.time_format) {
            Some(s) => Ok(label_text(config.color, level, Some(s))),
            None => Err(LogError::Timestamp),
        }
    }
}

/// `text`, coloured in `tone` where `color` is set.
fn show(color: bool, text: &str, tone: Tone) -> (res: String)
    ensures
        res@ == shown(color, text@, tone),
{
    if color {
        colorize(text, tone)
    } else {
        String::from_str(text)
    }
}

/// Builds the label of `level` from a timestamp that was rendered before,
/// or from none.
pub fn compose_label(color: bool, level: LogType, stamp: Option<&str>) -> (res: String)
    ensures
        res@ == label_text(color, level, stamp.deep_view()),
{
    let mut out = String::new();
    match stamp {
        Some(s) => {
            let lead = show(color, s, Tone::Green);
            out.append(lead.as_str());
            out.append(" ");
        },
        None => {},
    }
    assert(out@ =~= label_lead(color, stamp.deep_view()));
    let name = show(color, level.name(), level.tone());
    out.append("[");
    out.append(name.as_str());
    out.append("]");
    out
}

/// Builds the label of `level` as `config` asks for it, with `at` as the
/// clock reading. Fails only where a timestamp is asked for and `at` cannot be
/// rendered under the configured pattern.
pub fn get_msg_label_at(config: &Config, level: LogType, at: &Moment) -> (res: Result<
    String,
    LogError,
>)
    ensures
        text_of(res) == label_at(config@, level, *at),
{
    if !config.time {
        return Ok(compose_label(config.color, level, None));
    }
    match at.format(config.time_format.as_str()) {
        Some(stamp) => Ok(compose_label(config.color, level, Some(stamp.as_str()))),
        None => Err(LogError::Timestamp),
    }
}

/// The label's clock reading is one that `config` can use: where a
/// timestamp is asked for, it can be rendered under the default pattern.
pub open spec fn label_reading(config: ConfigView, at: Moment) -> bool {
    config.time ==> at.renders()
}

/// Builds the label of `level` as `config` asks for it, reading the clock
/// where a timestamp is asked for. The result is the label for that clock
/// reading. The call succeeds without a timestamp, where the result is the
/// bare label, and with the default pattern.
pub fn get_msg_label(config: &Config, level: LogType) -> (res: Result<String, LogError>)
    ensures
        exists|at: Moment|
            label_reading(config@, at) && text_of(res) == #[trigger] label_at(config@, level, at),
        !config.time ==> text_of(res) == Ok::<Seq<char>, LogError>(
            label_text(config.color, level, None),
        ),
        config.time_format@ == DEFAULT_TIME_FORMAT@ ==> res is Ok,
{
    if config.time {
        let at = local_now();
        let res = get_msg_label_at(config, level, &at);
        assert(label_reading(config@, at) && text_of(res) == label_at(config@, level, at));
        res
    } else {
        let res = Ok(compose_label(config.color, level, None));
        let at = Moment { secs: 0, nanos: 0, offset: 0 };
        assert(label_reading(config@, at) && text_of(res) == label_at(config@, level, at));
        res
    }
}

} // verus!
