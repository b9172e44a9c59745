//! What holds of every log call.

use vstd::prelude::*;
use crate::clock::{Moment, DAY_FILE_FORMAT};
use crate::config::ConfigView;
use crate::dump::{dump_at, dump_line_text, dump_path_text};
use crate::label::{label_at, label_lead, label_text, shown, LogError};
use crate::level::LogType;
use crate::logger::{console_text, log_at_spec, Readings};
use crate::paint::{reset_code, tone_code, Tone};

verus! {

/// `part` stands in `text` from position `i` on.
pub open spec fn holds_at(text: Seq<char>, part: Seq<char>, i: int) -> bool {
    0 <= i && i + part.len() <= text.len() && text.subrange(i, i + part.len()) == part
}

/// `text` holds no line feed and no carriage return.
pub open spec fn one_line(text: Seq<char>) -> bool {
    forall|i: int| 0 <= i < text.len() ==> text[i] != '\n' && text[i] != '\r'
}

/// `text` ends with `part`.
pub open spec fn ends_with(text: Seq<char>, part: Seq<char>) -> bool {
    holds_at(text, part, text.len() - part.len())
}

/// Where the level's name begins in a label.
pub open spec fn name_start(color: bool, level: LogType, stamp: Option<Seq<char>>) -> int {
    label_lead(color, stamp).len() + 1 + if color {
        tone_code(level.tone_of()).len() as int
    } else {
        0
    }
}

/// The three names are `INFO`, `WARN` and `ERROR`, and no two levels share
/// one.
pub proof fn lemma_names_differ(a: LogType, b: LogType)
    ensures
        LogType::Info.text() == seq!['I', 'N', 'F', 'O'],
        LogType::Warn.text() == seq!['W', 'A', 'R', 'N'],
        LogType::Error.text() == seq!['E', 'R', 'R', 'O', 'R'],
        a != b ==> a.text() != b.text(),
{
    reveal_strlit("INFO");
    reveal_strlit("WARN");
    reveal_strlit("ERROR");
    assert(LogType::Info.text() =~= seq!['I', 'N', 'F', 'O']);
    assert(LogType::Warn.text() =~= seq!['W', 'A', 'R', 'N']);
    assert(LogType::Error.text() =~= seq!['E', 'R', 'R', 'O', 'R']);
    assert(LogType::Info.text()[0] == 'I');
    assert(LogType::Warn.text()[0] == 'W');
    assert(LogType::Error.text()[0] == 'E');
}

/// Whatever the colour switch and the timestamp, a label holds the name of
/// its level, at `name_start`.
pub proof fn lemma_label_holds_name(color: bool, level: LogType, stamp: Option<Seq<char>>)
    ensures
        holds_at(label_text(color, level, stamp), level.text(), name_start(color, level, stamp)),
{
    reveal_strlit("[");
    reveal_strlit("]");
    let label = label_text(color, level, stamp);
    let i: int = name_start(color, level, stamp);
    assert(label.subrange(i, i + level.text().len()) =~= level.text());
}

/// The line of a log call holds the level's name, the source location and
/// the message, in that order and without overlap, and ends with the message.
pub proof fn lemma_line_order(
    config: ConfigView,
    level: LogType,
    location: Seq<char>,
    message: Seq<char>,
    at: Readings,
)
    requires
        log_at_spec(config, level, location, message, at) is Ok,
    ensures
        ({
            let line = log_at_spec(config, level, location, message, at)->Ok_0.line;
            exists|i: int, j: int, k: int|
                #![trigger holds_at(line, level.text(), i), holds_at(line, location, j), holds_at(line, message, k)]
                holds_at(line, level.text(), i) && holds_at(line, location, j) && holds_at(
                    line,
                    message,
                    k,
                ) && i + level.text().len() <= j && j + location.len() <= k && k + message.len()
                    == line.len()
        }),
{
    reveal_strlit("[");
    reveal_strlit("]");
    reveal_strlit(" [");
    reveal_strlit("] ");
    let stamp = if config.time {
        Some(at.label.stamp(config.time_format)->0)
    } else {
        None
    };
    let label = label_text(config.color, level, stamp);
    assert(label_at(config, level, at.label) == Ok::<Seq<char>, LogError>(label));
    let line = console_text(label, location, message);
    assert(line == log_at_spec(config, level, location, message, at)->Ok_0.line);
    lemma_label_holds_name(config.color, level, stamp);
    let i: int = name_start(config.color, level, stamp);
    let j: int = label.len() as int + 2;
    let k: int = j + location.len() + 2;
    assert(line.subrange(i, i + level.text().len()) =~= label.subrange(i, i + level.text().len()));
    assert(line.subrange(j, j + location.len()) =~= location);
    assert(line.subrange(k, k + message.len()) =~= message);
    assert(holds_at(line, level.text(), i));
    assert(holds_at(line, location, j));
    assert(holds_at(line, message, k));
}

/// Joining two texts without a line break gives a text without one.
proof fn lemma_one_line_joined(a: Seq<char>, b: Seq<char>)
    requires
        one_line(a),
        one_line(b),
    ensures
        one_line(a + b),
{
    assert forall|i: int| 0 <= i < (a + b).len() implies (a + b)[i] != '\n' && (a + b)[i]
        != '\r' by {
        if i < a.len() {
            assert((a + b)[i] == a[i]);
        } else {
            assert((a + b)[i] == b[i - a.len()]);
        }
    }
}

/// A text without a line break stays without one when it is shown in colour.
proof fn lemma_one_line_shown(color: bool, text: Seq<char>, tone: Tone)
    requires
        one_line(text),
    ensures
        one_line(shown(color, text, tone)),
{
    reveal_strlit("\x1b[32m");
    reveal_strlit("\x1b[94m");
    reveal_strlit("\x1b[93m");
    reveal_strlit("\x1b[91m");
    reveal_strlit("\x1b[0m");
    if color {
        assert(one_line(tone_code(tone)));
        assert(one_line(reset_code()));
        lemma_one_line_joined(tone_code(tone), text);
        lemma_one_line_joined(tone_code(tone) + text, reset_code());
    }
}

/// A label is never empty, ends with the level's name in brackets (coloured
/// where colour is on), and holds no line feed and no carriage return where
/// its timestamp holds none.
pub proof fn lemma_label_is_one_line(color: bool, level: LogType, stamp: Option<Seq<char>>)
    requires
        stamp is Some ==> one_line(stamp->0),
    ensures
        label_text(color, level, stamp).len() > 0,
        ends_with(
            label_text(color, level, stamp),
            "["@ + shown(color, level.text(), level.tone_of()) + "]"@,
        ),
        one_line(label_text(color, level, stamp)),
{
    reveal_strlit("[");
    reveal_strlit("]");
    reveal_strlit(" ");
    lemma_names_differ(level, level);
    assert(one_line(level.text()));
    lemma_one_line_shown(color, level.text(), level.tone_of());
    let lead = label_lead(color, stamp);
    match stamp {
        Some(s) => {
            lemma_one_line_shown(color, s, Tone::Green);
            lemma_one_line_joined(shown(color, s, Tone::Green), " "@);
        },
        None => {},
    }
    assert(one_line(lead));
    let name = shown(color, level.text(), level.tone_of());
    lemma_one_line_joined(lead, "["@);
    lemma_one_line_joined(lead + "["@, name);
    lemma_one_line_joined(lead + "["@ + name, "]"@);
    let label = label_text(color, level, stamp);
    let tag = "["@ + name + "]"@;
    assert(label.subrange(label.len() - tag.len(), label.len() as int) =~= tag);
}

/// No two levels share a label: with the same colour switch and the same
/// timestamp, the labels of two levels differ.
pub proof fn lemma_labels_differ(color: bool, a: LogType, b: LogType, stamp: Option<Seq<char>>)
    requires
        a != b,
    ensures
        label_text(color, a, stamp) != label_text(color, b, stamp),
{
    reveal_strlit("[");
    reveal_strlit("]");
    reveal_strlit("\x1b[94m");
    reveal_strlit("\x1b[93m");
    reveal_strlit("\x1b[91m");
    lemma_names_differ(a, b);
    let la = label_text(color, a, stamp);
    let lb = label_text(color, b, stamp);
    let lead = label_lead(color, stamp);
    if color {
        let i: int = lead.len() as int + 1 + 3;
        assert(la[i] == tone_code(a.tone_of())[3]);
        assert(lb[i] == tone_code(b.tone_of())[3]);
        assert(la[i] != lb[i]);
    } else {
        let i: int = lead.len() as int + 1;
        assert(la[i] == a.text()[0]);
        assert(lb[i] == b.text()[0]);
        assert(la[i] != lb[i]);
    }
}

/// No two levels share a label in a log call either: with one
/// configuration and one clock reading, the labels of two levels differ.
pub proof fn lemma_levels_tell_apart(config: ConfigView, a: LogType, b: LogType, at: Moment)
    requires
        a != b,
        label_at(config, a, at) is Ok,
    ensures
        label_at(config, b, at) is Ok,
        label_at(config, a, at) != label_at(config, b, at),
{
    let stamp = if config.time {
        at.stamp(config.time_format)
    } else {
        None
    };
    lemma_labels_differ(config.color, a, b, stamp);
}

/// The line of a log call is one line: it holds no line feed and no
/// carriage return, where the source location, the message and the rendered
/// timestamp hold none.
pub proof fn lemma_line_is_one_line(
    config: ConfigView,
    level: LogType,
    location: Seq<char>,
    message: Seq<char>,
    at: Readings,
)
    requires
        log_at_spec(config, level, location, message, at) is Ok,
        one_line(location),
        one_line(message),
        config.time ==> one_line(at.label.stamp(config.time_format)->0),
    ensures
        one_line(log_at_spec(config, level, location, message, at)->Ok_0.line),
{
    reveal_strlit(" [");
    reveal_strlit("] ");
    let stamp = if config.time {
        Some(at.label.stamp(config.time_format)->0)
    } else {
        None
    };
    let label = label_text(config.color, level, stamp);
    assert(label_at(config, level, at.label) == Ok::<Seq<char>, LogError>(label));
    lemma_label_is_one_line(config.color, level, stamp);
    lemma_one_line_joined(label, " ["@);
    lemma_one_line_joined(label + " ["@, location);
    lemma_one_line_joined(label + " ["@ + location, "] "@);
    lemma_one_line_joined(label + " ["@ + location + "] "@, message);
}

/// The line of an entry ends with a line feed, and holds no other where the
/// timestamp, the source location and the message hold none: each log call
/// adds one line to the day file.
pub proof fn lemma_entry_is_one_line(
    stamp: Seq<char>,
    level: LogType,
    location: Seq<char>,
    message: Seq<char>,
)
    requires
        one_line(stamp),
        one_line(location),
        one_line(message),
    ensures
        ({
            let line = dump_line_text(stamp, level, location, message);
            line.len() > 0 && line.last() == '\n' && one_line(line.drop_last())
        }),
{
    reveal_strlit(" [");
    reveal_strlit("] [");
    reveal_strlit("] ");
    reveal_strlit("\n");
    lemma_names_differ(level, level);
    assert(one_line(level.text()));
    let a = stamp + " ["@;
    let b = a + level.text();
    let c = b + "] ["@;
    let d = c + location;
    let e = d + "] "@;
    let f = e + message;
    lemma_one_line_joined(stamp, " ["@);
    lemma_one_line_joined(a, level.text());
    lemma_one_line_joined(b, "] ["@);
    lemma_one_line_joined(c, location);
    lemma_one_line_joined(d, "] "@);
    lemma_one_line_joined(e, message);
    let line = dump_line_text(stamp, level, location, message);
    assert(line.drop_last() =~= f);
}

/// The line of an entry begins with the timestamp, goes on directly with
/// the level's name in brackets between two spaces, then holds the source
/// location in brackets, a space, the message and the closing line feed.
pub proof fn lemma_entry_order(
    stamp: Seq<char>,
    level: LogType,
    location: Seq<char>,
    message: Seq<char>,
)
    ensures
        ({
            let line = dump_line_text(stamp, level, location, message);
            let tag = " ["@ + level.text() + "] "@;
            let rest = "["@ + location + "] "@ + message + "\n"@;
            &&& holds_at(line, stamp, 0)
            &&& holds_at(line, tag, stamp.len() as int)
            &&& holds_at(line, rest, stamp.len() as int + tag.len())
            &&& line.len() == stamp.len() + tag.len() + rest.len()
        }),
{
    reveal_strlit(" [");
    reveal_strlit("] [");
    reveal_strlit("] ");
    reveal_strlit("[");
    reveal_strlit("\n");
    let line = dump_line_text(stamp, level, location, message);
    let tag = " ["@ + level.text() + "] "@;
    let rest = "["@ + location + "] "@ + message + "\n"@;
    assert("] ["@ =~= "] "@ + "["@);
    assert(line =~= stamp + tag + rest);
    assert(line.subrange(0, stamp.len() as int) =~= stamp);
    let i: int = stamp.len() as int;
    let j: int = i + tag.len();
    assert(line.subrange(i, j) =~= tag);
    assert(line.subrange(j, j + rest.len()) =~= rest);
}

/// In one directory, two day files have the same path exactly where they
/// have the same name: entries of one day go to one file, entries of another
/// day to another.
pub proof fn lemma_day_file_by_name(dir: Seq<char>, a: Seq<char>, b: Seq<char>)
    ensures
        dump_path_text(dir, a) == dump_path_text(dir, b) <==> a == b,
{
    reveal_strlit("/");
    let pa = dump_path_text(dir, a);
    let pb = dump_path_text(dir, b);
    let n: int = dir.len() as int + 1;
    assert(pa.subrange(n, pa.len() as int) =~= a);
    assert(pb.subrange(n, pb.len() as int) =~= b);
}

/// The path of an entry is the configured directory, a slash, and the
/// rendering of the file's clock reading as day, month and year; two entries
/// of one configuration share their path exactly where those renderings agree.
pub proof fn lemma_entries_share_file(
    config: ConfigView,
    level_a: LogType,
    location_a: Seq<char>,
    message_a: Seq<char>,
    at_a: Readings,
    level_b: LogType,
    location_b: Seq<char>,
    message_b: Seq<char>,
    at_b: Readings,
)
    requires
        dump_at(config, level_a, location_a, message_a, at_a.file, at_a.line) is Ok,
        dump_at(config, level_b, location_b, message_b, at_b.file, at_b.line) is Ok,
    ensures
        ({
            let a = dump_at(config, level_a, location_a, message_a, at_a.file, at_a.line)->Ok_0;
            let b = dump_at(config, level_b, location_b, message_b, at_b.file, at_b.line)->Ok_0;
            &&& a.dir == config.logs_dir
            &&& a.path == dump_path_text(config.logs_dir, at_a.file.stamp(DAY_FILE_FORMAT@)->0)
            &&& a.path == b.path <==> at_a.file.stamp(DAY_FILE_FORMAT@) == at_b.file.stamp(
                DAY_FILE_FORMAT@,
            )
        }),
{
    lemma_day_file_by_name(
        config.logs_dir,
        at_a.file.stamp(DAY_FILE_FORMAT@)->0,
        at_b.file.stamp(DAY_FILE_FORMAT@)->0,
    );
}

/// The line of a log call does not depend on the day file: not on whether
/// an entry is asked for, nor on the directory, nor on the clock readings
/// taken for the entry.
pub proof fn lemma_line_ignores_entry(
    config: ConfigView,
    other: ConfigView,
    level: LogType,
    location: Seq<char>,
    message: Seq<char>,
    at: Readings,
    at_other: Readings,
)
    requires
        other.color == config.color,
        other.time == config.time,
        other.time_format == config.time_format,
        at_other.label == at.label,
        log_at_spec(config, level, location, message, at) is Ok,
        log_at_spec(other, level, location, message, at_other) is Ok,
    ensures
        log_at_spec(config, level, location, message, at)->Ok_0.line == log_at_spec(
            other,
            level,
            location,
            message,
            at_other,
        )->Ok_0.line,
{
}

/// With timestamps on, the line of a log call begins with the rendering of
/// the label's clock reading under the configured pattern, coloured where
/// colour is on; the line of the entry begins with the rendering of its own
/// clock reading under the same pattern.
pub proof fn lemma_stamps_follow_pattern(
    config: ConfigView,
    level: LogType,
    location: Seq<char>,
    message: Seq<char>,
    at: Readings,
)
    requires
        config.time,
        log_at_spec(config, level, location, message, at) is Ok,
    ensures
        ({
            let out = log_at_spec(config, level, location, message, at)->Ok_0;
            let stamp = at.label.stamp(config.time_format);
            &&& stamp is Some
            &&& holds_at(out.line, shown(config.color, stamp->0, Tone::Green), 0)
            &&& config.dump ==> {
                let entry_stamp = at.line.stamp(config.time_format);
                &&& out.dump is Some
                &&& entry_stamp is Some
                &&& holds_at(out.dump->0.line, entry_stamp->0, 0)
            }
        }),
{
    let out = log_at_spec(config, level, location, message, at)->Ok_0;
    let stamp = at.label.stamp(config.time_format)->0;
    let lead = shown(config.color, stamp, Tone::Green);
    assert(out.line.subrange(0, lead.len() as int) =~= lead);
    if config.dump {
        let entry_stamp = at.line.stamp(config.time_format)->0;
        assert(out.dump->0.line.subrange(0, entry_stamp.len() as int) =~= entry_stamp);
    }
}

} // verus!
