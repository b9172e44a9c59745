use ez_log::clock::Moment;
use ez_log::config::Config;
use ez_log::label::LogError;
use ez_log::level::LogType;
use ez_log::logger::{console_line, log_at, Readings};

const START: Moment = Moment { secs: 1_431_648_000, nanos: 1_000_000, offset: 0 };
const LATER: Moment = Moment { secs: 1_431_648_060, nanos: 2_000_000, offset: 0 };
const LATEST: Moment = Moment { secs: 1_431_648_120, nanos: 3_000_000, offset: 0 };
const FAR: Moment = Moment { secs: i64::MAX, nanos: 0, offset: 0 };

fn readings() -> Readings {
    Readings { label: START, file: LATER, line: LATEST }
}

#[test]
fn line_is_label_location_message() {
    assert_eq!(console_line("[INFO]", "src/main.rs", "hello"), "[INFO] [src/main.rs] hello");
    assert_eq!(console_line("", "", ""), " [] ");
    assert_eq!(console_line("L", "a b", "c\nd"), "L [a b] c\nd");
}

#[test]
fn server_started_scenario() {
    let config = Config::default();
    let message = format!("Server started on {}:{}", "127.0.0.1", 8000);
    let out = log_at(&config, LogType::Info, "src/main.rs", &message, &readings()).unwrap();
    assert_eq!(
        out.line,
        "\x1b[32m15/05/2015 00:00:00.001\x1b[0m [\x1b[94mINFO\x1b[0m] [src/main.rs] Server started on 127.0.0.1:8000"
    );
    assert!(out.dump.is_none());
}

#[test]
fn line_in_each_mode() {
    let at = readings();
    let plain = Config::new(false, false, false, None, None);
    let out = log_at(&plain, LogType::Warn, "a.rs", "m", &at).unwrap();
    assert_eq!(out.line, "[WARN] [a.rs] m");
    let coloured = Config::new(true, false, false, None, None);
    let out = log_at(&coloured, LogType::Warn, "a.rs", "m", &at).unwrap();
    assert_eq!(out.line, "[\x1b[93mWARN\x1b[0m] [a.rs] m");
    let timed = Config::new(false, true, false, None, None);
    let out = log_at(&timed, LogType::Error, "a.rs", "m", &at).unwrap();
    assert_eq!(out.line, "15/05/2015 00:00:00.001 [ERROR] [a.rs] m");
    let both = Config::new(true, true, false, None, None);
    let out = log_at(&both, LogType::Error, "a.rs", "m", &at).unwrap();
    assert_eq!(out.line, "\x1b[32m15/05/2015 00:00:00.001\x1b[0m [\x1b[91mERROR\x1b[0m] [a.rs] m");
}

#[test]
fn line_holds_name_location_message_in_order() {
    let at = readings();
    for level in [LogType::Info, LogType::Warn, LogType::Error] {
        for color in [false, true] {
            for time in [false, true] {
                let config = Config::new(color, time, false, None, None);
                let out = log_at(&config, level, "src/where.rs", "what happened", &at).unwrap();
                let i = out.line.find(level.name()).unwrap();
                let j = out.line.find("src/where.rs").unwrap();
                let k = out.line.find("what happened").unwrap();
                assert!(i + level.name().len() <= j);
                assert!(j + "src/where.rs".len() <= k);
                assert_eq!(k + "what happened".len(), out.line.len());
                assert!(!out.line.contains('\n'));
            }
        }
    }
}

#[test]
fn entry_has_its_own_clock_readings() {
    let config = Config::new(false, true, true, None, None);
    let out = log_at(&config, LogType::Info, "a.rs", "m", &readings()).unwrap();
    assert_eq!(out.line, "15/05/2015 00:00:00.001 [INFO] [a.rs] m");
    let entry = out.dump.unwrap();
    assert_eq!(entry.dir, "./logs");
    assert_eq!(entry.path, "./logs/15_05_2015");
    assert_eq!(entry.line, "15/05/2015 00:02:00.003 [INFO] [a.rs] m\n");
}

#[test]
fn entry_is_never_coloured() {
    let config = Config::new(true, true, true, None, None);
    let out = log_at(&config, LogType::Error, "a.rs", "m", &readings()).unwrap();
    let entry = out.dump.unwrap();
    assert_eq!(entry.line, "15/05/2015 00:02:00.003 [ERROR] [a.rs] m\n");
    assert!(out.line.contains('\x1b'));
}

#[test]
fn line_does_not_depend_on_the_entry() {
    let with = Config::new(true, true, true, None, Some(String::from("/elsewhere")));
    let without = Config::new(true, true, false, None, None);
    let a = log_at(&with, LogType::Info, "a.rs", "m", &readings()).unwrap();
    let other = Readings { label: START, file: START, line: START };
    let b = log_at(&without, LogType::Info, "a.rs", "m", &other).unwrap();
    assert_eq!(a.line, b.line);
    assert!(a.dump.is_some());
    assert!(b.dump.is_none());
}

#[test]
fn both_timestamps_follow_the_configured_pattern() {
    let pattern = "%Y-%m-%dT%H:%M:%S";
    let config = Config::new(false, true, true, Some(String::from(pattern)), None);
    let out = log_at(&config, LogType::Info, "a.rs", "m", &readings()).unwrap();
    let entry = out.dump.unwrap();
    assert_eq!(&out.line[..19], "2015-05-15T00:00:00");
    assert_eq!(&entry.line[..19], "2015-05-15T00:02:00");
    let shown = chrono::NaiveDateTime::parse_from_str(&out.line[..19], pattern).unwrap();
    let kept = chrono::NaiveDateTime::parse_from_str(&entry.line[..19], pattern).unwrap();
    assert_eq!(shown.and_utc().timestamp(), START.secs);
    assert_eq!(kept.and_utc().timestamp(), LATEST.secs);
}

#[test]
fn failures_come_in_order() {
    let config = Config::new(false, true, true, None, None);
    let at = Readings { label: FAR, file: FAR, line: FAR };
    assert_eq!(log_at(&config, LogType::Info, "a.rs", "m", &at).err(), Some(LogError::Timestamp));
    let at = Readings { label: START, file: FAR, line: FAR };
    assert_eq!(log_at(&config, LogType::Info, "a.rs", "m", &at).err(), Some(LogError::FileName));
    let at = Readings { label: START, file: START, line: FAR };
    assert_eq!(log_at(&config, LogType::Info, "a.rs", "m", &at).err(), Some(LogError::Timestamp));
    let quiet = Config::new(false, false, false, None, None);
    let at = Readings { label: FAR, file: FAR, line: FAR };
    assert_eq!(log_at(&quiet, LogType::Info, "a.rs", "m", &at).unwrap().line, "[INFO] [a.rs] m");
    let untimed = Config::new(false, false, true, None, None);
    let at = Readings { label: FAR, file: START, line: START };
    assert!(log_at(&untimed, LogType::Info, "a.rs", "m", &at).is_ok());
}
