use ez_log::clock::Moment;
use ez_log::config::Config;
use ez_log::label::{compose_label, get_msg_label_at, LogError};
use ez_log::level::LogType;
use ez_log::paint::Tone;

const NOON: Moment = Moment { secs: 1_431_691_200, nanos: 250_000_000, offset: 0 };

#[test]
fn level_names_are_fixed() {
    assert_eq!(LogType::Info.name(), "INFO");
    assert_eq!(LogType::Warn.name(), "WARN");
    assert_eq!(LogType::Error.name(), "ERROR");
}

#[test]
fn level_tones_are_blue_yellow_red() {
    assert_eq!(LogType::Info.tone(), Tone::BrightBlue);
    assert_eq!(LogType::Warn.tone(), Tone::BrightYellow);
    assert_eq!(LogType::Error.tone(), Tone::BrightRed);
}

#[test]
fn plain_labels() {
    assert_eq!(compose_label(false, LogType::Info, None), "[INFO]");
    assert_eq!(compose_label(false, LogType::Warn, None), "[WARN]");
    assert_eq!(compose_label(false, LogType::Error, None), "[ERROR]");
}

#[test]
fn coloured_labels() {
    assert_eq!(compose_label(true, LogType::Info, None), "[\x1b[94mINFO\x1b[0m]");
    assert_eq!(compose_label(true, LogType::Warn, None), "[\x1b[93mWARN\x1b[0m]");
    assert_eq!(compose_label(true, LogType::Error, None), "[\x1b[91mERROR\x1b[0m]");
}

#[test]
fn timed_labels() {
    assert_eq!(compose_label(false, LogType::Info, Some("12:00")), "12:00 [INFO]");
    assert_eq!(compose_label(false, LogType::Warn, Some("12:00")), "12:00 [WARN]");
    assert_eq!(compose_label(false, LogType::Error, Some("")), " [ERROR]");
}

#[test]
fn coloured_and_timed_labels() {
    assert_eq!(
        compose_label(true, LogType::Info, Some("12:00")),
        "\x1b[32m12:00\x1b[0m [\x1b[94mINFO\x1b[0m]"
    );
    assert_eq!(
        compose_label(true, LogType::Warn, Some("12:00")),
        "\x1b[32m12:00\x1b[0m [\x1b[93mWARN\x1b[0m]"
    );
    assert_eq!(
        compose_label(true, LogType::Error, Some("12:00")),
        "\x1b[32m12:00\x1b[0m [\x1b[91mERROR\x1b[0m]"
    );
}

#[test]
fn label_holds_the_name_in_every_mode() {
    for level in [LogType::Info, LogType::Warn, LogType::Error] {
        for color in [false, true] {
            for stamp in [None, Some("01/01/1970 00:00:00.000")] {
                let label = compose_label(color, level, stamp);
                let lead = match (stamp, color) {
                    (None, _) => 0,
                    (Some(s), false) => s.len() + 1,
                    (Some(s), true) => 5 + s.len() + 4 + 1,
                };
                let start = lead + 1 + if color { 5 } else { 0 };
                assert_eq!(&label[start..start + level.name().len()], level.name());
            }
        }
    }
}

#[test]
fn label_at_a_moment_follows_the_configuration() {
    let plain = Config::new(false, false, false, None, None);
    assert_eq!(get_msg_label_at(&plain, LogType::Info, &NOON), Ok(String::from("[INFO]")));
    let coloured = Config::new(true, false, false, None, None);
    assert_eq!(
        get_msg_label_at(&coloured, LogType::Info, &NOON),
        Ok(String::from("[\x1b[94mINFO\x1b[0m]"))
    );
    let timed = Config::new(false, true, false, None, None);
    assert_eq!(
        get_msg_label_at(&timed, LogType::Warn, &NOON),
        Ok(String::from("15/05/2015 12:00:00.250 [WARN]"))
    );
    let both = Config::default();
    assert_eq!(
        get_msg_label_at(&both, LogType::Error, &NOON),
        Ok(String::from("\x1b[32m15/05/2015 12:00:00.250\x1b[0m [\x1b[91mERROR\x1b[0m]"))
    );
    let custom = Config::new(false, true, false, Some(String::from("%H.%M")), None);
    assert_eq!(get_msg_label_at(&custom, LogType::Info, &NOON), Ok(String::from("12.00 [INFO]")));
}

#[test]
fn label_fails_only_where_a_timestamp_is_asked_for() {
    let bad = Some(String::from("%d/%"));
    let timed = Config::new(true, true, false, bad.clone(), None);
    assert_eq!(get_msg_label_at(&timed, LogType::Info, &NOON), Err(LogError::Timestamp));
    let untimed = Config::new(true, false, false, bad, None);
    assert_eq!(
        get_msg_label_at(&untimed, LogType::Info, &NOON),
        Ok(String::from("[\x1b[94mINFO\x1b[0m]"))
    );
    let far = Moment { secs: i64::MAX, nanos: 0, offset: 0 };
    let timed = Config::new(false, true, false, None, None);
    assert_eq!(get_msg_label_at(&timed, LogType::Info, &far), Err(LogError::Timestamp));
}

#[test]
fn no_two_levels_share_a_label() {
    let levels = [LogType::Info, LogType::Warn, LogType::Error];
    for color in [false, true] {
        for stamp in [None, Some(""), Some("12:00"), Some("\x1b[0m")] {
            for a in levels {
                for b in levels {
                    let same = compose_label(color, a, stamp) == compose_label(color, b, stamp);
                    assert_eq!(same, a == b);
                }
            }
        }
    }
    let config = Config::default();
    assert_ne!(
        get_msg_label_at(&config, LogType::Info, &NOON),
        get_msg_label_at(&config, LogType::Warn, &NOON)
    );
}

#[test]
fn label_is_one_line_and_ends_with_the_bracketed_name() {
    for level in [LogType::Info, LogType::Warn, LogType::Error] {
        for stamp in [None, Some(""), Some("15/05/2015 12:00:00.250")] {
            let plain = compose_label(false, level, stamp);
            assert!(!plain.is_empty());
            assert!(!plain.contains('\n'));
            assert!(!plain.contains('\r'));
            assert!(plain.ends_with(&format!("[{}]", level.name())));
            let coloured = compose_label(true, level, stamp);
            assert!(!coloured.contains('\n'));
            assert!(!coloured.contains('\r'));
            assert!(coloured.ends_with(&format!("{}\x1b[0m]", level.name())));
        }
    }
}
