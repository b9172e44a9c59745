//! Points in time and their rendering under a strftime-style pattern.

use vstd::prelude::*;

verus! {

/// The pattern under which timestamps are rendered when none is configured:
/// day/month/year hour:minute:second.millisecond.
pub const DEFAULT_TIME_FORMAT: &'static str = "%d/%m/%Y %H:%M:%S%.3f";

/// The pattern that names the file of a day: day, month and year, zero-padded
/// and joined by underscores.
pub const DAY_FILE_FORMAT: &'static str = "%d_%m_%Y";

/// A point in time as the local clock shows it.
#[derive(Clone, Copy, Debug, PartialEq, Eq, Structural)]
pub struct Moment {
    /// Whole seconds since 1970-01-01 00:00:00 UTC, leap seconds not counted.
    pub secs: i64,
    /// Nanoseconds since the last whole second.
    pub nanos: u32,
    /// Seconds that local time is ahead of UTC.
    pub offset: i32,
}

/// What chrono writes for the point in time `secs`, `nanos`, seen `offset`
/// seconds east of UTC, under `pattern`; `None` where chrono cannot hold that
/// point in time or gives up on the pattern.
pub uninterp spec fn rendered(secs: i64, nanos: u32, offset: i32, pattern: Seq<char>) -> Option<Seq<char>>;

impl Moment {
    /// The rendering of this moment under `pattern`, where there is one.
    pub open spec fn stamp(self, pattern: Seq<char>) -> Option<Seq<char>> {
        rendered(self.secs, self.nanos, self.offset, pattern)
    }

    /// This moment can be rendered both as the name of a day file and under
    /// the default pattern.
    pub open spec fn renders(self) -> bool {
        self.stamp(DAY_FILE_FORMAT@) is Some && self.stamp(DEFAULT_TIME_FORMAT@) is Some
    }

    /// Renders this moment under `pattern`; `None` where it cannot be
    /// rendered.
    pub fn format(&self, pattern: &str) -> (res: Option<String>)
        ensures
            res.deep_view() == self.stamp(pattern@),
    {
        render(self.secs, self.nanos, self.offset, pattern)
    }
}

/// Calls `chrono::Local::now` and takes the result apart with
/// `DateTime::timestamp`, `DateTime::timestamp_subsec_nanos` and
/// `FixedOffset::local_minus_utc`. Trusted: the reading can be rendered under
/// the two patterns of this file. The three numbers come from a `DateTime`
/// that chrono holds, so `DateTime::from_timestamp` and `FixedOffset::east_opt`
/// take them back, and both patterns are made of specifiers that chrono
/// writes for every date and time. Nothing else is claimed of the reading: it
/// is whatever the machine's clock and time zone say. chrono panics where the
/// system clock stands before 1970.
#[verifier::external_body]
pub(crate) fn local_now() -> (res: Moment)
    ensures
        res.renders(),
{
    let t = chrono::Local::now();
    Moment {
        secs: t.timestamp(),
        nanos: t.timestamp_subsec_nanos(),
        offset: t.offset().local_minus_utc(),
    }
}

/// Builds a `chrono::DateTime<FixedOffset>` with `FixedOffset::east_opt`,
/// `DateTime::from_timestamp` and `DateTime::with_timezone`, and writes it
/// with `DateTime::format` and `DelayedFormat::write_to`. Trusted: the result
/// depends on the four arguments alone, and is `None` where one of the two
/// constructors refuses its arguments or `write_to` returns an error.
#[verifier::external_body]
pub(crate) fn render(secs: i64, nanos: u32, offset: i32, pattern: &str) -> (res: Option<String>)
    ensures
        res.deep_view() == rendered(secs, nanos, offset, pattern@),
{
    let zone = chrono::FixedOffset::east_opt(offset)?;
    let utc = chrono::DateTime::from_timestamp(secs, nanos)?;
    let mut out = String::new();
    match utc.with_timezone(&zone).format(pattern).write_to(&mut out) {
        Ok(()) => Some(out),
        Err(_) => None,
    }
}

/// Renders the current local time under `pattern`. The result is the
/// rendering of the moment at which the clock was read; `None` where that
/// moment cannot be rendered under `pattern`, which does not happen with the
/// default pattern nor with that of the day file.
pub fn get_formatted_time(pattern: &str) -> (res: Option<String>)
    ensures
        exists|at: Moment| at.renders() && res.deep_view() == #[trigger] at.stamp(pattern@),
        pattern@ == DEFAULT_TIME_FORMAT@ || pattern@ == DAY_FILE_FORMAT@ ==> res is Some,
{
    let at = local_now();
    let res = at.format(pattern);
    assert(at.renders() && res.deep_view() == at.stamp(pattern@));
    res
}

} // verus!
