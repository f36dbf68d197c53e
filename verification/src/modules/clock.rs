//! The clock: day of the month, hour, minute and second at a fixed distance
//! from UTC.

use std::fmt::Write;
use vstd::prelude::*;

verus! {

/// How far the clock is ahead of UTC, in seconds.
pub const CLOCK_OFFSET: i32 = 10800;

/// The layout of the clock text: day, hour, minute and second, two digits
/// each, with a space between them.
pub const CLOCK_PATTERN: &'static str = "%d %H %M %S";

/// The text that chrono formats for the instant `seconds` after the Unix
/// epoch, seen `offset` seconds east of UTC, under the strftime pattern
/// `pattern`; `None` where chrono refuses the instant, the offset or the
/// pattern.
pub uninterp spec fn formatted_instant(seconds: i64, offset: i32, pattern: Seq<char>) -> Option<
    Seq<char>,
>;

/// Reads the system clock through `chrono::Utc::now` and returns the whole
/// seconds since the Unix epoch (`DateTime::timestamp`). Nothing is claimed
/// of the value. chrono itself stops the program if the system clock stands
/// before the epoch.
#[verifier::external_body]
pub(crate) fn now_seconds() -> i64 {
    chrono::Utc::now().timestamp()
}

/// Formats an instant with chrono: `DateTime::from_timestamp` makes the UTC
/// time, `FixedOffset::east_opt` the zone, `DateTime::with_timezone` moves
/// the time there and `DateTime::format` lays it out. The result is the
/// text that these calls produce for the three arguments, and `None` where
/// one of them fails.
#[verifier::external_body]
fn format_instant(seconds: i64, offset: i32, pattern: &str) -> (text: Option<String>)
    ensures
        text is Some <==> formatted_instant(seconds, offset, pattern@) is Some,
        text matches Some(t) ==> formatted_instant(seconds, offset, pattern@) == Some(t@),
{
    let utc = chrono::DateTime::from_timestamp(seconds, 0)?;
    let zone = chrono::FixedOffset::east_opt(offset)?;
    let mut text = String::new();
    write!(text, "{}", utc.with_timezone(&zone).format(pattern)).ok()?;
    Some(text)
}

/// The clock module. It keeps nothing between two readings.
#[derive(Debug, Clone, Copy, PartialEq, Eq, Structural)]
pub struct ClockModule {}

impl ClockModule {
    pub fn new() -> (clock: ClockModule)
        ensures
            clock == (ClockModule {  }),
    {
        ClockModule {  }
    }

    /// What the clock shows at the instant `seconds` after the Unix epoch:
    /// the formatted time, or nothing where the instant cannot be formatted.
    pub open spec fn shown_at(seconds: i64) -> Seq<char> {
        match formatted_instant(seconds, CLOCK_OFFSET, CLOCK_PATTERN@) {
            Some(text) => text,
            None => Seq::empty(),
        }
    }

    /// The clock text for the instant `seconds` after the Unix epoch.
    pub fn display_at(&self, seconds: i64) -> (text: String)
        ensures
            text@ == ClockModule::shown_at(seconds),
    {
        match format_instant(seconds, CLOCK_OFFSET, CLOCK_PATTERN) {
            Some(text) => text,
            None => String::new(),
        }
    }

    /// The clock text for the present instant.
    pub fn display(&mut self) -> (text: String)
        ensures
            exists|seconds: i64| text@ == ClockModule::shown_at(seconds),
            *final(self) == *old(self),
    {
        let now: i64 = now_seconds();
        self.display_at(now)
    }
}

} // verus!
