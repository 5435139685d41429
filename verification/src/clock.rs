//! Wall-clock times and the conversion between time zones.
//!
//! A stored time carries no zone. Displaying it takes two steps that are kept
//! apart: the stored time is first taken to belong to some zone, and the
//! moment so fixed is then read off the clock of the display zone.

use vstd::prelude::*;
use chrono::{DateTime, Local, LocalResult, TimeZone};

verus! {

/// Offset of the zone in which every time is displayed: nine hours east of
/// Greenwich.
pub const DISPLAY_OFFSET_SECONDS: i32 = 9 * 3600;

/// The pattern in which a displayed time is written: year, month and day,
/// then hour, minute and second.
pub const DISPLAY_PATTERN: &'static str = "%Y-%m-%d %H:%M:%S";

/// A date and time of day with no zone attached, counted in seconds from the
/// start of 1970 on the clock that wrote it.
#[derive(Clone, Copy, Debug, PartialEq, Eq, Structural)]
pub struct NaiveTimestamp {
    pub seconds: i64,
}

/// A moment as the clock of one zone shows it.
#[derive(Clone, Copy, Debug, PartialEq, Eq, Structural)]
pub struct ZonedTimestamp {
    /// What the zone's clock shows, in seconds from the start of 1970.
    pub local_seconds: i64,
    /// How far the zone's clock is ahead of Greenwich, in seconds.
    pub offset_seconds: i32,
}

/// The offsets that a naive time can have in the zone of this machine.
#[derive(Clone, Copy, Debug, PartialEq, Eq, Structural)]
pub enum LocalOffset {
    /// The zone's clock never showed this time, or the zone could not be
    /// asked about it.
    Missing,
    /// The zone's clock showed this time once, at this offset in seconds.
    Single(i32),
    /// The zone's clock showed this time twice, first at the one offset and
    /// then at the other.
    Ambiguous(i32, i32),
}

/// Whether `seconds` is an offset that a zone can have: less than a day
/// either way.
pub open spec fn is_zone_offset(seconds: int) -> bool {
    -86_400 < seconds < 86_400
}

impl ZonedTimestamp {
    /// The moment itself, in seconds from the start of 1970 at Greenwich.
    pub open spec fn instant(self) -> int {
        self.local_seconds - self.offset_seconds
    }
}

impl LocalOffset {
    /// Whether every offset held is one that a zone can have.
    pub open spec fn in_range(self) -> bool {
        match self {
            LocalOffset::Missing => true,
            LocalOffset::Single(offset) => is_zone_offset(offset as int),
            LocalOffset::Ambiguous(earlier, later) => is_zone_offset(earlier as int)
                && is_zone_offset(later as int),
        }
    }
}

/// First step: takes a naive time to be the clock reading of the zone at
/// `offset_seconds`.
pub fn attach_assumed_zone(naive: NaiveTimestamp, offset_seconds: i32) -> (zoned: ZonedTimestamp)
    ensures
        zoned.local_seconds == naive.seconds,
        zoned.offset_seconds == offset_seconds,
        zoned.instant() == naive.seconds - offset_seconds,
{
    ZonedTimestamp { local_seconds: naive.seconds, offset_seconds }
}

/// Second step: the same moment on the clock of the zone at
/// `offset_seconds`, or nothing where that reading does not fit the counter.
pub fn convert_zone(at: ZonedTimestamp, offset_seconds: i32) -> (moved: Option<ZonedTimestamp>)
    ensures
        match moved {
            Some(zoned) => zoned.offset_seconds == offset_seconds && zoned.instant()
                == at.instant(),
            None => !(i64::MIN <= at.instant() + offset_seconds <= i64::MAX),
        },
{
    let shift: i64 = offset_seconds as i64 - at.offset_seconds as i64;
    match at.local_seconds.checked_add(shift) {
        Some(local_seconds) => Some(ZonedTimestamp { local_seconds, offset_seconds }),
        None => None,
    }
}

/// The reading of the display zone's clock for a naive time that was written
/// in the zone at `assumed_offset_seconds`.
pub open spec fn display_seconds(naive: NaiveTimestamp, assumed_offset_seconds: int) -> int {
    naive.seconds - assumed_offset_seconds + DISPLAY_OFFSET_SECONDS
}

/// Both steps in a row, towards the display zone.
pub fn display_time(naive: NaiveTimestamp, assumed_offset_seconds: i32) -> (shown: Option<
    ZonedTimestamp,
>)
    ensures
        match shown {
            Some(zoned) => zoned.offset_seconds == DISPLAY_OFFSET_SECONDS && zoned.local_seconds
                == display_seconds(naive, assumed_offset_seconds as int),
            None => !(i64::MIN <= display_seconds(naive, assumed_offset_seconds as int)
                <= i64::MAX),
        },
{
    convert_zone(attach_assumed_zone(naive, assumed_offset_seconds), DISPLAY_OFFSET_SECONDS)
}

/// The display depends on the zone that a stored time is taken to belong
/// to: a time taken to be Greenwich time is shown nine hours later than it
/// was written, a time taken to be display-zone time is shown as it was
/// written, and taking a zone that is `offset_seconds` further east shows
/// every time that much earlier.
pub proof fn lemma_display_follows_assumed_zone(naive: NaiveTimestamp, offset_seconds: int)
    ensures
        display_seconds(naive, 0) == naive.seconds + 9 * 3600,
        display_seconds(naive, DISPLAY_OFFSET_SECONDS as int) == naive.seconds,
        display_seconds(naive, offset_seconds) == display_seconds(naive, 0) - offset_seconds,
{
}

/// What `chrono` writes for the date and time `seconds` after the start of
/// 1970 under `pattern`, where it writes anything.
pub uninterp spec fn clock_text(seconds: int, pattern: Seq<char>) -> Option<Seq<char>>;

/// Writes a clock reading under a pattern.
///
/// Calls `chrono::DateTime::from_timestamp`, which gives nothing where the
/// calendar cannot hold the reading, then `NaiveDateTime::format` and
/// `DelayedFormat::write_to`, which gives an error on a pattern that cannot
/// be written. The contract claims that the text depends on the reading and
/// the pattern alone.
#[verifier::external_body]
pub(crate) fn write_clock(seconds: i64, pattern: &str) -> (text: Option<String>)
    ensures
        match text {
            Some(written) => clock_text(seconds as int, pattern@) == Some(written@),
            None => clock_text(seconds as int, pattern@) is None,
        },
{
    let reading = DateTime::from_timestamp(seconds, 0)?.naive_utc();
    let mut written = String::new();
    reading.format(pattern).write_to(&mut written).ok()?;
    Some(written)
}

/// Asks the zone of this machine which offsets it had when its clock showed
/// `naive`.
///
/// Calls `chrono::Local::offset_from_local_datetime`, which reads the zone
/// from the environment. The contract claims no more than what
/// `chrono::FixedOffset` guarantees of any offset: less than a day either
/// way.
#[verifier::external_body]
pub(crate) fn local_offset_at(naive: NaiveTimestamp) -> (found: LocalOffset)
    ensures
        found.in_range(),
{
    let Some(reading) = DateTime::from_timestamp(naive.seconds, 0) else {
        return LocalOffset::Missing;
    };
    match Local.offset_from_local_datetime(&reading.naive_utc()) {
        LocalResult::None => LocalOffset::Missing,
        LocalResult::Single(offset) => LocalOffset::Single(offset.local_minus_utc()),
        LocalResult::Ambiguous(earlier, later) => LocalOffset::Ambiguous(
            earlier.local_minus_utc(),
            later.local_minus_utc(),
        ),
    }
}

} // verus!
