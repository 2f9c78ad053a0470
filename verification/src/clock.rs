//! The time of capture, as text.

use vstd::prelude::*;

verus! {

/// The last second, counted from the Unix epoch, that falls in the year 9999: the latest
/// time that the textual format can write.
pub const MAX_SECONDS: u64 = 253402300799;

/// A reading of the clock: whole seconds since the Unix epoch, and the nanoseconds past them.
#[derive(Clone, Copy, Debug, PartialEq, Eq, Structural)]
pub struct ClockReading {
    pub seconds: u64,
    pub nanos: u32,
}

/// The RFC 2822 text of the moment `seconds` and `nanos` past the Unix epoch, in UTC.
pub uninterp spec fn rfc2822(seconds: int, nanos: int) -> Seq<char>;

/// `std::time::SystemTime::now` as the time past `UNIX_EPOCH`, or `None` where the clock
/// reads earlier than the epoch. The contract says that the nanoseconds are less than a
/// second, as `Duration::subsec_nanos` documents.
#[verifier::external_body]
fn clock_now() -> (reading: Option<ClockReading>)
    ensures
        reading.is_some() ==> reading.unwrap().nanos < 1_000_000_000,
{
    match std::time::SystemTime::now().duration_since(std::time::UNIX_EPOCH) {
        Ok(d) => Some(ClockReading { seconds: d.as_secs(), nanos: d.subsec_nanos() }),
        Err(_) => None,
    }
}

/// `chrono::DateTime::from_timestamp`, then `DateTime::to_rfc2822`. Within the years 1970 to
/// 9999 the first gives a date and the second does not panic; the contract says only that
/// the text is a function of the two numbers.
#[verifier::external_body]
fn rfc2822_text(seconds: i64, nanos: u32) -> (text: String)
    requires
        0 <= seconds <= MAX_SECONDS,
        nanos < 1_000_000_000,
    ensures
        text@ == rfc2822(seconds as int, nanos as int),
{
    chrono::DateTime::from_timestamp(seconds, nanos).unwrap().to_rfc2822()
}

/// The moment that is written for a clock reading: the reading itself, held to the
/// years that the format can write; the epoch where there is no reading.
pub open spec fn written(reading: Option<ClockReading>) -> ClockReading {
    match reading {
        Some(r) => ClockReading {
            seconds: if r.seconds <= MAX_SECONDS { r.seconds } else { MAX_SECONDS },
            nanos: if r.nanos < 1_000_000_000 { r.nanos } else { 999_999_999 },
        },
        None => ClockReading { seconds: 0, nanos: 0 },
    }
}

/// Writes a clock reading as RFC 2822 text in UTC.
pub fn timestamp(reading: Option<ClockReading>) -> (text: String)
    ensures
        text@ == rfc2822(written(reading).seconds as int, written(reading).nanos as int),
{
    let (seconds, nanos): (u64, u32) = match reading {
        Some(r) => (
            if r.seconds <= MAX_SECONDS { r.seconds } else { MAX_SECONDS },
            if r.nanos < 1_000_000_000 { r.nanos } else { 999_999_999 },
        ),
        None => (0, 0),
    };
    rfc2822_text(seconds as i64, nanos)
}

/// Whether `text` is what `timestamp` writes for some clock reading.
pub open spec fn is_timestamp(text: Seq<char>) -> bool {
    exists|reading: Option<ClockReading>|
        text == rfc2822(
            (#[trigger] written(reading)).seconds as int,
            written(reading).nanos as int,
        )
}

/// The current time as RFC 2822 text in UTC.
pub fn now_text() -> (text: String)
    ensures
        is_timestamp(text@),
{
    let reading = clock_now();
    let text = timestamp(reading);
    assert(text@ == rfc2822(written(reading).seconds as int, written(reading).nanos as int));
    text
}

} // verus!
