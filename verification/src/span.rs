//! Lengths of time.

use vstd::prelude::*;

verus! {

/// A length of time: whole seconds, and nanoseconds under one more.
#[derive(Clone, Copy, Debug, PartialEq, Eq, Structural)]
pub struct Span {
    pub seconds: u64,
    pub nanos: u32,
}

/// A number, or the most a `u32` can say.
pub open spec fn at_most_u32(value: int) -> u32 {
    if value > u32::MAX {
        u32::MAX
    } else {
        value as u32
    }
}

impl Span {
    /// The whole milliseconds of it.
    pub open spec fn millis(self) -> int {
        self.seconds * 1000 + self.nanos as int / 1_000_000
    }

    /// The whole seconds of it, with anything at all counting as one.
    pub open spec fn rounded(self) -> u32 {
        if self.seconds == 0 && self.nanos > 0 {
            1
        } else {
            at_most_u32(self.seconds as int)
        }
    }

    #[must_use]
    pub fn from_secs(seconds: u64) -> (span: Span)
        ensures
            span == (Span { seconds, nanos: 0 }),
    {
        Span { seconds, nanos: 0 }
    }

    #[must_use]
    pub fn from_millis(millis: u64) -> (span: Span)
        ensures
            span.millis() == millis,
            span.nanos < 1_000_000_000,
            span.nanos % 1_000_000 == 0,
    {
        let part: u64 = millis % 1000;
        let nanos: u32 = part as u32 * 1_000_000;
        Span { seconds: millis / 1000, nanos }
    }

    /// The whole milliseconds, or the most a wire number can say.
    #[must_use]
    pub fn wire_millis(self) -> (millis: u32)
        ensures
            millis == at_most_u32(self.millis()),
    {
        let millis: u128 = self.seconds as u128 * 1000 + (self.nanos / 1_000_000) as u128;
        if millis > u32::MAX as u128 {
            u32::MAX
        } else {
            millis as u32
        }
    }
}

/// The seconds a request asks for. A request for part of a second asks for one
/// and not for none.
#[must_use]
pub fn whole_seconds(duration: Span) -> (seconds: u32)
    ensures
        seconds == duration.rounded(),
{
    if duration.seconds == 0 && duration.nanos > 0 {
        return 1;
    }
    if duration.seconds > u32::MAX as u64 {
        u32::MAX
    } else {
        duration.seconds as u32
    }
}

/// A request asks for as many whole seconds as it lasts, up to the most that can
/// be said; for no time at all it asks for none, and for any part of a second it
/// asks for one.
pub proof fn law_seconds_are_rounded_to_be_asked_for(span: Span)
    ensures
        1 <= span.seconds <= u32::MAX ==> span.rounded() == span.seconds,
        span.seconds > u32::MAX ==> span.rounded() == u32::MAX,
        span.seconds == 0 && span.nanos > 0 ==> span.rounded() == 1,
        span.rounded() == 0 <==> span.seconds == 0 && span.nanos == 0,
{
}

/// A number is told as it is, up to the most that can be said.
pub proof fn law_numbers_are_told_as_they_are(value: int, other: int)
    requires
        0 <= value <= other,
    ensures
        value <= u32::MAX ==> at_most_u32(value) == value,
        value > u32::MAX ==> at_most_u32(value) == u32::MAX,
        at_most_u32(value) <= at_most_u32(other),
{
}

} // verus!
