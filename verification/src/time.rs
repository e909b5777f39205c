//! Spans of time and clock readings, exact to the nanosecond.

use vstd::prelude::*;

verus! {

/// The number of nanoseconds in a second.
pub const NANOS_PER_SEC: u32 = 1_000_000_000;

/// The number of nanoseconds in a millisecond.
pub const NANOS_PER_MILLI: u32 = 1_000_000;

/// A span of time. Its view is its length in nanoseconds.
#[derive(Clone, Copy, Debug, PartialEq, Eq)]
pub struct Duration {
    secs: u64,
    nanos: u32,
}

impl View for Duration {
    type V = nat;

    closed spec fn view(&self) -> nat {
        (self.secs * NANOS_PER_SEC + self.nanos) as nat
    }
}

impl Duration {
    #[verifier::type_invariant]
    spec fn subsec_in_range(self) -> bool {
        self.nanos < NANOS_PER_SEC
    }

    /// A span of `secs` whole seconds and `nanos` nanoseconds, if `nanos` is
    /// less than a second.
    pub fn new(secs: u64, nanos: u32) -> (result: Option<Duration>)
        ensures
            result is Some <==> nanos < NANOS_PER_SEC,
            result matches Some(d) ==> d@ == secs * NANOS_PER_SEC + nanos,
    {
        if nanos < NANOS_PER_SEC {
            Some(Duration { secs, nanos })
        } else {
            None
        }
    }

    /// A span of `secs` whole seconds.
    pub fn from_secs(secs: u64) -> (d: Duration)
        ensures
            d@ == secs * NANOS_PER_SEC,
    {
        Duration { secs, nanos: 0 }
    }

    /// A span of `millis` milliseconds.
    pub fn from_millis(millis: u64) -> (d: Duration)
        ensures
            d@ == millis * NANOS_PER_MILLI,
    {
        let sub: u32 = (millis % 1000) as u32;
        Duration { secs: millis / 1000, nanos: sub * NANOS_PER_MILLI }
    }

    /// The whole seconds of the span.
    pub fn as_secs(&self) -> (secs: u64)
        ensures
            secs == self@ / (NANOS_PER_SEC as nat),
    {
        proof {
            use_type_invariant(self);
        }
        self.secs
    }

    /// What the span holds beyond its whole seconds, in nanoseconds.
    pub fn subsec_nanos(&self) -> (nanos: u32)
        ensures
            nanos == self@ % (NANOS_PER_SEC as nat),
    {
        proof {
            use_type_invariant(self);
        }
        self.nanos
    }

    /// Whether the span is shorter than `other`.
    pub fn is_shorter_than(&self, other: &Duration) -> (shorter: bool)
        ensures
            shorter <==> self@ < other@,
    {
        proof {
            use_type_invariant(self);
            use_type_invariant(other);
        }
        self.secs < other.secs || (self.secs == other.secs && self.nanos < other.nanos)
    }

    /// The span less `other`, if `other` is not the longer of the two.
    pub fn checked_sub(&self, other: &Duration) -> (result: Option<Duration>)
        ensures
            result is Some <==> self@ >= other@,
            result matches Some(d) ==> d@ == self@ - other@,
    {
        proof {
            use_type_invariant(self);
            use_type_invariant(other);
        }
        if self.is_shorter_than(other) {
            None
        } else if self.nanos >= other.nanos {
            Some(Duration { secs: self.secs - other.secs, nanos: self.nanos - other.nanos })
        } else {
            Some(
                Duration {
                    secs: self.secs - other.secs - 1,
                    nanos: self.nanos + NANOS_PER_SEC - other.nanos,
                },
            )
        }
    }
}

/// The time that has passed from `start` to `now`, in nanoseconds; nothing
/// if `now` is the earlier of the two.
pub open spec fn elapsed(start: nat, now: nat) -> Option<nat> {
    if now >= start {
        Some((now - start) as nat)
    } else {
        None
    }
}

/// A reading of the clock. Its view is the time since the Unix epoch, in
/// nanoseconds.
#[derive(Clone, Copy, Debug, PartialEq, Eq)]
pub struct Timestamp {
    since_epoch: Duration,
}

impl View for Timestamp {
    type V = nat;

    closed spec fn view(&self) -> nat {
        self.since_epoch@
    }
}

impl Timestamp {
    /// The moment that lies `since_epoch` after the Unix epoch.
    pub fn from_epoch(since_epoch: Duration) -> (t: Timestamp)
        ensures
            t@ == since_epoch@,
    {
        Timestamp { since_epoch }
    }

    /// The time from the Unix epoch to this moment.
    pub fn since_epoch(&self) -> (d: Duration)
        ensures
            d@ == self@,
    {
        self.since_epoch
    }

    /// The time that has passed from `earlier` to this moment; nothing if
    /// this moment is the earlier of the two.
    pub fn duration_since(&self, earlier: &Timestamp) -> (result: Option<Duration>)
        ensures
            result is Some <==> self@ >= earlier@,
            result matches Some(d) ==> d@ == self@ - earlier@,
            (match result {
                Some(d) => Some(d@),
                None => None,
            }) == elapsed(earlier@, self@),
    {
        self.since_epoch.checked_sub(&earlier.since_epoch)
    }
}

/// A reading of the system clock as `std::time` gives it, of which nothing
/// is read here but through [`span_since_epoch`].
#[verifier::external_type_specification]
#[verifier::external_body]
pub struct ExSystemTime(std::time::SystemTime);

/// Calls `SystemTime::now`, which reads the system clock. Nothing is
/// claimed of the reading.
#[verifier::external_body]
pub(crate) fn clock() -> (reading: std::time::SystemTime) {
    std::time::SystemTime::now()
}

/// Calls `SystemTime::duration_since` with the Unix epoch, which gives the
/// time from the epoch to `reading`, and fails for a reading that lies
/// before the epoch. The span is taken over by its whole seconds and by the
/// nanoseconds beyond them, which `Duration::subsec_nanos` keeps below a
/// second. Nothing else is claimed of the result.
#[verifier::external_body]
pub(crate) fn span_since_epoch(reading: &std::time::SystemTime) -> (since: Option<Duration>) {
    match reading.duration_since(std::time::UNIX_EPOCH) {
        Ok(since) => Some(Duration { secs: since.as_secs(), nanos: since.subsec_nanos() }),
        Err(_) => None,
    }
}

/// The reading of the system clock. A clock that stands before the Unix
/// epoch reads as the epoch.
pub(crate) fn system_now() -> (now: Timestamp) {
    let reading = clock();
    Timestamp::from_reading(span_since_epoch(&reading))
}

impl Timestamp {
    /// The moment that a clock shows which stands `since` after the Unix
    /// epoch; the epoch itself for a clock that stands before it, of which
    /// no such span can be had.
    pub fn from_reading(since: Option<Duration>) -> (t: Timestamp)
        ensures
            t@ == (match since {
                Some(span) => span@,
                None => 0,
            }),
    {
        match since {
            Some(span) => Timestamp::from_epoch(span),
            None => Timestamp::from_epoch(Duration::from_secs(0)),
        }
    }
}

/// The text that `humantime::format_duration` writes for a span of
/// `nanos` nanoseconds.
pub uninterp spec fn humantime_text(nanos: nat) -> Seq<char>;

/// Calls `humantime::format_duration` on the span, handed over by its whole
/// seconds and the nanoseconds beyond them, and takes the text that its
/// result displays. The text depends on the span alone.
#[verifier::external_body]
pub(crate) fn format_duration(span: &Duration) -> (text: String)
    ensures
        text@ == humantime_text(span@),
{
    humantime::format_duration(std::time::Duration::new(span.secs, span.nanos)).to_string()
}

} // verus!
