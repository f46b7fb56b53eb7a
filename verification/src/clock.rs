//! Instants in UTC, read from and formatted by `chrono`.
use vstd::prelude::*;

verus! {

/// The largest instant `chrono` can represent, in seconds since the Unix epoch
/// (the last second of year 262142).
pub const MAX_UNIX_SECS: i64 = 8_210_266_876_799;

/// The first second that `chrono` can represent: the start of January 1, 262144 BCE.
pub const MIN_UNIX_SECS: i64 = -8_334_601_228_800;

/// An instant in UTC: whole seconds since the Unix epoch and the nanoseconds past them.
/// Instants compare by seconds, then by nanoseconds, as `chrono::DateTime<Utc>` does.
#[derive(Debug, Clone, Copy, PartialEq, Eq, Structural)]
pub struct Timestamp {
    pub secs: i64,
    pub nanos: u32,
}

impl Timestamp {
    /// An instant that `chrono` can represent, without a leap second.
    pub open spec fn wf(self) -> bool {
        MIN_UNIX_SECS <= self.secs <= MAX_UNIX_SECS && self.nanos < 1_000_000_000
    }

    /// `self` is not earlier than `other`.
    pub open spec fn spec_ge(self, other: Timestamp) -> bool {
        self.secs > other.secs || (self.secs == other.secs && self.nanos >= other.nanos)
    }

    pub fn is_at_or_after(&self, other: &Timestamp) -> (b: bool)
        ensures
            b == self.spec_ge(*other),
    {
        self.secs > other.secs || (self.secs == other.secs && self.nanos >= other.nanos)
    }
}

/// What `chrono` writes for a valid instant with the pattern `%Y-%m-%d %H:%M:%S UTC`.
pub uninterp spec fn utc_text(secs: i64, nanos: u32) -> Seq<char>;

/// `chrono::Utc::now()`, taken apart into seconds and nanoseconds. Its source builds the
/// value with `DateTime::from_timestamp(d.as_secs(), d.subsec_nanos()).unwrap()` from the
/// time since the epoch (and panics before the epoch), so the instant is well formed; which
/// instant it is depends on the clock and is not stated.
#[verifier::external_body]
pub(crate) fn utc_now() -> (t: Timestamp)
    ensures
        t.wf(),
{
    let now = chrono::Utc::now();
    Timestamp { secs: now.timestamp(), nanos: now.timestamp_subsec_nanos() }
}

/// `chrono::DateTime::from_timestamp(secs, nanos)` formatted with
/// `%Y-%m-%d %H:%M:%S UTC`. For a well formed instant `from_timestamp` returns a value
/// (its source only refuses days outside `i32` and years outside the representable range,
/// and nanoseconds from one second up), so the `unwrap` cannot fail; the text is named.
#[verifier::external_body]
pub(crate) fn format_utc(t: Timestamp) -> (s: String)
    requires
        t.wf(),
    ensures
        s@ == utc_text(t.secs, t.nanos),
{
    chrono::DateTime::from_timestamp(t.secs, t.nanos).unwrap().format("%Y-%m-%d %H:%M:%S UTC").to_string()
}

} // verus!
