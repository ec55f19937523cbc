//! Spans of time, as the shop's timeouts and waits are given.
use vstd::prelude::*;

verus! {

/// A span of time: whole seconds and the nanoseconds beyond them, fewer than a
/// second's worth.
#[derive(Clone, Copy, Debug)]
pub struct Duration {
    secs: u64,
    nanos: u32,
}

impl View for Duration {
    type V = (u64, u32);

    closed spec fn view(&self) -> (u64, u32) {
        (self.secs, self.nanos)
    }
}

/// The text that the standard library's `Debug` formatting gives for a span of
/// `secs` seconds and `nanos` nanoseconds (such as `20s` or `1.5s`).
pub uninterp spec fn duration_debug_text(secs: u64, nanos: u32) -> Seq<char>;

/// Renders a span with `std::time::Duration`'s `Debug` formatting; the result
/// is what that formatting gives for these two numbers, which the contract
/// names without spelling out.
#[verifier::external_body]
fn duration_debug(secs: u64, nanos: u32) -> (r: String)
    requires
        nanos < 1_000_000_000,
    ensures
        r@ == duration_debug_text(secs, nanos),
{
    format!("{:?}", std::time::Duration::new(secs, nanos))
}

/// The length of a span, in nanoseconds.
pub open spec fn span_nanos(d: (u64, u32)) -> int {
    d.0 * 1_000_000_000 + d.1
}

impl Duration {
    #[verifier::type_invariant]
    spec fn subsecond(self) -> bool {
        self.nanos < 1_000_000_000
    }

    /// A span of `secs` seconds and `nanos` nanoseconds; nanoseconds beyond a
    /// second carry into the seconds.
    pub fn new(secs: u64, nanos: u32) -> (r: Duration)
        requires
            secs + nanos / 1_000_000_000 <= u64::MAX,
        ensures
            r@ == ((secs + nanos / 1_000_000_000) as u64, (nanos % 1_000_000_000) as u32),
    {
        Duration { secs: secs + (nanos / 1_000_000_000) as u64, nanos: nanos % 1_000_000_000 }
    }

    /// A span of whole seconds.
    pub fn from_secs(secs: u64) -> (r: Duration)
        ensures
            r@ == (secs, 0u32),
    {
        Duration { secs, nanos: 0 }
    }

    /// The number of whole seconds.
    pub fn as_secs(&self) -> (r: u64)
        ensures
            r == self@.0,
    {
        self.secs
    }

    /// The nanoseconds beyond the whole seconds.
    pub fn subsec_nanos(&self) -> (r: u32)
        ensures
            r == self@.1,
            r < 1_000_000_000,
    {
        proof {
            use_type_invariant(self);
        }
        self.nanos
    }

    /// Whether this span is shorter than `other`.
    pub fn is_shorter_than(&self, other: &Duration) -> (r: bool)
        ensures
            r == (span_nanos(self@) < span_nanos(other@)),
    {
        proof {
            use_type_invariant(self);
            use_type_invariant(other);
        }
        self.secs < other.secs || (self.secs == other.secs && self.nanos < other.nanos)
    }

    /// The shorter of two spans.
    pub fn min(self, other: Duration) -> (r: Duration)
        ensures
            r@ == (if span_nanos(other@) < span_nanos(self@) { other@ } else { self@ }),
    {
        if other.is_shorter_than(&self) { other } else { self }
    }

    /// The text of the span as the standard `Debug` formatting writes it.
    pub fn debug_text(&self) -> (r: String)
        ensures
            r@ == duration_debug_text(self@.0, self@.1),
    {
        proof {
            use_type_invariant(self);
        }
        duration_debug(self.secs, self.nanos)
    }
}

} // verus!
