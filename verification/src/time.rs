//! Spans of time, points in time, and the stopwatch that reads them.
//!
//! A [`Duration`] is a whole number of nanoseconds. An [`Instant`] is a signed
//! number of nanoseconds on the scale of one [`Stopwatch`], so that "this frame
//! belongs five seconds before the watch was started" is a value like any other.
//! Everything that depends on the current time takes the reading as an argument;
//! only [`Stopwatch`] asks the operating system for it.

use std::cmp::Ordering;
use vstd::prelude::*;

verus! {

/// Nanoseconds in one second.
pub const NANOS_PER_SEC: u64 = 1_000_000_000;

/// Nanoseconds in the longest span: `u64::MAX` seconds and 999 999 999 nanoseconds.
pub const MAX_NANOS: u128 = 18_446_744_073_709_551_615_999_999_999;

/// The earliest point in time: as far before the start of the watch as the longest span reaches.
pub const MIN_INSTANT: i128 = -18_446_744_073_709_551_615_999_999_999;

/// `x` reduced to the low 64 bits.
pub open spec fn wrap_u64(x: int) -> int {
    x % 0x1_0000_0000_0000_0000
}

/// `a + b` on a 64-bit counter that runs over.
pub open spec fn counted(a: u64, b: int) -> u64 {
    wrap_u64(a + b) as u64
}

/// `x` reduced to the low 64 bits and read in two's complement.
pub open spec fn wrap_i64(x: int) -> int {
    let low = wrap_u64(x);
    if low < 0x8000_0000_0000_0000 {
        low
    } else {
        low - 0x1_0000_0000_0000_0000
    }
}

/// The integer closest to `a / b`, the larger one of two that are equally close.
pub open spec fn nearest(a: int, b: int) -> int {
    (2 * a + b) / (2 * b)
}

/// The nanoseconds closest to `ticks / rate` seconds.
pub open spec fn ticks_to_nanos(ticks: int, rate: int) -> int {
    nearest(ticks * NANOS_PER_SEC, rate)
}

/// The low 64 bits of `x`, read in two's complement.
pub fn low_i64(x: u128) -> (r: i64)
    ensures
        r == wrap_i64(x as int),
{
    let low: u64 = low_u64(x);
    if low < 0x8000_0000_0000_0000 {
        low as i64
    } else {
        let above: u64 = low - 0x8000_0000_0000_0000;
        above as i64 + i64::MIN
    }
}

/// The low 64 bits of `x`.
pub fn low_u64(x: u128) -> (r: u64)
    ensures
        r == wrap_u64(x as int),
{
    let low: u128 = x % 0x1_0000_0000_0000_0000;
    low as u64
}

/// A span of time, counted in nanoseconds and never longer than [`MAX_NANOS`].
#[derive(Debug, Clone, Copy, PartialEq, Eq, Ord, Hash, Structural)]
pub struct Duration {
    nanos: u128,
}

impl View for Duration {
    type V = nat;

    closed spec fn view(&self) -> nat {
        self.nanos as nat
    }
}

impl PartialOrd for Duration {
    fn partial_cmp(&self, other: &Duration) -> (r: Option<Ordering>) {
        if self.nanos < other.nanos {
            Some(Ordering::Less)
        } else if self.nanos == other.nanos {
            Some(Ordering::Equal)
        } else {
            Some(Ordering::Greater)
        }
    }
}

impl vstd::std_specs::cmp::PartialOrdSpecImpl for Duration {
    open spec fn obeys_partial_cmp_spec() -> bool {
        true
    }

    open spec fn partial_cmp_spec(&self, other: &Duration) -> Option<Ordering> {
        if self@ < other@ {
            Some(Ordering::Less)
        } else if self@ == other@ {
            Some(Ordering::Equal)
        } else {
            Some(Ordering::Greater)
        }
    }
}

impl Duration {
    #[verifier::type_invariant]
    closed spec fn bounded(self) -> bool {
        self.nanos <= MAX_NANOS
    }

    /// The span of `nanos` nanoseconds.
    pub(crate) fn of_nanos(nanos: u128) -> (d: Duration)
        requires
            nanos <= MAX_NANOS,
        ensures
            d@ == nanos,
    {
        Duration { nanos }
    }

    /// The empty span.
    pub fn zero() -> (d: Duration)
        ensures
            d@ == 0,
    {
        Duration { nanos: 0 }
    }

    /// A span of `secs` seconds.
    pub fn from_secs(secs: u64) -> (d: Duration)
        ensures
            d@ == secs * 1_000_000_000,
    {
        Duration { nanos: secs as u128 * 1_000_000_000 }
    }

    /// A span of `ms` milliseconds.
    pub fn from_millis(ms: u64) -> (d: Duration)
        ensures
            d@ == ms * 1_000_000,
    {
        Duration { nanos: ms as u128 * 1_000_000 }
    }

    /// A span of `us` microseconds.
    pub fn from_micros(us: u64) -> (d: Duration)
        ensures
            d@ == us * 1000,
    {
        Duration { nanos: us as u128 * 1000 }
    }

    /// A span of `ns` nanoseconds.
    pub fn from_nanos(ns: u64) -> (d: Duration)
        ensures
            d@ == ns,
    {
        Duration { nanos: ns as u128 }
    }

    /// The span closest to `ticks` ticks of a clock that makes `rate` ticks a second.
    pub fn from_ticks(ticks: u64, rate: u32) -> (d: Duration)
        requires
            rate > 0,
        ensures
            d@ == ticks_to_nanos(ticks as int, rate as int),
    {
        let total: u128 = ticks as u128 * 1_000_000_000;
        let nanos: u128 = (2 * total + rate as u128) / (2 * rate as u128);
        assert(nanos <= total) by (nonlinear_arith)
            requires
                rate > 0,
                total == 0 || total >= 1_000_000_000,
                nanos == (2 * total + rate) / (2 * rate as int),
        {
            if total == 0 {
                assert(nanos == 0);
            } else if rate == 1 {
                assert(nanos == total);
            } else {
                assert(2 * total + rate < (total + 1) * (2 * rate as int));
            }
        }
        Duration { nanos }
    }

    /// Whole seconds of the span.
    pub fn as_secs(self) -> (s: u64)
        ensures
            s == self@ / 1_000_000_000,
    {
        proof {
            use_type_invariant(self);
        }
        let whole: u128 = self.nanos / 1_000_000_000;
        whole as u64
    }

    /// Whole milliseconds of the span.
    pub fn as_millis(self) -> (ms: u128)
        ensures
            ms == self@ / 1_000_000,
    {
        self.nanos / 1_000_000
    }

    /// Whole microseconds of the span.
    pub fn as_micros(self) -> (us: u128)
        ensures
            us == self@ / 1000,
    {
        self.nanos / 1000
    }

    /// Nanoseconds of the span.
    pub fn as_nanos(self) -> (ns: u128)
        ensures
            ns == self@,
            ns <= MAX_NANOS,
    {
        proof {
            use_type_invariant(self);
        }
        self.nanos
    }

    /// The low 64 bits of the whole milliseconds of the span.
    pub fn millis_u64(self) -> (ms: u64)
        ensures
            ms == wrap_u64((self@ / 1_000_000) as int),
    {
        low_u64(self.nanos / 1_000_000)
    }

    /// The low 64 bits of the whole microseconds of the span.
    pub fn micros_u64(self) -> (us: u64)
        ensures
            us == wrap_u64((self@ / 1000) as int),
    {
        low_u64(self.nanos / 1000)
    }

    /// The low 64 bits of the whole microseconds of the span, read in two's complement.
    pub fn micros_i64(self) -> (us: i64)
        ensures
            us == wrap_i64((self@ / 1000) as int),
    {
        low_i64(self.nanos / 1000)
    }

    /// Whether the span is empty.
    pub fn is_zero(self) -> (r: bool)
        ensures
            r == (self@ == 0),
    {
        self.nanos == 0
    }

    /// The shorter of two spans.
    pub fn shorter(self, other: Duration) -> (r: Duration)
        ensures
            r == (if self@ <= other@ {
                self
            } else {
                other
            }),
    {
        if self.nanos <= other.nanos {
            self
        } else {
            other
        }
    }

    /// The two spans one after the other.
    pub fn plus(self, other: Duration) -> (r: Duration)
        requires
            self@ + other@ <= MAX_NANOS,
        ensures
            r@ == self@ + other@,
    {
        Duration { nanos: self.nanos + other.nanos }
    }

    /// The two spans one after the other, or the longest span where that is too long.
    pub fn saturating_plus(self, other: Duration) -> (r: Duration)
        ensures
            r@ == (if self@ + other@ <= MAX_NANOS {
                self@ + other@
            } else {
                MAX_NANOS as nat
            }),
    {
        proof {
            use_type_invariant(self);
            use_type_invariant(other);
        }
        let sum: u128 = self.nanos + other.nanos;
        if sum <= MAX_NANOS {
            Duration { nanos: sum }
        } else {
            Duration { nanos: MAX_NANOS }
        }
    }

    /// What is left of the span after `other`; nothing where `other` is longer.
    pub fn saturating_minus(self, other: Duration) -> (r: Duration)
        ensures
            r@ == (if self@ >= other@ {
                self@ - other@
            } else {
                0
            }),
    {
        proof {
            use_type_invariant(self);
        }
        if self.nanos >= other.nanos {
            Duration { nanos: self.nanos - other.nanos }
        } else {
            Duration { nanos: 0 }
        }
    }

    /// Whether the two spans one behind the other are a span.
    pub fn can_add(self, other: Duration) -> (r: bool)
        ensures
            r == (self@ + other@ <= MAX_NANOS),
    {
        proof {
            use_type_invariant(self);
            use_type_invariant(other);
        }
        self.nanos + other.nanos <= MAX_NANOS
    }

    /// What is left of the span after `other`, which is no longer.
    pub fn minus(self, other: Duration) -> (r: Duration)
        requires
            self@ >= other@,
        ensures
            r@ == self@ - other@,
    {
        proof {
            use_type_invariant(self);
        }
        Duration { nanos: self.nanos - other.nanos }
    }
}

/// A point in time, in nanoseconds on the scale of a [`Stopwatch`]; negative before its start.
#[derive(Debug, Clone, Copy, PartialEq, Eq, Structural)]
pub struct Instant {
    nanos: i128,
}

impl View for Instant {
    type V = int;

    closed spec fn view(&self) -> int {
        self.nanos as int
    }
}

impl Instant {
    #[verifier::type_invariant]
    closed spec fn bounded(self) -> bool {
        MIN_INSTANT <= self.nanos <= u64::MAX
    }

    /// The point `nanos` nanoseconds after the start of the watch.
    pub fn at_nanos(nanos: u64) -> (t: Instant)
        ensures
            t@ == nanos,
    {
        Instant { nanos: nanos as i128 }
    }

    /// The point `d` after this one.
    pub fn plus(self, d: Duration) -> (t: Instant)
        requires
            self@ + d@ <= u64::MAX,
        ensures
            t@ == self@ + d@,
    {
        proof {
            use_type_invariant(self);
        }
        let ahead: u128 = d.as_nanos();
        Instant { nanos: self.nanos + ahead as i128 }
    }

    /// The point `d` before this one.
    pub fn minus(self, d: Duration) -> (t: Instant)
        requires
            self@ - d@ >= MIN_INSTANT,
        ensures
            t@ == self@ - d@,
    {
        proof {
            use_type_invariant(self);
        }
        let back: u128 = d.as_nanos();
        Instant { nanos: self.nanos - back as i128 }
    }

    /// The span from `earlier` to this point: empty where this point comes first, and never longer
    /// than the longest span.
    pub fn since(self, earlier: Instant) -> (d: Duration)
        ensures
            d@ == span_between(earlier@, self@),
    {
        proof {
            use_type_invariant(self);
            use_type_invariant(earlier);
        }
        let span: i128 = self.nanos - earlier.nanos;
        if span < 0 {
            Duration::zero()
        } else if span as u128 > MAX_NANOS {
            Duration::of_nanos(MAX_NANOS)
        } else {
            Duration::of_nanos(span as u128)
        }
    }
}

/// Nanoseconds from the point `from` to the point `to`, within the reach of a [`Duration`].
pub open spec fn span_between(from: int, to: int) -> nat {
    if to <= from {
        0
    } else if to - from > MAX_NANOS {
        MAX_NANOS as nat
    } else {
        (to - from) as nat
    }
}

/// `std::time::Instant`, the operating system's monotonic clock. Nothing is claimed of its values.
#[verifier::external_type_specification]
#[verifier::external_body]
pub struct ExSystemInstant(std::time::Instant);

/// Calls `std::time::Instant::now`. Nothing is claimed of the reading.
#[verifier::external_body]
fn read_system_clock() -> (t: std::time::Instant) {
    std::time::Instant::now()
}

/// Calls `std::time::Instant::elapsed` and hands the nanoseconds back. Nothing is claimed of the
/// number: it depends on when the call is made.
#[verifier::external_body]
fn nanos_elapsed(start: &std::time::Instant) -> (nanos: u64) {
    start.elapsed().as_nanos() as u64
}

/// A running clock: its readings are the points in time of this library.
#[derive(Debug, Clone, Copy)]
pub struct Stopwatch {
    start: std::time::Instant,
}

impl Stopwatch {
    /// Starts a watch.
    pub fn start() -> (w: Stopwatch) {
        Stopwatch { start: read_system_clock() }
    }

    /// Reading this watch can give `t`.
    pub closed spec fn reads(self, t: Instant) -> bool {
        exists|nanos: u64|
            #[trigger] call_ensures(nanos_elapsed, (&self.start,), nanos) && t@ == nanos
    }

    /// Reads the watch: some point in time at or after its start.
    pub fn now(&self) -> (t: Instant)
        ensures
            self.reads(t),
            0 <= t@ <= u64::MAX,
    {
        let nanos: u64 = nanos_elapsed(&self.start);
        assert(call_ensures(nanos_elapsed, (&self.start,), nanos));
        Instant::at_nanos(nanos)
    }
}

/// Rounding finds the closest integer: none lies closer to `a / b`, and of two that are equally
/// close it is the larger one.
pub proof fn law_nearest_is_closest(a: int, b: int)
    requires
        b > 0,
    ensures
        -b < 2 * (nearest(a, b) * b - a) <= b,
{
    let n = nearest(a, b);
    assert(n * (2 * b) <= 2 * a + b < (n + 1) * (2 * b)) by (nonlinear_arith)
        requires
            b > 0,
            n == (2 * a + b) / (2 * b),
    ;
    assert(n * (2 * b) == 2 * (n * b) && (n + 1) * (2 * b) == 2 * (n * b) + 2 * b)
        by (nonlinear_arith);
}

/// Only one integer is closest.
pub proof fn lemma_nearest_is_unique(a: int, b: int, n: int)
    requires
        b > 0,
        -b < 2 * (n * b - a) <= b,
    ensures
        n == nearest(a, b),
{
    law_nearest_is_closest(a, b);
    let m = nearest(a, b);
    assert(n == m) by (nonlinear_arith)
        requires
            b > 0,
            -b < 2 * (n * b - a) <= b,
            -b < 2 * (m * b - a) <= b,
    ;
}

/// The nanoseconds of a count of ticks are right to half a nanosecond: a second holds `rate` ticks
/// and a thousand million nanoseconds. Whole seconds are exact.
pub proof fn law_ticks_last_their_share(ticks: int, rate: int, secs: int)
    requires
        rate > 0,
    ensures
        -rate < 2 * (ticks_to_nanos(ticks, rate) * rate - ticks * 1_000_000_000) <= rate,
        ticks == secs * rate ==> ticks_to_nanos(ticks, rate) == secs * 1_000_000_000,
        ticks >= 0 ==> ticks_to_nanos(ticks, rate) >= 0,
{
    law_nearest_is_closest(ticks * 1_000_000_000, rate);
    let n = ticks_to_nanos(ticks, rate);
    if ticks == secs * rate {
        assert(secs * 1_000_000_000 * rate == secs * rate * 1_000_000_000) by (nonlinear_arith);
        lemma_nearest_is_unique(ticks * 1_000_000_000, rate, secs * 1_000_000_000);
    }
    if ticks >= 0 && n < 0 {
        assert(n * rate <= -rate) by (nonlinear_arith)
            requires
                n <= -1,
                rate > 0,
        ;
    }
}

/// More ticks never take less time.
pub proof fn law_ticks_are_monotone(few: int, many: int, rate: int)
    requires
        rate > 0,
        few <= many,
    ensures
        ticks_to_nanos(few, rate) <= ticks_to_nanos(many, rate),
{
    law_ticks_last_their_share(few, rate, 0);
    law_ticks_last_their_share(many, rate, 0);
    let a = ticks_to_nanos(few, rate);
    let b = ticks_to_nanos(many, rate);
    assert(a <= b) by (nonlinear_arith)
        requires
            rate > 0,
            few <= many,
            -rate < 2 * (a * rate - few * 1_000_000_000) <= rate,
            -rate < 2 * (b * rate - many * 1_000_000_000) <= rate,
    ;
}

/// Reducing a number to 64 bits changes it by whole runs of the counter, and leaves alone what fits.
pub proof fn law_wrapping_keeps_what_fits(x: int, a: u64, b: int)
    ensures
        0 <= wrap_u64(x) < 0x1_0000_0000_0000_0000,
        (x - wrap_u64(x)) % 0x1_0000_0000_0000_0000 == 0,
        0 <= x < 0x1_0000_0000_0000_0000 ==> wrap_u64(x) == x,
        -0x8000_0000_0000_0000 <= wrap_i64(x) < 0x8000_0000_0000_0000,
        (x - wrap_i64(x)) % 0x1_0000_0000_0000_0000 == 0,
        -0x8000_0000_0000_0000 <= x < 0x8000_0000_0000_0000 ==> wrap_i64(x) == x,
        0 <= a + b < 0x1_0000_0000_0000_0000 ==> counted(a, b) == a + b,
        (a + b - counted(a, b)) % 0x1_0000_0000_0000_0000 == 0,
{
}

/// The span between two points in time leads from the one to the other; there is none where the
/// second one comes first. The longest span is `u64::MAX` seconds and almost one more.
pub proof fn law_span_leads_there(from: int, to: int)
    ensures
        from <= to <= from + 18_446_744_073_709_551_615_999_999_999 ==> from + span_between(from, to)
            == to,
        to <= from ==> span_between(from, to) == 0,
        to >= from + 18_446_744_073_709_551_615_999_999_999 ==> span_between(from, to)
            == 18_446_744_073_709_551_615_999_999_999,
{
}

/// The watch tells what has passed since its start, nanosecond for nanosecond: what the operating
/// system reports is what is read.
proof fn law_watch_tells_what_has_passed(w: Stopwatch, t: Instant, nanos: u64)
    ensures
        w.reads(t) ==> exists|passed: u64|
            #[trigger] call_ensures(nanos_elapsed, (&w.start,), passed) && t@ == passed,
        call_ensures(nanos_elapsed, (&w.start,), nanos) && t@ == nanos ==> w.reads(t),
{
}

/// The earliest point in time lies as far before the start of the watch as the longest span reaches.
pub proof fn law_times_reach_as_far_as_spans()
    ensures
        MIN_INSTANT == -18_446_744_073_709_551_615_999_999_999,
        MAX_NANOS == 18_446_744_073_709_551_615_999_999_999,
        MAX_NANOS + 1 == (u64::MAX + 1) * 1_000_000_000,
{
}

} // verus!
