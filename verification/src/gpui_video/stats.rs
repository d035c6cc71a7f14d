//! How well playing goes.
//!
//! Whether playing stutters shows in the tail of the distribution, not in its mean: one long gap
//! among many short ones vanishes in an average. So the gaps between pictures are counted in a
//! histogram whose buckets lie close together around the gap of thirty pictures a second.

use crate::time::{counted, low_u64, span_between, wrap_i64, wrap_u64, Instant, Stopwatch};
use vstd::prelude::*;

verus! {

/// The upper bounds of the buckets, in milliseconds.
pub const INTERVAL_BUCKETS_MS: [u64; 9] = [20, 28, 32, 35, 38, 42, 50, 66, 100];

/// Number of buckets; the last one has no upper bound.
pub const HIST_LEN: usize = 10;

/// Milliseconds that sound and picture may lie apart.
pub const AV_SYNC_TOLERANCE_MS: i64 = 40;

/// What stands for the upper bound of the last bucket.
pub const OVERFLOW_MS: u64 = 999;

/// The size of `x`.
pub open spec fn size(x: int) -> int {
    if x < 0 {
        -x
    } else {
        x
    }
}

/// `a / b`, cut off towards zero.
pub open spec fn cut(a: int, b: int) -> int {
    if a < 0 {
        -((-a) / b)
    } else {
        a / b
    }
}

/// The bucket of a gap: the first one whose upper bound is larger.
pub open spec fn is_bucket(ms: u64, i: int) -> bool {
    &&& 0 <= i < HIST_LEN
    &&& forall|j: int| 0 <= j < i ==> ms >= #[trigger] INTERVAL_BUCKETS_MS@[j]
    &&& i < INTERVAL_BUCKETS_MS@.len() ==> ms < INTERVAL_BUCKETS_MS@[i]
}

/// The bucket of a gap.
pub fn bucket_of(ms: u64) -> (i: usize)
    ensures
        is_bucket(ms, i as int),
{
    let mut i: usize = 0;
    while i < 9 && ms >= INTERVAL_BUCKETS_MS[i]
        invariant
            i <= 9,
            INTERVAL_BUCKETS_MS@.len() == 9,
            forall|j: int| 0 <= j < i ==> ms >= #[trigger] INTERVAL_BUCKETS_MS@[j],
        decreases 9 - i,
    {
        i = i + 1;
    }
    i
}

/// The sum of the first `n` buckets.
pub open spec fn sum_to(hist: Seq<u64>, n: nat) -> nat
    decreases n,
{
    if n == 0 {
        0
    } else {
        sum_to(hist, (n - 1) as nat) + hist[n - 1] as nat
    }
}

/// `a / b`, rounded up.
pub open spec fn ceiling(a: int, b: int) -> int {
    (a + b - 1) / b
}

/// `ms` is the upper bound of the bucket in which `pct` percent of `total` gaps are reached.
pub open spec fn is_percentile(hist: Seq<u64>, total: int, pct: int, ms: u64) -> bool {
    if total == 0 {
        ms == 0
    } else {
        let target = ceiling(total * pct, 100);
        ||| ms == OVERFLOW_MS && forall|i: int|
            0 <= i < INTERVAL_BUCKETS_MS@.len() && i < hist.len() ==> #[trigger] sum_to(
                hist,
                (i + 1) as nat,
            ) < target
        ||| exists|i: int|
            {
                &&& 0 <= i < hist.len()
                &&& i < INTERVAL_BUCKETS_MS@.len()
                &&& ms == #[trigger] INTERVAL_BUCKETS_MS@[i]
                &&& sum_to(hist, (i + 1) as nat) >= target
                &&& forall|j: int| 0 <= j < i ==> #[trigger] sum_to(hist, (j + 1) as nat) < target
            }
    }
}

/// The upper bound of the bucket in which `pct` percent of `total` gaps are reached.
pub fn percentile(hist: &[u64; HIST_LEN], total: u64, pct: u32) -> (ms: u64)
    ensures
        is_percentile(hist@, total as int, pct as int, ms),
{
    if total == 0 {
        return 0;
    }
    assert(0 <= total * pct <= u64::MAX * u32::MAX) by (nonlinear_arith)
        requires
            total <= u64::MAX,
            pct <= u32::MAX,
    ;
    let target: u128 = (total as u128 * pct as u128 + 99) / 100;
    assert(target == ceiling(total * pct, 100));
    let mut cum: u128 = 0;
    let mut i: usize = 0;
    while i < 10
        invariant
            i <= 10,
            hist@.len() == 10,
            INTERVAL_BUCKETS_MS@.len() == 9,
            total > 0,
            cum == sum_to(hist@, i as nat),
            cum <= i * u64::MAX,
            target == ceiling(total * pct, 100),
            forall|j: int| 0 <= j < i ==> #[trigger] sum_to(hist@, (j + 1) as nat) < target,
        decreases 10 - i,
    {
        cum = cum + hist[i] as u128;
        assert(cum == sum_to(hist@, (i + 1) as nat));
        if cum >= target {
            if i < 9 {
                let ms: u64 = INTERVAL_BUCKETS_MS[i];
                assert(ms == INTERVAL_BUCKETS_MS@[i as int]);
                return ms;
            }
            return OVERFLOW_MS;
        }
        i = i + 1;
    }
    OVERFLOW_MS
}

/// The percentage of gaps that are close to the nominal one: from 20 to 42 milliseconds.
pub open spec fn on_time(hist: Seq<u64>, total: int) -> int {
    if total == 0 {
        0
    } else {
        (hist[1] + hist[2] + hist[3] + hist[4] + hist[5]) * 100 / total
    }
}

/// The percentage of gaps that are close to the nominal one.
pub fn on_time_pct(hist: &[u64; HIST_LEN], total: u64) -> (pct: u64)
    ensures
        pct == wrap_u64(on_time(hist@, total as int)),
{
    if total == 0 {
        return 0;
    }
    let close: u128 = hist[1] as u128 + hist[2] as u128 + hist[3] as u128 + hist[4] as u128
        + hist[5] as u128;
    low_u64(close * 100 / total as u128)
}

/// `r` is the root of `n`, cut off to an integer.
pub open spec fn is_root(r: int, n: int) -> bool {
    r >= 0 && r * r <= n < (r + 1) * (r + 1)
}

/// The root of `n`, cut off to an integer.
fn root(n: u64) -> (r: u64)
    requires
        n <= 20_000_000_000_000,
    ensures
        is_root(r as int, n as int),
{
    let mut low: u64 = 0;
    let mut high: u64 = 5_000_000;
    assert(high * high > n);
    while high - low > 1
        invariant
            low < high <= 5_000_000,
            low * low <= n < high * high,
        decreases high - low,
    {
        let mid: u64 = low + (high - low) / 2;
        assert(mid * mid <= 5_000_000 * 5_000_000) by (nonlinear_arith)
            requires
                mid <= 5_000_000,
        ;
        if mid * mid <= n {
            low = mid;
        } else {
            high = mid;
        }
    }
    low
}

/// `ms` is the root of the mean of `count` squares that sum up to `sum_sq`, from microseconds to
/// milliseconds, cut off.
pub open spec fn is_rms(ms: int, sum_sq: int, count: int) -> bool {
    if count == 0 {
        ms == 0
    } else {
        &&& ms >= 0
        &&& ms * ms * 1_000_000 * count <= sum_sq
        &&& sum_sq < (ms + 1) * (ms + 1) * 1_000_000 * count
    }
}

/// The root of the mean of some squares, from microseconds to milliseconds.
fn rms(sum_sq: u64, count: u64) -> (ms: u64)
    ensures
        is_rms(ms as int, sum_sq as int, count as int),
{
    if count == 0 {
        return 0;
    }
    let mean: u64 = sum_sq / count;
    let n: u64 = mean / 1_000_000;
    let r: u64 = root(n);
    proof {
        lemma_rms(r as int, sum_sq as int, count as int, mean as int, n as int);
    }
    r
}

proof fn lemma_rms(r: int, sum_sq: int, count: int, mean: int, n: int)
    requires
        count > 0,
        sum_sq >= 0,
        mean == sum_sq / count,
        n == mean / 1_000_000,
        is_root(r, n),
    ensures
        is_rms(r, sum_sq, count),
{
    let low = r * r * 1_000_000;
    let high = (r + 1) * (r + 1) * 1_000_000;
    assert(low <= mean);
    assert(mean + 1 <= high);
    assert(mean * count <= sum_sq < (mean + 1) * count) by (nonlinear_arith)
        requires
            count > 0,
            mean == sum_sq / count,
    ;
    assert(low * count <= mean * count) by (nonlinear_arith)
        requires
            low <= mean,
            count > 0,
    ;
    assert((mean + 1) * count <= high * count) by (nonlinear_arith)
        requires
            mean + 1 <= high,
            count > 0,
    ;
}

/// What was counted since the last snapshot.
#[derive(Debug, Clone, Copy)]
pub struct ProfileStats {
    /// Pictures that were decoded.
    pub decoded: u64,
    /// Pictures that were shown.
    pub displayed: u64,
    /// Microseconds spent decoding.
    pub decode_total_us: u64,
    pub decode_count: u64,
    /// The longest gap between two pictures, in milliseconds.
    pub max_interval_ms: u64,
    /// How many gaps fell into each bucket.
    pub interval_hist: [u64; HIST_LEN],
    /// The sum of the gaps, in milliseconds.
    pub interval_total_ms: u64,
    /// When the last picture was shown.
    pub last_display: Option<Instant>,
    /// The sum of the drifts, in microseconds: positive where the picture is behind the sound.
    pub av_sync_sum_us: i64,
    /// The sum of the squares of the drifts.
    pub av_sync_sum_sq_us: u64,
    pub av_sync_count: u64,
    /// The furthest that the picture was behind.
    pub av_sync_max_lag_us: u64,
    /// The furthest that the picture was ahead.
    pub av_sync_max_lead_us: u64,
    /// Drifts beyond the tolerance.
    pub av_sync_out_of_range: u64,
    /// What the gaps are measured with.
    pub watch: Stopwatch,
}

/// What a window of time was like.
#[derive(Debug, Clone, Copy)]
pub struct Snapshot {
    pub decoded_fps: u64,
    pub displayed_fps: u64,
    pub avg_decode_us: u64,
    pub avg_interval_ms: u64,
    pub p99_interval_ms: u64,
    pub max_interval_ms: u64,
    /// The percentage of gaps that are close to the nominal one.
    pub on_time_pct: u64,
    pub hist: [u64; HIST_LEN],
    /// The mean drift in milliseconds: positive where the picture is behind the sound, negative
    /// where it is ahead.
    pub av_sync_mean_ms: i64,
    /// The root of the mean square of the drifts, in milliseconds.
    pub av_sync_rms_ms: u64,
    pub av_sync_max_lag_ms: u64,
    pub av_sync_max_lead_ms: u64,
    /// The percentage of drifts beyond the tolerance.
    pub av_sync_bad_pct: u64,
}

/// `a / b`, or zero where `b` is.
pub open spec fn share(a: u64, b: u64) -> u64 {
    if b == 0 {
        0
    } else {
        a / b
    }
}

/// The snapshot says what was counted over `window_secs` seconds.
pub open spec fn summed_up(s: ProfileStats, window_secs: u64, snap: Snapshot) -> bool {
    let secs = if window_secs == 0 {
        1
    } else {
        window_secs
    };
    let total = wrap_u64(sum_to(s.interval_hist@, HIST_LEN as nat) as int);
    &&& snap.hist == s.interval_hist
    &&& snap.decoded_fps == s.decoded / secs
    &&& snap.displayed_fps == s.displayed / secs
    &&& snap.avg_decode_us == share(s.decode_total_us, s.decode_count)
    &&& snap.avg_interval_ms == share(s.interval_total_ms, total as u64)
    &&& is_percentile(s.interval_hist@, total, 99, snap.p99_interval_ms)
    &&& snap.max_interval_ms == s.max_interval_ms
    &&& snap.on_time_pct == wrap_u64(on_time(s.interval_hist@, total))
    &&& snap.av_sync_mean_ms == (if s.av_sync_count == 0 {
        0
    } else {
        cut(cut(s.av_sync_sum_us as int, s.av_sync_count as int), 1000)
    })
    &&& is_rms(snap.av_sync_rms_ms as int, s.av_sync_sum_sq_us as int, s.av_sync_count as int)
    &&& snap.av_sync_max_lag_ms == s.av_sync_max_lag_us / 1000
    &&& snap.av_sync_max_lead_ms == s.av_sync_max_lead_us / 1000
    &&& snap.av_sync_bad_pct == (if s.av_sync_count == 0 {
        0
    } else {
        wrap_u64(s.av_sync_out_of_range * 100 / s.av_sync_count as int)
    })
}

/// The counters after a picture was shown that lies `drift_us` from the sound.
pub open spec fn after_drift(s: ProfileStats, drift_us: i64) -> ProfileStats {
    let a = size(drift_us as int);
    ProfileStats {
        av_sync_count: counted(s.av_sync_count, 1),
        av_sync_sum_us: wrap_i64(s.av_sync_sum_us + drift_us) as i64,
        av_sync_sum_sq_us: counted(s.av_sync_sum_sq_us, wrap_u64(a * a)),
        av_sync_max_lag_us: if drift_us > 0 && a > s.av_sync_max_lag_us {
            a as u64
        } else {
            s.av_sync_max_lag_us
        },
        av_sync_max_lead_us: if drift_us <= 0 && a > s.av_sync_max_lead_us {
            a as u64
        } else {
            s.av_sync_max_lead_us
        },
        av_sync_out_of_range: counted(
            s.av_sync_out_of_range,
            if a / 1000 > AV_SYNC_TOLERANCE_MS {
                1
            } else {
                0
            },
        ),
        ..s
    }
}

/// The counters after some drifts.
pub open spec fn after_drifts(s: ProfileStats, drifts: Seq<i64>) -> ProfileStats
    decreases drifts.len(),
{
    if drifts.len() == 0 {
        s
    } else {
        after_drift(after_drifts(s, drifts.drop_last()), drifts.last())
    }
}

/// The sum of some drifts.
pub open spec fn sum_of(drifts: Seq<i64>) -> int
    decreases drifts.len(),
{
    if drifts.len() == 0 {
        0
    } else {
        sum_of(drifts.drop_last()) + drifts.last()
    }
}

/// How many drifts are beyond the tolerance.
pub open spec fn beyond(drifts: Seq<i64>) -> nat
    decreases drifts.len(),
{
    if drifts.len() == 0 {
        0
    } else {
        beyond(drifts.drop_last()) + (if size(drifts.last() as int) / 1000
            > AV_SYNC_TOLERANCE_MS {
            1nat
        } else {
            0
        })
    }
}

/// The counters after a picture was decoded in `us` microseconds.
pub open spec fn after_decoded(s: ProfileStats, us: u64) -> ProfileStats {
    ProfileStats {
        decoded: counted(s.decoded, 1),
        decode_total_us: counted(s.decode_total_us, us as int),
        decode_count: counted(s.decode_count, 1),
        ..s
    }
}

impl ProfileStats {
    /// Nothing was counted.
    pub open spec fn is_empty(self) -> bool {
        &&& self.decoded == 0
        &&& self.displayed == 0
        &&& self.decode_total_us == 0
        &&& self.decode_count == 0
        &&& self.max_interval_ms == 0
        &&& self.interval_hist@ == Seq::new(HIST_LEN as nat, |i: int| 0u64)
        &&& self.interval_total_ms == 0
        &&& self.av_sync_sum_us == 0
        &&& self.av_sync_sum_sq_us == 0
        &&& self.av_sync_count == 0
        &&& self.av_sync_max_lag_us == 0
        &&& self.av_sync_max_lead_us == 0
        &&& self.av_sync_out_of_range == 0
    }

    /// Nothing counted yet.
    pub fn new() -> (s: ProfileStats)
        ensures
            s.is_empty(),
            s.last_display is None,
    {
        let s = ProfileStats {
            decoded: 0,
            displayed: 0,
            decode_total_us: 0,
            decode_count: 0,
            max_interval_ms: 0,
            interval_hist: [0;HIST_LEN],
            interval_total_ms: 0,
            last_display: None,
            av_sync_sum_us: 0,
            av_sync_sum_sq_us: 0,
            av_sync_count: 0,
            av_sync_max_lag_us: 0,
            av_sync_max_lead_us: 0,
            av_sync_out_of_range: 0,
            watch: Stopwatch::start(),
        };
        assert(s.interval_hist@ =~= Seq::new(HIST_LEN as nat, |i: int| 0u64));
        s
    }

    /// Counts a picture whose decoding took `us` microseconds.
    pub fn record_decoded(&mut self, us: u64)
        ensures
            *final(self) == after_decoded(*old(self), us),
    {
        self.decoded = self.decoded.wrapping_add(1);
        self.decode_total_us = self.decode_total_us.wrapping_add(us);
        self.decode_count = self.decode_count.wrapping_add(1);
    }

    /// The counters after a picture was shown at the time `now`: the gap since the last one, where
    /// there is one, goes into its bucket.
    pub open spec fn displayed_at(self, now: Instant, after: ProfileStats) -> bool {
        let shown = ProfileStats {
            displayed: counted(self.displayed, 1),
            last_display: Some(now),
            ..self
        };
        match self.last_display {
            None => after == shown,
            Some(prev) => {
                let ms = (wrap_u64(span_between(prev@, now@) as int / 1000) / 1000) as u64;
                exists|i: int|
                    {
                        &&& #[trigger] is_bucket(ms, i)
                        &&& after.interval_hist@ == self.interval_hist@.update(
                            i,
                            counted(self.interval_hist@[i], 1),
                        )
                        &&& after == (ProfileStats {
                            interval_hist: after.interval_hist,
                            interval_total_ms: counted(self.interval_total_ms, ms as int),
                            max_interval_ms: if ms > self.max_interval_ms {
                                ms
                            } else {
                                self.max_interval_ms
                            },
                            ..shown
                        })
                    }
            },
        }
    }

    /// Counts a picture that is shown at the time `now`.
    pub fn record_displayed_at(&mut self, now: Instant)
        ensures
            old(self).displayed_at(now, *final(self)),
    {
        self.displayed = self.displayed.wrapping_add(1);
        match self.last_display {
            Some(prev) => {
                let us: u64 = now.since(prev).micros_u64();
                let ms: u64 = us / 1000;
                self.interval_total_ms = self.interval_total_ms.wrapping_add(ms);
                if ms > self.max_interval_ms {
                    self.max_interval_ms = ms;
                }
                let i: usize = bucket_of(ms);
                self.interval_hist[i] = self.interval_hist[i].wrapping_add(1);
            },
            None => {},
        }
        self.last_display = Some(now);
    }

    /// Counts a picture that is shown now.
    pub fn record_displayed(&mut self)
        ensures
            exists|now: Instant|
                #[trigger] old(self).watch.reads(now) && 0 <= now@ <= u64::MAX
                    && old(self).displayed_at(now, *final(self)),
    {
        let now = self.watch.now();
        self.record_displayed_at(now);
    }

    /// Counts how far a picture that is shown lies from the sound, in microseconds: positive where
    /// it is behind.
    pub fn record_av_sync(&mut self, drift_us: i64)
        ensures
            *final(self) == after_drift(*old(self), drift_us),
    {
        self.av_sync_count = self.av_sync_count.wrapping_add(1);
        let a: u64 = crate::player_core::frame::size_of_i64(drift_us);
        self.av_sync_sum_us = self.av_sync_sum_us.wrapping_add(drift_us);
        self.av_sync_sum_sq_us = self.av_sync_sum_sq_us.wrapping_add(a.wrapping_mul(a));
        if drift_us > 0 {
            if a > self.av_sync_max_lag_us {
                self.av_sync_max_lag_us = a;
            }
        } else {
            if a > self.av_sync_max_lead_us {
                self.av_sync_max_lead_us = a;
            }
        }
        if a / 1000 > 40 {
            self.av_sync_out_of_range = self.av_sync_out_of_range.wrapping_add(1);
        }
    }

    /// Sums up what was counted over `window_secs` seconds, and starts counting anew. When the last
    /// picture was shown is not forgotten.
    pub fn take_snapshot(&mut self, window_secs: u64) -> (snap: Snapshot)
        ensures
            summed_up(*old(self), window_secs, snap),
            final(self).is_empty(),
            final(self).last_display == old(self).last_display,
            final(self).watch == old(self).watch,
    {
        let hist: [u64; HIST_LEN] = self.interval_hist;
        let mut sum: u128 = 0;
        let mut i: usize = 0;
        while i < 10
            invariant
                i <= 10,
                hist@.len() == 10,
                sum == sum_to(hist@, i as nat),
                sum <= i * u64::MAX,
            decreases 10 - i,
        {
            sum = sum + hist[i] as u128;
            i = i + 1;
            assert(sum == sum_to(hist@, i as nat));
        }
        let total: u64 = low_u64(sum);
        let secs: u64 = if window_secs == 0 {
            1
        } else {
            window_secs
        };
        let count: u64 = self.av_sync_count;
        let av_sync_mean_ms: i64 = if count == 0 {
            0
        } else {
            mean_ms(self.av_sync_sum_us, count)
        };
        let av_sync_bad_pct: u64 = if count == 0 {
            0
        } else {
            low_u64(self.av_sync_out_of_range as u128 * 100 / count as u128)
        };
        let snap = Snapshot {
            decoded_fps: self.decoded / secs,
            displayed_fps: self.displayed / secs,
            avg_decode_us: if self.decode_count == 0 {
                0
            } else {
                self.decode_total_us / self.decode_count
            },
            avg_interval_ms: if total == 0 {
                0
            } else {
                self.interval_total_ms / total
            },
            p99_interval_ms: percentile(&hist, total, 99),
            max_interval_ms: self.max_interval_ms,
            on_time_pct: on_time_pct(&hist, total),
            hist,
            av_sync_mean_ms,
            av_sync_rms_ms: rms(self.av_sync_sum_sq_us, count),
            av_sync_max_lag_ms: self.av_sync_max_lag_us / 1000,
            av_sync_max_lead_ms: self.av_sync_max_lead_us / 1000,
            av_sync_bad_pct,
        };
        self.decoded = 0;
        self.displayed = 0;
        self.decode_total_us = 0;
        self.decode_count = 0;
        self.max_interval_ms = 0;
        self.interval_hist = [0;HIST_LEN];
        self.interval_total_ms = 0;
        self.av_sync_sum_us = 0;
        self.av_sync_sum_sq_us = 0;
        self.av_sync_count = 0;
        self.av_sync_max_lag_us = 0;
        self.av_sync_max_lead_us = 0;
        self.av_sync_out_of_range = 0;
        assert(self.interval_hist@ =~= Seq::new(HIST_LEN as nat, |i: int| 0u64));
        snap
    }
}

/// The mean of `count` drifts, from microseconds to milliseconds.
fn mean_ms(sum_us: i64, count: u64) -> (ms: i64)
    requires
        count > 0,
    ensures
        ms == cut(cut(sum_us as int, count as int), 1000),
{
    let a: u64 = crate::player_core::frame::size_of_i64(sum_us);
    let mean: u64 = a / count;
    assert(mean <= a) by (nonlinear_arith)
        requires
            count > 0,
            mean == a / count,
    ;
    let ms: u64 = mean / 1000;
    if sum_us < 0 {
        -(ms as i64)
    } else {
        ms as i64
    }
}

impl Default for ProfileStats {
    fn default() -> (s: ProfileStats)
        ensures
            s.is_empty(),
            s.last_display is None,
    {
        ProfileStats::new()
    }
}

impl Snapshot {
    /// Whether playing stuttered: a whole picture was missed, or more than one gap in ten was not
    /// close to the nominal one.
    pub fn is_janky(&self) -> (r: bool)
        ensures
            r == (self.max_interval_ms > 66 || self.on_time_pct < 90),
    {
        self.max_interval_ms > 66 || self.on_time_pct < 90
    }

    /// Whether sound and picture have come apart: more than one drift in ten is beyond the
    /// tolerance, or a single one is so large that everybody sees it.
    pub fn is_av_out_of_sync(&self) -> (r: bool)
        ensures
            r == (self.av_sync_bad_pct > 10 || self.av_sync_max_lag_ms > 100
                || self.av_sync_max_lead_ms > 100),
    {
        self.av_sync_bad_pct > 10 || self.av_sync_max_lag_ms > 100 || self.av_sync_max_lead_ms
            > 100
    }
}

/// A percentile is the bound of a bucket, and a higher percentile never lies below a lower one.
pub proof fn law_percentiles_are_ordered(
    hist: Seq<u64>,
    total: int,
    low: int,
    high: int,
    low_ms: u64,
    high_ms: u64,
)
    requires
        hist.len() == HIST_LEN,
        total >= 0,
        0 <= low <= high,
        is_percentile(hist, total, low, low_ms),
        is_percentile(hist, total, high, high_ms),
    ensures
        low_ms <= high_ms,
        total > 0 ==> low_ms == OVERFLOW_MS || INTERVAL_BUCKETS_MS@.contains(low_ms),
{
    if total > 0 {
        assert(total * low <= total * high) by (nonlinear_arith)
            requires
                total > 0,
                low <= high,
        ;
        let a = ceiling(total * low, 100);
        let b = ceiling(total * high, 100);
        assert(a <= b);
        if high_ms != OVERFLOW_MS || exists|i: int|
            {
                &&& 0 <= i < hist.len()
                &&& i < INTERVAL_BUCKETS_MS@.len()
                &&& high_ms == #[trigger] INTERVAL_BUCKETS_MS@[i]
                &&& sum_to(hist, (i + 1) as nat) >= b
                &&& forall|j: int| 0 <= j < i ==> #[trigger] sum_to(hist, (j + 1) as nat) < b
            } {
            let i = choose|i: int|
                {
                    &&& 0 <= i < hist.len()
                    &&& i < INTERVAL_BUCKETS_MS@.len()
                    &&& high_ms == #[trigger] INTERVAL_BUCKETS_MS@[i]
                    &&& sum_to(hist, (i + 1) as nat) >= b
                    &&& forall|j: int| 0 <= j < i ==> #[trigger] sum_to(hist, (j + 1) as nat) < b
                };
            assert(sum_to(hist, (i + 1) as nat) >= a);
        }
    }
}

/// The buckets part all gaps: each gap has exactly one.
pub proof fn law_every_gap_has_one_bucket(ms: u64, i: int, j: int)
    requires
        is_bucket(ms, i),
        is_bucket(ms, j),
    ensures
        i == j,
{
    if i < j {
        assert(ms >= INTERVAL_BUCKETS_MS@[i]);
    }
    if j < i {
        assert(ms >= INTERVAL_BUCKETS_MS@[j]);
    }
}

/// Where every gap is close to the nominal one, all of them are on time; where none is, none are.
pub proof fn law_on_time_share(hist: Seq<u64>)
    requires
        hist.len() == HIST_LEN,
        sum_to(hist, 10) > 0,
    ensures
        0 <= on_time(hist, sum_to(hist, 10) as int) <= 100,
        hist[0] == 0 && hist[6] == 0 && hist[7] == 0 && hist[8] == 0 && hist[9] == 0 ==> on_time(
            hist,
            sum_to(hist, 10) as int,
        ) == 100,
{
    reveal_with_fuel(sum_to, 11);
    let close = hist[1] + hist[2] + hist[3] + hist[4] + hist[5];
    let total = sum_to(hist, 10) as int;
    assert(0 <= close * 100 / total <= 100) by (nonlinear_arith)
        requires
            0 <= close <= total,
            total > 0,
    ;
    assert(total * 100 / total == 100) by (nonlinear_arith)
        requires
            total > 0,
    ;
}

proof fn lemma_wrap_i64_adds(x: int, d: int)
    ensures
        wrap_i64(wrap_i64(x) + d) == wrap_i64(x + d),
{
}

/// After some drifts the counter holds their number.
pub proof fn law_drifts_are_counted(s: ProfileStats, drifts: Seq<i64>)
    requires
        s.is_empty(),
        drifts.len() <= u64::MAX,
    ensures
        after_drifts(s, drifts).av_sync_count == drifts.len(),
    decreases drifts.len(),
{
    if drifts.len() > 0 {
        law_drifts_are_counted(s, drifts.drop_last());
    }
}

/// The drifts add up: after some of them the counter holds their signed sum. So the sign of the
/// mean tells whether the pictures lag or lead, and drifts to both sides cancel out in it. A sum
/// that no longer fits the counter runs over.
pub proof fn law_drifts_add_up(s: ProfileStats, drifts: Seq<i64>)
    requires
        s.is_empty(),
    ensures
        after_drifts(s, drifts).av_sync_sum_us == wrap_i64(sum_of(drifts)),
        i64::MIN <= sum_of(drifts) <= i64::MAX ==> after_drifts(s, drifts).av_sync_sum_us == sum_of(
            drifts,
        ),
    decreases drifts.len(),
{
    if drifts.len() > 0 {
        law_drifts_add_up(s, drifts.drop_last());
        lemma_wrap_i64_adds(sum_of(drifts.drop_last()), drifts.last() as int);
    }
}

/// After some drifts the counter holds how many of them were beyond the tolerance.
pub proof fn law_wide_drifts_are_counted(s: ProfileStats, drifts: Seq<i64>)
    requires
        s.is_empty(),
        drifts.len() <= u64::MAX,
    ensures
        after_drifts(s, drifts).av_sync_out_of_range == beyond(drifts),
        beyond(drifts) <= drifts.len(),
    decreases drifts.len(),
{
    if drifts.len() > 0 {
        law_wide_drifts_are_counted(s, drifts.drop_last());
    }
}

/// Where every picture lags by a millisecond or more, the mean is positive.
pub proof fn law_lag_shows_in_the_mean(drifts: Seq<i64>)
    requires
        drifts.len() > 0,
        forall|i: int| 0 <= i < drifts.len() ==> 1000 <= #[trigger] drifts[i],
    ensures
        cut(cut(sum_of(drifts), drifts.len() as int), 1000) > 0,
{
    lemma_sum_at_least(drifts, 1000);
    let n = drifts.len() as int;
    let sum = sum_of(drifts);
    assert(sum / n >= 1000) by (nonlinear_arith)
        requires
            n > 0,
            sum >= 1000 * n,
    ;
}

proof fn lemma_sum_at_least(drifts: Seq<i64>, least: int)
    requires
        forall|i: int| 0 <= i < drifts.len() ==> least <= #[trigger] drifts[i],
    ensures
        sum_of(drifts) >= least * drifts.len(),
    decreases drifts.len(),
{
    if drifts.len() > 0 {
        let head = drifts.drop_last();
        assert forall|i: int| 0 <= i < head.len() implies least <= #[trigger] head[i] by {
            assert(head[i] == drifts[i]);
        }
        lemma_sum_at_least(head, least);
        assert(least <= drifts[drifts.len() - 1]);
        assert(least * drifts.len() == least * head.len() + least) by (nonlinear_arith)
            requires
                drifts.len() == head.len() + 1,
        ;
    } else {
        assert(least * drifts.len() == 0) by (nonlinear_arith)
            requires
                drifts.len() == 0,
        ;
    }
}

/// A snapshot leaves nothing behind: the next one is of what comes after it.
pub proof fn law_snapshot_starts_anew(s: ProfileStats, window_secs: u64, snap: Snapshot)
    requires
        s.is_empty(),
        summed_up(s, window_secs, snap),
    ensures
        snap.decoded_fps == 0,
        snap.displayed_fps == 0,
        snap.avg_decode_us == 0,
        snap.avg_interval_ms == 0,
        snap.p99_interval_ms == 0,
        snap.max_interval_ms == 0,
        snap.on_time_pct == 0,
        snap.hist@ == Seq::new(HIST_LEN as nat, |i: int| 0u64),
        snap.av_sync_mean_ms == 0,
        snap.av_sync_rms_ms == 0,
        snap.av_sync_max_lag_ms == 0,
        snap.av_sync_max_lead_ms == 0,
        snap.av_sync_bad_pct == 0,
{
    reveal_with_fuel(sum_to, 11);
    let secs = if window_secs == 0 {
        1
    } else {
        window_secs as int
    };
    assert(0int / secs == 0) by (nonlinear_arith)
        requires
            secs > 0,
    ;
}

} // verus!
