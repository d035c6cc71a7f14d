//! How well the simple pipeline goes: the gaps between pictures.

use crate::gpui_video::stats::{bucket_of, is_bucket, is_percentile, share, sum_to};
use crate::time::{counted, low_u64, span_between, wrap_u64, Instant, Stopwatch};
use vstd::prelude::*;

pub use crate::gpui_video::stats::{percentile, HIST_LEN, INTERVAL_BUCKETS_MS};

verus! {

/// What was counted since the last snapshot.
#[derive(Debug, Clone, Copy)]
pub struct ProfileStats {
    /// Pictures that were decoded.
    pub decoded: u64,
    /// Pictures that were shown.
    pub displayed: u64,
    /// Microseconds spent decoding.
    pub decode_total_us: u64,
    pub decode_count: u64,
    /// The longest gap between two pictures, in milliseconds.
    pub max_interval_ms: u64,
    /// How many gaps fell into each bucket.
    pub interval_hist: [u64; HIST_LEN],
    /// The sum of the gaps, in milliseconds.
    pub interval_total_ms: u64,
    /// When the last picture was shown.
    pub last_display: Option<Instant>,
    /// What the gaps are measured with.
    pub watch: Stopwatch,
}

/// What a window of time was like.
#[derive(Debug, Clone, Copy)]
pub struct Snapshot {
    pub decoded_fps: u64,
    pub displayed_fps: u64,
    pub avg_decode_us: u64,
    pub avg_interval_ms: u64,
    pub p99_interval_ms: u64,
    pub max_interval_ms: u64,
    /// The percentage of gaps that are close to the nominal one.
    pub on_time_pct: u64,
    pub hist: [u64; HIST_LEN],
}

/// The percentage of gaps that are close to the nominal one: from 28 to 38 milliseconds.
pub open spec fn on_time(hist: Seq<u64>, total: int) -> int {
    if total == 0 {
        0
    } else {
        (hist[2] + hist[3] + hist[4]) * 100 / total
    }
}

/// The percentage of gaps that are close to the nominal one.
pub fn on_time_pct(hist: &[u64; HIST_LEN], total: u64) -> (pct: u64)
    ensures
        pct == wrap_u64(on_time(hist@, total as int)),
{
    if total == 0 {
        return 0;
    }
    let close: u128 = hist[2] as u128 + hist[3] as u128 + hist[4] as u128;
    low_u64(close * 100 / total as u128)
}

/// The snapshot says what was counted over `window_secs` seconds.
pub open spec fn summed_up(s: ProfileStats, window_secs: u64, snap: Snapshot) -> bool {
    let secs = if window_secs == 0 {
        1
    } else {
        window_secs
    };
    let total = wrap_u64(sum_to(s.interval_hist@, HIST_LEN as nat) as int);
    &&& snap.hist == s.interval_hist
    &&& snap.decoded_fps == s.decoded / secs
    &&& snap.displayed_fps == s.displayed / secs
    &&& snap.avg_decode_us == share(s.decode_total_us, s.decode_count)
    &&& snap.avg_interval_ms == share(s.interval_total_ms, total as u64)
    &&& is_percentile(s.interval_hist@, total, 99, snap.p99_interval_ms)
    &&& snap.max_interval_ms == s.max_interval_ms
    &&& snap.on_time_pct == wrap_u64(on_time(s.interval_hist@, total))
}

/// The counters after a picture was decoded in `us` microseconds.
pub open spec fn after_decoded(s: ProfileStats, us: u64) -> ProfileStats {
    ProfileStats {
        decoded: counted(s.decoded, 1),
        decode_total_us: counted(s.decode_total_us, us as int),
        decode_count: counted(s.decode_count, 1),
        ..s
    }
}

impl ProfileStats {
    /// Nothing was counted.
    pub open spec fn is_empty(self) -> bool {
        &&& self.decoded == 0
        &&& self.displayed == 0
        &&& self.decode_total_us == 0
        &&& self.decode_count == 0
        &&& self.max_interval_ms == 0
        &&& self.interval_hist@ == Seq::new(HIST_LEN as nat, |i: int| 0u64)
        &&& self.interval_total_ms == 0
    }

    /// Nothing counted yet.
    pub fn new() -> (s: ProfileStats)
        ensures
            s.is_empty(),
            s.last_display is None,
    {
        let s = ProfileStats {
            decoded: 0,
            displayed: 0,
            decode_total_us: 0,
            decode_count: 0,
            max_interval_ms: 0,
            interval_hist: [0;HIST_LEN],
            interval_total_ms: 0,
            last_display: None,
            watch: Stopwatch::start(),
        };
        assert(s.interval_hist@ =~= Seq::new(HIST_LEN as nat, |i: int| 0u64));
        s
    }

    /// Counts a picture whose decoding took `us` microseconds.
    pub fn record_decoded(&mut self, us: u64)
        ensures
            *final(self) == after_decoded(*old(self), us),
    {
        self.decoded = self.decoded.wrapping_add(1);
        self.decode_total_us = self.decode_total_us.wrapping_add(us);
        self.decode_count = self.decode_count.wrapping_add(1);
    }

    /// The counters after a picture was shown at the time `now`: the gap since the last one, where
    /// there is one, goes into its bucket.
    pub open spec fn displayed_at(self, now: Instant, after: ProfileStats) -> bool {
        let shown = ProfileStats {
            displayed: counted(self.displayed, 1),
            last_display: Some(now),
            ..self
        };
        match self.last_display {
            None => after == shown,
            Some(prev) => {
                let ms = (wrap_u64(span_between(prev@, now@) as int / 1000) / 1000) as u64;
                exists|i: int|
                    {
                        &&& #[trigger] is_bucket(ms, i)
                        &&& after.interval_hist@ == self.interval_hist@.update(
                            i,
                            counted(self.interval_hist@[i], 1),
                        )
                        &&& after == (ProfileStats {
                            interval_hist: after.interval_hist,
                            interval_total_ms: counted(self.interval_total_ms, ms as int),
                            max_interval_ms: if ms > self.max_interval_ms {
                                ms
                            } else {
                                self.max_interval_ms
                            },
                            ..shown
                        })
                    }
            },
        }
    }

    /// Counts a picture that is shown at the time `now`.
    pub fn record_displayed_at(&mut self, now: Instant)
        ensures
            old(self).displayed_at(now, *final(self)),
    {
        self.displayed = self.displayed.wrapping_add(1);
        match self.last_display {
            Some(prev) => {
                let us: u64 = now.since(prev).micros_u64();
                let ms: u64 = us / 1000;
                self.interval_total_ms = self.interval_total_ms.wrapping_add(ms);
                if ms > self.max_interval_ms {
                    self.max_interval_ms = ms;
                }
                let i: usize = bucket_of(ms);
                self.interval_hist[i] = self.interval_hist[i].wrapping_add(1);
            },
            None => {},
        }
        self.last_display = Some(now);
    }

    /// Counts a picture that is shown now.
    pub fn record_displayed(&mut self)
        ensures
            exists|now: Instant|
                #[trigger] old(self).watch.reads(now) && 0 <= now@ <= u64::MAX
                    && old(self).displayed_at(now, *final(self)),
    {
        let now = self.watch.now();
        self.record_displayed_at(now);
    }

    /// Sums up what was counted over `window_secs` seconds, and starts counting anew. When the last
    /// picture was shown is not forgotten.
    pub fn take_snapshot(&mut self, window_secs: u64) -> (snap: Snapshot)
        ensures
            summed_up(*old(self), window_secs, snap),
            final(self).is_empty(),
            final(self).last_display == old(self).last_display,
            final(self).watch == old(self).watch,
    {
        let hist: [u64; HIST_LEN] = self.interval_hist;
        let mut sum: u128 = 0;
        let mut i: usize = 0;
        while i < 10
            invariant
                i <= 10,
                hist@.len() == 10,
                sum == sum_to(hist@, i as nat),
                sum <= i * u64::MAX,
            decreases 10 - i,
        {
            sum = sum + hist[i] as u128;
            i = i + 1;
            assert(sum == sum_to(hist@, i as nat));
        }
        let total: u64 = low_u64(sum);
        let secs: u64 = if window_secs == 0 {
            1
        } else {
            window_secs
        };
        let snap = Snapshot {
            decoded_fps: self.decoded / secs,
            displayed_fps: self.displayed / secs,
            avg_decode_us: if self.decode_count == 0 {
                0
            } else {
                self.decode_total_us / self.decode_count
            },
            avg_interval_ms: if total == 0 {
                0
            } else {
                self.interval_total_ms / total
            },
            p99_interval_ms: percentile(&hist, total, 99),
            max_interval_ms: self.max_interval_ms,
            on_time_pct: on_time_pct(&hist, total),
            hist,
        };
        self.decoded = 0;
        self.displayed = 0;
        self.decode_total_us = 0;
        self.decode_count = 0;
        self.max_interval_ms = 0;
        self.interval_hist = [0;HIST_LEN];
        self.interval_total_ms = 0;
        assert(self.interval_hist@ =~= Seq::new(HIST_LEN as nat, |i: int| 0u64));
        snap
    }
}

impl Default for ProfileStats {
    fn default() -> (s: ProfileStats)
        ensures
            s.is_empty(),
            s.last_display is None,
    {
        ProfileStats::new()
    }
}

impl Snapshot {
    /// Whether playing stuttered: a whole picture was missed, or more than one gap in ten was not
    /// close to the nominal one.
    pub fn is_janky(&self) -> (r: bool)
        ensures
            r == (self.max_interval_ms > 66 || self.on_time_pct < 90),
    {
        self.max_interval_ms > 66 || self.on_time_pct < 90
    }
}

} // verus!
