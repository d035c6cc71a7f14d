//! What holds of single counts and of what they are summed up to, in terms of the numbers that go in.

use crate::gpui_video::decode::probe::{
    cleared, due, ms10_of, ms_of, reported, Acc, REPORT_INTERVAL_MS,
};
use crate::gpui_video::stats::{
    after_decoded, after_drift, cut, is_bucket, is_percentile, is_rms, on_time, share, sum_to,
    summed_up, ProfileStats, Snapshot, AV_SYNC_TOLERANCE_MS, INTERVAL_BUCKETS_MS, OVERFLOW_MS,
};
use crate::time::{law_wrapping_keeps_what_fits, span_between, Instant};
use vstd::prelude::*;

verus! {

/// `x` is between `q` and `q + 1` times `unit`.
pub open spec fn is_part(x: int, unit: int, q: int) -> bool {
    q * unit <= x < (q + 1) * unit
}

/// A quotient that is cut off is the part.
pub proof fn lemma_quotient_is_part(x: int, unit: int)
    requires
        unit > 0,
    ensures
        is_part(x, unit, x / unit),
{
    let q = x / unit;
    assert(q * unit <= x < (q + 1) * unit) by (nonlinear_arith)
        requires
            unit > 0,
            q == x / unit,
    ;
}

/// The bounds of the buckets, in milliseconds: each bucket holds the gaps from the bound below it up
/// to its own, its own not included.
pub proof fn law_buckets_lie_between_bounds(ms: u64, i: int)
    requires
        is_bucket(ms, i),
    ensures
        i == 0 <==> ms < 20,
        i == 1 <==> 20 <= ms < 28,
        i == 2 <==> 28 <= ms < 32,
        i == 3 <==> 32 <= ms < 35,
        i == 4 <==> 35 <= ms < 38,
        i == 5 <==> 38 <= ms < 42,
        i == 6 <==> 42 <= ms < 50,
        i == 7 <==> 50 <= ms < 66,
        i == 8 <==> 66 <= ms < 100,
        i == 9 <==> 100 <= ms,
        0 <= i < 10,
{
    let b = INTERVAL_BUCKETS_MS@;
    assert(b[0] == 20 && b[1] == 28 && b[2] == 32 && b[3] == 35 && b[4] == 38 && b[5] == 42 && b[6]
        == 50 && b[7] == 66 && b[8] == 100);
}

/// A percentile is the lowest bound under which that part of the gaps lies: for each bound, so many
/// percent of the gaps lie below it exactly where the percentile is no higher. Where not even the
/// highest bound is enough it is 999, and without gaps it is zero.
pub proof fn law_percentile_is_the_lowest_bound(hist: Seq<u64>, total: int, pct: int, ms: u64)
    requires
        hist.len() == 10,
        total > 0,
        pct >= 0,
        is_percentile(hist, total, pct, ms),
    ensures
        forall|none: u64| #[trigger] is_percentile(hist, 0, pct, none) ==> none == 0,
        100 * hist[0] >= total * pct <==> ms <= 20,
        100 * (hist[0] + hist[1]) >= total * pct <==> ms <= 28,
        100 * (hist[0] + hist[1] + hist[2]) >= total * pct <==> ms <= 32,
        100 * (hist[0] + hist[1] + hist[2] + hist[3]) >= total * pct <==> ms <= 35,
        100 * (hist[0] + hist[1] + hist[2] + hist[3] + hist[4]) >= total * pct <==> ms <= 38,
        100 * (hist[0] + hist[1] + hist[2] + hist[3] + hist[4] + hist[5]) >= total * pct <==> ms
            <= 42,
        100 * (hist[0] + hist[1] + hist[2] + hist[3] + hist[4] + hist[5] + hist[6]) >= total * pct
            <==> ms <= 50,
        100 * (hist[0] + hist[1] + hist[2] + hist[3] + hist[4] + hist[5] + hist[6] + hist[7])
            >= total * pct <==> ms <= 66,
        100 * (hist[0] + hist[1] + hist[2] + hist[3] + hist[4] + hist[5] + hist[6] + hist[7]
            + hist[8]) >= total * pct <==> ms <= 100,
        ms == 20 || ms == 28 || ms == 32 || ms == 35 || ms == 38 || ms == 42 || ms == 50 || ms == 66
            || ms == 100 || ms == 999,
{
    let b = INTERVAL_BUCKETS_MS@;
    assert(b[0] == 20 && b[1] == 28 && b[2] == 32 && b[3] == 35 && b[4] == 38 && b[5] == 42 && b[6]
        == 50 && b[7] == 66 && b[8] == 100);
    reveal_with_fuel(sum_to, 11);
    assert(sum_to(hist, 1) == hist[0]);
    assert(sum_to(hist, 2) == hist[0] + hist[1]);
    assert(sum_to(hist, 3) == hist[0] + hist[1] + hist[2]);
    assert(sum_to(hist, 4) == hist[0] + hist[1] + hist[2] + hist[3]);
    assert(sum_to(hist, 5) == hist[0] + hist[1] + hist[2] + hist[3] + hist[4]);
    assert(sum_to(hist, 6) == hist[0] + hist[1] + hist[2] + hist[3] + hist[4] + hist[5]);
    assert(sum_to(hist, 7) == hist[0] + hist[1] + hist[2] + hist[3] + hist[4] + hist[5] + hist[6]);
    assert(sum_to(hist, 8) == hist[0] + hist[1] + hist[2] + hist[3] + hist[4] + hist[5] + hist[6]
        + hist[7]);
    assert(sum_to(hist, 9) == hist[0] + hist[1] + hist[2] + hist[3] + hist[4] + hist[5] + hist[6]
        + hist[7] + hist[8]);
    let target = crate::gpui_video::stats::ceiling(total * pct, 100);
    assert forall|i: int| 0 <= i < 9 implies (#[trigger] sum_to(hist, (i + 1) as nat) < target
        <==> ms > b[i]) by {
        assert(sum_to(hist, (0 + 1) as nat) <= sum_to(hist, (1 + 1) as nat) <= sum_to(
            hist,
            (2 + 1) as nat,
        ) <= sum_to(hist, (3 + 1) as nat) <= sum_to(hist, (4 + 1) as nat) <= sum_to(
            hist,
            (5 + 1) as nat,
        ) <= sum_to(hist, (6 + 1) as nat) <= sum_to(hist, (7 + 1) as nat) <= sum_to(
            hist,
            (8 + 1) as nat,
        ));
    }
    assert(sum_to(hist, (0 + 1) as nat) < target <==> ms > b[0]);
    assert(sum_to(hist, (1 + 1) as nat) < target <==> ms > b[1]);
    assert(sum_to(hist, (2 + 1) as nat) < target <==> ms > b[2]);
    assert(sum_to(hist, (3 + 1) as nat) < target <==> ms > b[3]);
    assert(sum_to(hist, (4 + 1) as nat) < target <==> ms > b[4]);
    assert(sum_to(hist, (5 + 1) as nat) < target <==> ms > b[5]);
    assert(sum_to(hist, (6 + 1) as nat) < target <==> ms > b[6]);
    assert(sum_to(hist, (7 + 1) as nat) < target <==> ms > b[7]);
    assert(sum_to(hist, (8 + 1) as nat) < target <==> ms > b[8]);
}

/// The percentage of the gaps on time is that of the gaps from 20 to 42 milliseconds, cut off.
pub proof fn law_on_time_is_the_share(hist: Seq<u64>, total: int)
    requires
        total >= 0,
    ensures
        total > 0 ==> is_part(
            100 * (hist[1] + hist[2] + hist[3] + hist[4] + hist[5]),
            total,
            on_time(hist, total),
        ),
        total == 0 ==> on_time(hist, total) == 0,
{
    if total > 0 {
        lemma_quotient_is_part(100 * (hist[1] + hist[2] + hist[3] + hist[4] + hist[5]), total);
    }
}

/// Drifts that are all equally far from zero have that as their root mean square, in whole
/// milliseconds.
pub proof fn law_equal_drifts_have_their_size(ms: int, d: int, count: int)
    requires
        d >= 0,
        count > 0,
        is_rms(ms, count * (d * d), count),
    ensures
        is_part(d, 1000, ms),
{
    let sum = count * (d * d);
    assert(ms * ms * 1_000_000 <= d * d) by (nonlinear_arith)
        requires
            ms * ms * 1_000_000 * count <= sum,
            sum == count * (d * d),
            count > 0,
    ;
    assert(d * d < (ms + 1) * (ms + 1) * 1_000_000) by (nonlinear_arith)
        requires
            sum < (ms + 1) * (ms + 1) * 1_000_000 * count,
            sum == count * (d * d),
            count > 0,
    ;
    assert(ms * 1000 <= d) by (nonlinear_arith)
        requires
            ms * ms * 1_000_000 <= d * d,
            d >= 0,
            ms >= 0,
    ;
    assert(d < (ms + 1) * 1000) by (nonlinear_arith)
        requires
            d * d < (ms + 1) * (ms + 1) * 1_000_000,
            d >= 0,
            ms >= 0,
    ;
}

/// The root mean square is the only whole number of milliseconds whose square is not above the mean
/// of the squares while that of the next one is.
pub proof fn law_root_mean_square(ms: int, sum_sq: int, count: int)
    requires
        count > 0,
        is_rms(ms, sum_sq, count),
    ensures
        ms >= 0,
        (ms * 1000) * (ms * 1000) * count <= sum_sq < ((ms + 1) * 1000) * ((ms + 1) * 1000) * count,
{
    assert((ms * 1000) * (ms * 1000) * count == ms * ms * 1_000_000 * count) by (nonlinear_arith);
    assert(((ms + 1) * 1000) * ((ms + 1) * 1000) * count == (ms + 1) * (ms + 1) * 1_000_000 * count)
        by (nonlinear_arith);
}

/// A mean is cut off towards zero, first to microseconds and then to milliseconds: its size is the
/// part of the size of the sum, and its sign that of the sum.
pub proof fn law_mean_is_the_part(sum: int, count: int)
    requires
        count > 0,
    ensures
        sum >= 0 ==> is_part(sum, 1000 * count, cut(cut(sum, count), 1000)),
        sum <= 0 ==> is_part(-sum, 1000 * count, -cut(cut(sum, count), 1000)),
{
    let a = if sum < 0 {
        -sum
    } else {
        sum
    };
    let q = a / count;
    let m = q / 1000;
    lemma_quotient_is_part(a, count);
    assert(m * (1000 * count) <= q * count) by (nonlinear_arith)
        requires
            m * 1000 <= q,
            count > 0,
    ;
    assert((q + 1) * count <= (m + 1) * (1000 * count)) by (nonlinear_arith)
        requires
            q + 1 <= (m + 1) * 1000,
            count > 0,
    ;
    if sum < 0 {
        assert(cut(sum, count) == -q);
        assert(q >= 0) by (nonlinear_arith)
            requires
                q * count <= a < (q + 1) * count,
                a >= 0,
                count > 0,
        ;
        assert(cut(cut(sum, count), 1000) == -m);
    } else {
        assert(q >= 0) by (nonlinear_arith)
            requires
                q * count <= a < (q + 1) * count,
                a >= 0,
                count > 0,
        ;
    }
}

/// A snapshot tells rates per second, means per count and percentages of counts, each cut off, and the
/// largest values as they are: rates over the seconds of the window, at least one. What has no count
/// is zero.
pub proof fn law_snapshot_tells_the_shares(
    s: ProfileStats,
    window_secs: u64,
    snap: Snapshot,
    total: int,
)
    requires
        summed_up(s, window_secs, snap),
        total == s.interval_hist@[0] + s.interval_hist@[1] + s.interval_hist@[2]
            + s.interval_hist@[3] + s.interval_hist@[4] + s.interval_hist@[5] + s.interval_hist@[6]
            + s.interval_hist@[7] + s.interval_hist@[8] + s.interval_hist@[9],
        total <= 0xffff_ffff_ffff_ffff,
    ensures
        window_secs > 0 ==> is_part(s.decoded as int, window_secs as int, snap.decoded_fps as int),
        window_secs > 0 ==> is_part(
            s.displayed as int,
            window_secs as int,
            snap.displayed_fps as int,
        ),
        window_secs == 0 ==> snap.decoded_fps == s.decoded && snap.displayed_fps == s.displayed,
        s.decode_count > 0 ==> is_part(
            s.decode_total_us as int,
            s.decode_count as int,
            snap.avg_decode_us as int,
        ),
        s.decode_count == 0 ==> snap.avg_decode_us == 0,
        total > 0 ==> is_part(s.interval_total_ms as int, total, snap.avg_interval_ms as int),
        total == 0 ==> snap.avg_interval_ms == 0 && snap.p99_interval_ms == 0 && snap.on_time_pct
            == 0,
        is_percentile(s.interval_hist@, total, 99, snap.p99_interval_ms),
        snap.max_interval_ms == s.max_interval_ms,
        total > 0 ==> is_part(
            100 * (s.interval_hist@[1] + s.interval_hist@[2] + s.interval_hist@[3]
                + s.interval_hist@[4] + s.interval_hist@[5]),
            total,
            snap.on_time_pct as int,
        ),
        snap.hist == s.interval_hist,
        s.av_sync_count == 0 ==> snap.av_sync_mean_ms == 0 && snap.av_sync_rms_ms == 0
            && snap.av_sync_bad_pct == 0,
        s.av_sync_count > 0 && s.av_sync_sum_us >= 0 ==> is_part(
            s.av_sync_sum_us as int,
            1000 * s.av_sync_count,
            snap.av_sync_mean_ms as int,
        ),
        s.av_sync_count > 0 && s.av_sync_sum_us <= 0 ==> is_part(
            -s.av_sync_sum_us,
            1000 * s.av_sync_count,
            -snap.av_sync_mean_ms,
        ),
        is_rms(snap.av_sync_rms_ms as int, s.av_sync_sum_sq_us as int, s.av_sync_count as int),
        is_part(s.av_sync_max_lag_us as int, 1000, snap.av_sync_max_lag_ms as int),
        is_part(s.av_sync_max_lead_us as int, 1000, snap.av_sync_max_lead_ms as int),
        s.av_sync_out_of_range <= s.av_sync_count && s.av_sync_count > 0 ==> is_part(
            100 * s.av_sync_out_of_range,
            s.av_sync_count as int,
            snap.av_sync_bad_pct as int,
        ),
{
    if window_secs > 0 {
        lemma_quotient_is_part(s.decoded as int, window_secs as int);
        lemma_quotient_is_part(s.displayed as int, window_secs as int);
    }
    if s.decode_count > 0 {
        lemma_quotient_is_part(s.decode_total_us as int, s.decode_count as int);
    }
    reveal_with_fuel(sum_to, 11);
    let h = s.interval_hist@;
    assert(sum_to(h, 10) == total);
    if total > 0 {
        lemma_quotient_is_part(s.interval_total_ms as int, total);
        law_on_time_is_the_share(h, total);
        let close = h[1] + h[2] + h[3] + h[4] + h[5];
        let pct = on_time(h, total);
        assert(0 <= pct <= 100) by (nonlinear_arith)
            requires
                pct * total <= 100 * close < (pct + 1) * total,
                0 <= close <= total,
                total > 0,
        ;
    }
    if s.av_sync_count > 0 {
        law_mean_is_the_part(s.av_sync_sum_us as int, s.av_sync_count as int);
        let bad = s.av_sync_out_of_range * 100 / s.av_sync_count as int;
        lemma_quotient_is_part(100 * s.av_sync_out_of_range, s.av_sync_count as int);
        if s.av_sync_out_of_range <= s.av_sync_count {
            assert(0 <= bad <= 100) by (nonlinear_arith)
                requires
                    bad * s.av_sync_count <= 100 * s.av_sync_out_of_range < (bad + 1)
                        * s.av_sync_count,
                    0 <= s.av_sync_out_of_range <= s.av_sync_count,
                    s.av_sync_count > 0,
            ;
        }
    }
}

/// Without anything to divide by, a share is nothing.
pub proof fn law_shares_of_nothing(a: u64, b: u64)
    ensures
        b == 0 ==> share(a, b) == 0,
        b > 0 ==> is_part(a as int, b as int, share(a, b) as int),
{
    if b > 0 {
        lemma_quotient_is_part(a as int, b as int);
    }
}

/// A drift counts once; the signed sum grows by it, and the sum of the squares by its square. A picture
/// that is behind can only raise the largest lag, one that is ahead or on time only the largest lead,
/// each to the size of the drift. It is beyond the tolerance from 41 milliseconds on. Nothing else
/// changes.
pub proof fn law_drift_is_counted(s: ProfileStats, d: i64)
    requires
        s.av_sync_count < u64::MAX,
        s.av_sync_out_of_range < u64::MAX,
        -0x8000_0000 <= d <= 0x8000_0000,
        s.av_sync_sum_sq_us < 0x4000_0000_0000_0000,
        -0x4000_0000_0000_0000 < s.av_sync_sum_us < 0x4000_0000_0000_0000,
    ensures
        ({
            let t = after_drift(s, d);
            &&& t.av_sync_count == s.av_sync_count + 1
            &&& t.av_sync_sum_us == s.av_sync_sum_us + d
            &&& t.av_sync_sum_sq_us == s.av_sync_sum_sq_us + d * d
            &&& d > 0 && d > s.av_sync_max_lag_us ==> t.av_sync_max_lag_us == d
            &&& d <= 0 || d <= s.av_sync_max_lag_us ==> t.av_sync_max_lag_us == s.av_sync_max_lag_us
            &&& d < 0 && -d > s.av_sync_max_lead_us ==> t.av_sync_max_lead_us == -d
            &&& d >= 0 || -d <= s.av_sync_max_lead_us ==> t.av_sync_max_lead_us
                == s.av_sync_max_lead_us
            &&& d >= 41_000 || d <= -41_000 ==> t.av_sync_out_of_range == s.av_sync_out_of_range + 1
            &&& -41_000 < d < 41_000 ==> t.av_sync_out_of_range == s.av_sync_out_of_range
            &&& t == (ProfileStats {
                av_sync_count: t.av_sync_count,
                av_sync_sum_us: t.av_sync_sum_us,
                av_sync_sum_sq_us: t.av_sync_sum_sq_us,
                av_sync_max_lag_us: t.av_sync_max_lag_us,
                av_sync_max_lead_us: t.av_sync_max_lead_us,
                av_sync_out_of_range: t.av_sync_out_of_range,
                ..s
            })
        }),
{
    let a = crate::gpui_video::stats::size(d as int);
    assert(a * a == d * d && 0 <= a * a <= 0x4000_0000_0000_0000) by (nonlinear_arith)
        requires
            a == d || a == -d,
            0 <= a <= 0x8000_0000,
    ;
}

/// A decoded picture counts once, with its microseconds; nothing else changes.
pub proof fn law_decoding_is_counted(s: ProfileStats, us: u64)
    requires
        s.decoded < u64::MAX,
        s.decode_count < u64::MAX,
        s.decode_total_us + us <= u64::MAX,
    ensures
        ({
            let t = after_decoded(s, us);
            &&& t.decoded == s.decoded + 1
            &&& t.decode_count == s.decode_count + 1
            &&& t.decode_total_us == s.decode_total_us + us
            &&& t == (ProfileStats {
                decoded: t.decoded,
                decode_count: t.decode_count,
                decode_total_us: t.decode_total_us,
                ..s
            })
        }),
{
}

/// A picture that is shown counts once. The whole milliseconds since the one before it are added up,
/// raise the longest gap where they are longer, and count in the one bucket that they fall into; the
/// first picture has no gap.
pub proof fn law_gap_is_counted(
    s: ProfileStats,
    prev: Instant,
    now: Instant,
    after: ProfileStats,
    gap: int,
    i: int,
)
    requires
        s.displayed_at(now, after),
        s.displayed < u64::MAX,
        prev@ <= now@,
        is_part(now@ - prev@, 1_000_000, gap),
        gap <= 0xffff_ffff,
        s.interval_total_ms < 0x8000_0000_0000_0000,
        0 <= i < 10,
        s.interval_hist@[i] < u64::MAX,
    ensures
        after.displayed == s.displayed + 1,
        after.last_display == Some(now),
        s.last_display is None ==> after == (ProfileStats {
            displayed: after.displayed,
            last_display: after.last_display,
            ..s
        }),
        s.last_display == Some(prev) ==> {
            &&& after.interval_total_ms == s.interval_total_ms + gap
            &&& gap > s.max_interval_ms ==> after.max_interval_ms == gap
            &&& gap <= s.max_interval_ms ==> after.max_interval_ms == s.max_interval_ms
            &&& is_bucket(gap as u64, i) ==> after.interval_hist@[i] == s.interval_hist@[i] + 1
            &&& !is_bucket(gap as u64, i) ==> after.interval_hist@[i] == s.interval_hist@[i]
            &&& after == (ProfileStats {
                displayed: after.displayed,
                last_display: after.last_display,
                interval_hist: after.interval_hist,
                interval_total_ms: after.interval_total_ms,
                max_interval_ms: after.max_interval_ms,
                ..s
            })
        },
{
    if s.last_display == Some(prev) {
        let span = span_between(prev@, now@) as int;
        assert(span == now@ - prev@);
        assert(span / 1000 / 1000 == gap);
        law_wrapping_keeps_what_fits(span / 1000, 0, 0);
        let ms = (crate::time::wrap_u64(span / 1000) / 1000) as u64;
        assert(ms == gap);
        let j = choose|j: int|
            {
                &&& #[trigger] is_bucket(ms, j)
                &&& after.interval_hist@ == s.interval_hist@.update(
                    j,
                    crate::time::counted(s.interval_hist@[j], 1),
                )
                &&& after == (ProfileStats {
                    interval_hist: after.interval_hist,
                    interval_total_ms: crate::time::counted(s.interval_total_ms, ms as int),
                    max_interval_ms: if ms > s.max_interval_ms {
                        ms
                    } else {
                        s.max_interval_ms
                    },
                    displayed: crate::time::counted(s.displayed, 1),
                    last_display: Some(now),
                    ..s
                })
            };
        if is_bucket(gap as u64, i) {
            crate::gpui_video::stats::law_every_gap_has_one_bucket(ms, i, j);
        }
    }
}

/// The limits of the statistics: forty milliseconds that sound and picture may lie apart, and what
/// stands for a bound that there is none of.
pub proof fn law_limits()
    ensures
        AV_SYNC_TOLERANCE_MS == 40,
        OVERFLOW_MS == 999,
        REPORT_INTERVAL_MS == 2000,
{
}

/// A report is due once two seconds have passed since the last one, by whole milliseconds.
pub proof fn law_reports_come_every_two_seconds(acc: Acc, now: Instant, ms: int)
    requires
        is_part(now@, 1_000_000, ms),
        0 <= acc.t_last <= ms,
        ms <= 0x7fff_ffff_ffff_ffff,
    ensures
        ms_of(now@) == ms,
        due(acc, now) <==> ms - acc.t_last >= 2000,
{
    law_wrapping_keeps_what_fits(now@ / 1_000_000, 0, 0);
}

/// A report tells what was counted since the last one: times in whole milliseconds, counts as they
/// are, and as played what the card has played since.
pub proof fn law_report_tells_the_counts(acc: Acc)
    ensures
        is_part(acc.next_us as int, 1000, reported(acc).next_event_ms as int),
        is_part(acc.send_us as int, 1000, reported(acc).send_blocked_ms as int),
        is_part(acc.audio_pushed_ms10 as int, 10, reported(acc).audio_pushed_ms as int),
        acc.played_ms >= acc.last_played ==> acc.last_played + reported(acc).card_consumed_ms
            == acc.played_ms,
        acc.played_ms < acc.last_played ==> reported(acc).card_consumed_ms == 0,
        reported(acc).audio_queued_peak_ms == acc.queued_max_ms,
        reported(acc).pump_chunks == acc.pump_chunks,
        reported(acc).arm_chunks == acc.arm_chunks,
        reported(acc).dropped == acc.dropped,
        reported(acc).events == acc.events,
{
}

/// After a report everything is counted anew from then on, but for the units that were read in all
/// and what the card has played in all, from which the next report counts on.
pub proof fn law_report_starts_anew(acc: Acc, now: Instant)
    ensures
        ({
            let t = cleared(acc, now);
            &&& t.next_us == 0 && t.send_us == 0 && t.audio_pushed_ms10 == 0 && t.queued_max_ms == 0
            &&& t.dropped == 0 && t.pump_chunks == 0 && t.arm_chunks == 0
            &&& t.played_ms == acc.played_ms
            &&& t.events == acc.events
            &&& t.last_played == acc.played_ms
            &&& t.t_last == ms_of(now@)
            &&& reported(t).card_consumed_ms == 0
        }),
{
}

/// Samples play for as many tenths of a millisecond as their number per channel at the rate makes,
/// cut off, as far as the counter reaches.
pub proof fn law_samples_play_their_tenths(samples: int, channels: int, rate: int)
    requires
        samples >= 0,
        channels >= 1,
        rate >= 1,
        samples <= 0x1_0000_0000_0000,
    ensures
        is_part(samples * 10_000, channels * rate, ms10_of(samples, channels, rate)),
        ms10_of(samples, 0, rate) == ms10_of(samples, 1, rate),
        samples > 0 ==> ms10_of(samples, channels, 0) == u64::MAX,
{
    let unit = channels * rate;
    assert(unit >= 1) by (nonlinear_arith)
        requires
            unit == channels * rate,
            channels >= 1,
            rate >= 1,
    ;
    lemma_quotient_is_part(samples * 10_000, unit);
    let q = samples * 10_000 / unit;
    assert(q <= samples * 10_000) by (nonlinear_arith)
        requires
            q * unit <= samples * 10_000,
            unit >= 1,
            samples >= 0,
    ;
    if samples == 0 {
        assert(0 * unit == 0);
    }
}

/// With nothing counted every counter and every bucket stands at zero.
pub proof fn law_nothing_counted_is_zero(s: ProfileStats, i: int)
    requires
        s.is_empty(),
        0 <= i < 10,
    ensures
        s.decoded == 0,
        s.displayed == 0,
        s.decode_total_us == 0,
        s.decode_count == 0,
        s.max_interval_ms == 0,
        s.interval_total_ms == 0,
        s.interval_hist@.len() == 10,
        s.interval_hist@[i] == 0,
        s.av_sync_sum_us == 0,
        s.av_sync_sum_sq_us == 0,
        s.av_sync_count == 0,
        s.av_sync_max_lag_us == 0,
        s.av_sync_max_lead_us == 0,
        s.av_sync_out_of_range == 0,
{
}

} // verus!
