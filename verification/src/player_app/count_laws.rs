//! What holds of the counts of the simple player and of what they are summed up to.

use crate::gpui_video::count_laws::{is_part, lemma_quotient_is_part};
use crate::gpui_video::stats::{is_bucket, is_percentile, sum_to};
use crate::player_app::stats::{after_decoded, on_time, summed_up, ProfileStats, Snapshot};
use crate::time::{law_wrapping_keeps_what_fits, span_between, Instant};
use vstd::prelude::*;

verus! {

/// The percentage of the gaps on time is that of the gaps from 28 to 38 milliseconds, cut off.
pub proof fn law_on_time_is_the_share(hist: Seq<u64>, total: int)
    requires
        total >= 0,
    ensures
        total > 0 ==> is_part(100 * (hist[2] + hist[3] + hist[4]), total, on_time(hist, total)),
        total == 0 ==> on_time(hist, total) == 0,
{
    if total > 0 {
        lemma_quotient_is_part(100 * (hist[2] + hist[3] + hist[4]), total);
    }
}

/// A snapshot tells rates per second, means per count and percentages of counts, each cut off, and the
/// largest values as they are: rates over the seconds of the window, at least one. What has no count
/// is zero.
pub proof fn law_snapshot_tells_the_shares(
    s: ProfileStats,
    window_secs: u64,
    snap: Snapshot,
    total: int,
)
    requires
        summed_up(s, window_secs, snap),
        total == s.interval_hist@[0] + s.interval_hist@[1] + s.interval_hist@[2]
            + s.interval_hist@[3] + s.interval_hist@[4] + s.interval_hist@[5] + s.interval_hist@[6]
            + s.interval_hist@[7] + s.interval_hist@[8] + s.interval_hist@[9],
        total <= 0xffff_ffff_ffff_ffff,
    ensures
        window_secs > 0 ==> is_part(s.decoded as int, window_secs as int, snap.decoded_fps as int),
        window_secs > 0 ==> is_part(
            s.displayed as int,
            window_secs as int,
            snap.displayed_fps as int,
        ),
        window_secs == 0 ==> snap.decoded_fps == s.decoded && snap.displayed_fps == s.displayed,
        s.decode_count > 0 ==> is_part(
            s.decode_total_us as int,
            s.decode_count as int,
            snap.avg_decode_us as int,
        ),
        s.decode_count == 0 ==> snap.avg_decode_us == 0,
        total > 0 ==> is_part(s.interval_total_ms as int, total, snap.avg_interval_ms as int),
        total == 0 ==> snap.avg_interval_ms == 0 && snap.p99_interval_ms == 0 && snap.on_time_pct
            == 0,
        is_percentile(s.interval_hist@, total, 99, snap.p99_interval_ms),
        snap.max_interval_ms == s.max_interval_ms,
        total > 0 ==> is_part(
            100 * (s.interval_hist@[2] + s.interval_hist@[3] + s.interval_hist@[4]),
            total,
            snap.on_time_pct as int,
        ),
        snap.hist == s.interval_hist,
{
    if window_secs > 0 {
        lemma_quotient_is_part(s.decoded as int, window_secs as int);
        lemma_quotient_is_part(s.displayed as int, window_secs as int);
    }
    if s.decode_count > 0 {
        lemma_quotient_is_part(s.decode_total_us as int, s.decode_count as int);
    }
    reveal_with_fuel(sum_to, 11);
    let h = s.interval_hist@;
    assert(sum_to(h, 10) == total);
    if total > 0 {
        lemma_quotient_is_part(s.interval_total_ms as int, total);
        law_on_time_is_the_share(h, total);
        let close = h[2] + h[3] + h[4];
        let pct = on_time(h, total);
        assert(0 <= pct <= 100) by (nonlinear_arith)
            requires
                pct * total <= 100 * close < (pct + 1) * total,
                0 <= close <= total,
                total > 0,
        ;
    }
}

/// A decoded picture counts once, with its microseconds; nothing else changes.
pub proof fn law_decoding_is_counted(s: ProfileStats, us: u64)
    requires
        s.decoded < u64::MAX,
        s.decode_count < u64::MAX,
        s.decode_total_us + us <= u64::MAX,
    ensures
        ({
            let t = after_decoded(s, us);
            &&& t.decoded == s.decoded + 1
            &&& t.decode_count == s.decode_count + 1
            &&& t.decode_total_us == s.decode_total_us + us
            &&& t == (ProfileStats {
                decoded: t.decoded,
                decode_count: t.decode_count,
                decode_total_us: t.decode_total_us,
                ..s
            })
        }),
{
}

/// A picture that is shown counts once. The whole milliseconds since the one before it are added up,
/// raise the longest gap where they are longer, and count in the one bucket that they fall into; the
/// first picture has no gap.
pub proof fn law_gap_is_counted(
    s: ProfileStats,
    prev: Instant,
    now: Instant,
    after: ProfileStats,
    gap: int,
    i: int,
)
    requires
        s.displayed_at(now, after),
        s.displayed < u64::MAX,
        prev@ <= now@,
        is_part(now@ - prev@, 1_000_000, gap),
        gap <= 0xffff_ffff,
        s.interval_total_ms < 0x8000_0000_0000_0000,
        0 <= i < 10,
        s.interval_hist@[i] < u64::MAX,
    ensures
        after.displayed == s.displayed + 1,
        after.last_display == Some(now),
        s.last_display is None ==> after == (ProfileStats {
            displayed: after.displayed,
            last_display: after.last_display,
            ..s
        }),
        s.last_display == Some(prev) ==> {
            &&& after.interval_total_ms == s.interval_total_ms + gap
            &&& gap > s.max_interval_ms ==> after.max_interval_ms == gap
            &&& gap <= s.max_interval_ms ==> after.max_interval_ms == s.max_interval_ms
            &&& is_bucket(gap as u64, i) ==> after.interval_hist@[i] == s.interval_hist@[i] + 1
            &&& !is_bucket(gap as u64, i) ==> after.interval_hist@[i] == s.interval_hist@[i]
            &&& after == (ProfileStats {
                displayed: after.displayed,
                last_display: after.last_display,
                interval_hist: after.interval_hist,
                interval_total_ms: after.interval_total_ms,
                max_interval_ms: after.max_interval_ms,
                ..s
            })
        },
{
    if s.last_display == Some(prev) {
        let span = span_between(prev@, now@) as int;
        assert(span == now@ - prev@);
        assert(span / 1000 / 1000 == gap);
        law_wrapping_keeps_what_fits(span / 1000, 0, 0);
        let ms = (crate::time::wrap_u64(span / 1000) / 1000) as u64;
        assert(ms == gap);
        let j = choose|j: int|
            {
                &&& #[trigger] is_bucket(ms, j)
                &&& after.interval_hist@ == s.interval_hist@.update(
                    j,
                    crate::time::counted(s.interval_hist@[j], 1),
                )
                &&& after == (ProfileStats {
                    interval_hist: after.interval_hist,
                    interval_total_ms: crate::time::counted(s.interval_total_ms, ms as int),
                    max_interval_ms: if ms > s.max_interval_ms {
                        ms
                    } else {
                        s.max_interval_ms
                    },
                    displayed: crate::time::counted(s.displayed, 1),
                    last_display: Some(now),
                    ..s
                })
            };
        if is_bucket(gap as u64, i) {
            crate::gpui_video::stats::law_every_gap_has_one_bucket(ms, i, j);
        }
    }
}

/// With nothing counted every counter and every bucket stands at zero.
pub proof fn law_nothing_counted_is_zero(s: ProfileStats, i: int)
    requires
        s.is_empty(),
        0 <= i < 10,
    ensures
        s.decoded == 0,
        s.displayed == 0,
        s.decode_total_us == 0,
        s.decode_count == 0,
        s.max_interval_ms == 0,
        s.interval_total_ms == 0,
        s.interval_hist@.len() == 10,
        s.interval_hist@[i] == 0,
{
}

} // verus!
