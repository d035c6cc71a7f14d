//! What holds of the statistics over any run of calls.

use crate::gpui_video::stats::{
    after_decoded, after_drift, is_bucket, is_percentile, law_every_gap_has_one_bucket,
    size, sum_to, summed_up, ProfileStats, Snapshot, HIST_LEN, INTERVAL_BUCKETS_MS, OVERFLOW_MS,
};
use crate::time::{counted, span_between, wrap_u64, Instant};
use vstd::prelude::*;

verus! {

/// A call that counts something, or sums up what was counted.
pub enum Record {
    /// A picture was decoded, in so many microseconds.
    Decoded(u64),
    /// A picture was shown at this time.
    Displayed(Instant),
    /// A picture that was shown lies so many microseconds from the sound.
    Drift(i64),
    /// A window of so many seconds was summed up.
    Snapshot(u64),
}

/// The call `e` leads from the counters `s` to the counters `t`.
pub open spec fn step(s: ProfileStats, e: Record, t: ProfileStats) -> bool {
    match e {
        Record::Decoded(us) => t == after_decoded(s, us),
        Record::Displayed(now) => s.displayed_at(now, t),
        Record::Drift(us) => t == after_drift(s, us),
        Record::Snapshot(_) => t.is_empty() && t.last_display == s.last_display && t.watch
            == s.watch,
    }
}

/// The gap between two pictures, in milliseconds.
pub open spec fn gap_ms(prev: Instant, now: Instant) -> int {
    wrap_u64(span_between(prev@, now@) as int / 1000) / 1000
}

/// No counter that the call `e` touches runs over.
pub open spec fn fits(s: ProfileStats, e: Record) -> bool {
    match e {
        Record::Decoded(_) | Record::Snapshot(_) => true,
        Record::Displayed(now) => s.last_display matches Some(prev) ==> {
            &&& s.interval_total_ms + gap_ms(prev, now) <= u64::MAX
            &&& sum_to(s.interval_hist@, HIST_LEN as nat) < u64::MAX
        },
        Record::Drift(us) => {
            &&& s.av_sync_count < u64::MAX
            &&& s.av_sync_sum_sq_us + size(us as int) * size(us as int) <= u64::MAX
        },
    }
}

/// The call with the number `i` leads from one of the states to the next.
pub open spec fn step_at(states: Seq<ProfileStats>, calls: Seq<Record>, i: int) -> bool {
    step(states[i], calls[i], states[i + 1])
}

/// The calls lead through the states.
pub open spec fn is_run(states: Seq<ProfileStats>, calls: Seq<Record>) -> bool {
    &&& states.len() == calls.len() + 1
    &&& forall|i: int| 0 <= i < calls.len() ==> #[trigger] step_at(states, calls, i)
}

/// No counter runs over on the way.
pub open spec fn all_fit(states: Seq<ProfileStats>, calls: Seq<Record>) -> bool {
    forall|i: int| 0 <= i < calls.len() ==> fits(#[trigger] states[i], calls[i])
}

/// The sum of the gaps is no more than that many of the longest one.
pub open spec fn gaps_agree(hist: Seq<u64>, total_ms: u64, max_ms: u64) -> bool {
    &&& hist.len() == HIST_LEN
    &&& sum_to(hist, HIST_LEN as nat) <= u64::MAX
    &&& total_ms <= max_ms * sum_to(hist, HIST_LEN as nat)
}

/// The larger one of two numbers.
pub open spec fn larger(a: u64, b: u64) -> u64 {
    if a > b {
        a
    } else {
        b
    }
}

/// What the counters say of the gaps and of the drifts fits together.
pub open spec fn consistent(s: ProfileStats) -> bool {
    let widest = larger(s.av_sync_max_lag_us, s.av_sync_max_lead_us);
    &&& gaps_agree(s.interval_hist@, s.interval_total_ms, s.max_interval_ms)
    &&& s.av_sync_out_of_range <= s.av_sync_count
    &&& s.av_sync_sum_sq_us <= s.av_sync_count * (widest * widest)
}

/// The figures of a snapshot fit together.
pub open spec fn makes_sense(snap: Snapshot) -> bool {
    &&& snap.on_time_pct <= 100
    &&& snap.avg_interval_ms <= snap.max_interval_ms
    &&& snap.p99_interval_ms == 0 <==> sum_to(snap.hist@, HIST_LEN as nat) == 0
    &&& snap.p99_interval_ms == 0 || snap.p99_interval_ms == OVERFLOW_MS
        || INTERVAL_BUCKETS_MS@.contains(snap.p99_interval_ms)
    &&& snap.av_sync_bad_pct <= 100
    &&& snap.av_sync_rms_ms <= larger(snap.av_sync_max_lag_ms, snap.av_sync_max_lead_ms)
}

/// Changing one bucket changes the sum by as much.
proof fn lemma_sum_of_update(hist: Seq<u64>, i: int, v: u64, n: nat)
    requires
        0 <= i < hist.len(),
        n <= hist.len(),
    ensures
        sum_to(hist.update(i, v), n) == sum_to(hist, n) + (if i < n {
            v - hist[i]
        } else {
            0
        }),
    decreases n,
{
    if n > 0 {
        lemma_sum_of_update(hist, i, v, (n - 1) as nat);
    }
}

/// No bucket holds more than all of them.
proof fn lemma_bucket_within_sum(hist: Seq<u64>, i: int, n: nat)
    requires
        0 <= i < n <= hist.len(),
    ensures
        hist[i] <= sum_to(hist, n),
    decreases n,
{
    if i < n - 1 {
        lemma_bucket_within_sum(hist, i, (n - 1) as nat);
    }
}

/// Nothing adds up to nothing.
pub proof fn lemma_sum_of_zeros(n: nat)
    requires
        n <= HIST_LEN,
    ensures
        sum_to(Seq::new(HIST_LEN as nat, |i: int| 0u64), n) == 0,
    decreases n,
{
    if n > 0 {
        lemma_sum_of_zeros((n - 1) as nat);
    }
}

/// One more gap leaves the gaps in agreement.
pub proof fn lemma_gap_agrees(hist: Seq<u64>, total_ms: u64, max_ms: u64, ms: u64, i: int)
    requires
        gaps_agree(hist, total_ms, max_ms),
        is_bucket(ms, i),
        total_ms + ms <= u64::MAX,
        sum_to(hist, HIST_LEN as nat) < u64::MAX,
    ensures
        gaps_agree(
            hist.update(i, counted(hist[i], 1)),
            counted(total_ms, ms as int),
            larger(ms, max_ms),
        ),
{
    lemma_bucket_within_sum(hist, i, HIST_LEN as nat);
    lemma_sum_of_update(hist, i, counted(hist[i], 1), HIST_LEN as nat);
    let n = sum_to(hist, HIST_LEN as nat) as int;
    let m = larger(ms, max_ms) as int;
    assert(total_ms + ms <= m * (n + 1)) by (nonlinear_arith)
        requires
            total_ms <= max_ms * n,
            max_ms <= m,
            ms <= m,
            n >= 0,
    ;
}

/// Gaps in agreement give figures that fit together.
pub proof fn lemma_gap_figures(hist: Seq<u64>, total_ms: u64, max_ms: u64, p99: u64)
    requires
        gaps_agree(hist, total_ms, max_ms),
        is_percentile(hist, sum_to(hist, HIST_LEN as nat) as int, 99, p99),
    ensures
        sum_to(hist, HIST_LEN as nat) > 0 ==> total_ms as int / sum_to(
            hist,
            HIST_LEN as nat,
        ) as int <= max_ms,
        p99 == 0 <==> sum_to(hist, HIST_LEN as nat) == 0,
        p99 == 0 || p99 == OVERFLOW_MS || INTERVAL_BUCKETS_MS@.contains(p99),
{
    let n = sum_to(hist, HIST_LEN as nat) as int;
    if n > 0 {
        assert(total_ms as int / n <= max_ms) by (nonlinear_arith)
            requires
                n > 0,
                0 <= total_ms <= max_ms * n,
        ;
        if p99 != OVERFLOW_MS {
            let i = choose|i: int|
                {
                    &&& 0 <= i < hist.len()
                    &&& i < INTERVAL_BUCKETS_MS@.len()
                    &&& p99 == #[trigger] INTERVAL_BUCKETS_MS@[i]
                };
            assert(INTERVAL_BUCKETS_MS@.contains(INTERVAL_BUCKETS_MS@[i]));
            assert(INTERVAL_BUCKETS_MS@[i] > 0);
        }
    }
}

/// One more drift leaves the drifts in agreement.
proof fn lemma_drift_agrees(count: int, sum_sq: int, before: int, widest: int, a: int)
    requires
        count >= 0,
        0 <= before <= widest,
        0 <= a <= widest,
        sum_sq <= count * (before * before),
    ensures
        sum_sq + a * a <= (count + 1) * (widest * widest),
{
    assert(before * before <= widest * widest) by (nonlinear_arith)
        requires
            0 <= before <= widest,
    ;
    assert(a * a <= widest * widest) by (nonlinear_arith)
        requires
            0 <= a <= widest,
    ;
    let w = widest * widest;
    let b = before * before;
    assert(count * b <= count * w) by (nonlinear_arith)
        requires
            count >= 0,
            b <= w,
    ;
    assert((count + 1) * w == count * w + w) by (nonlinear_arith);
}

proof fn lemma_step_is_consistent(s: ProfileStats, e: Record, t: ProfileStats)
    requires
        consistent(s),
        step(s, e, t),
        fits(s, e),
    ensures
        consistent(t),
{
    match e {
        Record::Decoded(_) => {},
        Record::Displayed(now) => {
            if s.last_display is Some {
                let ms = gap_ms(s.last_display->0, now) as u64;
                let i = choose|i: int|
                    {
                        &&& #[trigger] is_bucket(ms, i)
                        &&& t.interval_hist@ == s.interval_hist@.update(
                            i,
                            counted(s.interval_hist@[i], 1),
                        )
                    };
                lemma_gap_agrees(
                    s.interval_hist@,
                    s.interval_total_ms,
                    s.max_interval_ms,
                    ms,
                    i,
                );
            }
        },
        Record::Drift(us) => {
            let a = size(us as int);
            assert(a * a >= 0) by (nonlinear_arith);
            lemma_drift_agrees(
                s.av_sync_count as int,
                s.av_sync_sum_sq_us as int,
                larger(s.av_sync_max_lag_us, s.av_sync_max_lead_us) as int,
                larger(t.av_sync_max_lag_us, t.av_sync_max_lead_us) as int,
                a,
            );
        },
        Record::Snapshot(_) => {
            lemma_empty_is_consistent(t);
        },
    }
}

proof fn lemma_empty_is_consistent(s: ProfileStats)
    requires
        s.is_empty(),
    ensures
        consistent(s),
{
    lemma_sum_of_zeros(HIST_LEN as nat);
}

proof fn lemma_run_is_consistent(states: Seq<ProfileStats>, calls: Seq<Record>, n: nat)
    requires
        is_run(states, calls),
        all_fit(states, calls),
        states[0].is_empty(),
        n < states.len(),
    ensures
        consistent(states[n as int]),
    decreases n,
{
    if n == 0 {
        lemma_empty_is_consistent(states[0]);
    } else {
        lemma_run_is_consistent(states, calls, (n - 1) as nat);
        assert(step_at(states, calls, n - 1));
        assert(fits(states[n - 1], calls[n - 1]));
        lemma_step_is_consistent(states[n - 1], calls[n - 1], states[n as int]);
    }
}

proof fn lemma_rms_within(ms: int, sum_sq: int, count: int, widest: int)
    requires
        count > 0,
        ms >= 0,
        widest >= 0,
        ms * ms * 1_000_000 * count <= sum_sq,
        sum_sq <= count * (widest * widest),
    ensures
        ms <= widest / 1000,
{
    if ms * 1000 > widest {
        assert(widest * widest < (ms * 1000) * (ms * 1000)) by (nonlinear_arith)
            requires
                0 <= widest < ms * 1000,
        ;
        assert((ms * 1000) * (ms * 1000) == ms * ms * 1_000_000) by (nonlinear_arith);
        let a = widest * widest;
        let b = ms * ms * 1_000_000;
        assert(count * a < b * count) by (nonlinear_arith)
            requires
                count > 0,
                a < b,
        ;
    }
}

/// A part is at most a hundred percent of the whole.
pub proof fn lemma_share_of_hundred(part: int, whole: int)
    requires
        0 <= part <= whole,
        whole > 0,
    ensures
        0 <= part * 100 / whole <= 100,
{
    assert(0 <= part * 100 / whole <= 100) by (nonlinear_arith)
        requires
            0 <= part <= whole,
            whole > 0,
    ;
}

/// Whatever was counted and summed up since the start, and in whatever order, the figures of the
/// next snapshot fit together, as long as no counter has run over: shares are at most a hundred
/// percent, the average gap is at most the longest one, the 99th percentile is zero exactly where
/// there was no gap and the bound of a bucket otherwise, and the root mean square of the drifts is
/// at most the widest of them.
pub proof fn law_snapshots_make_sense(
    states: Seq<ProfileStats>,
    calls: Seq<Record>,
    window_secs: u64,
    snap: Snapshot,
)
    requires
        is_run(states, calls),
        all_fit(states, calls),
        states[0].is_empty(),
        summed_up(states.last(), window_secs, snap),
    ensures
        makes_sense(snap),
{
    let s = states.last();
    lemma_run_is_consistent(states, calls, calls.len() as nat);
    let n = sum_to(s.interval_hist@, HIST_LEN as nat) as int;
    lemma_gap_figures(
        s.interval_hist@,
        s.interval_total_ms,
        s.max_interval_ms,
        snap.p99_interval_ms,
    );
    let h = s.interval_hist@;
    assert(h[1] + h[2] + h[3] + h[4] + h[5] <= n) by {
        reveal_with_fuel(sum_to, 11);
    }
    if n > 0 {
        lemma_share_of_hundred(h[1] + h[2] + h[3] + h[4] + h[5], n);
    }
    if s.av_sync_count > 0 {
        lemma_share_of_hundred(s.av_sync_out_of_range as int, s.av_sync_count as int);
        lemma_rms_within(
            snap.av_sync_rms_ms as int,
            s.av_sync_sum_sq_us as int,
            s.av_sync_count as int,
            larger(s.av_sync_max_lag_us, s.av_sync_max_lead_us) as int,
        );
    }
}

/// How long the pictures took that were decoded, in the order of the calls.
pub open spec fn decode_times(calls: Seq<Record>) -> Seq<u64>
    decreases calls.len(),
{
    if calls.len() == 0 {
        Seq::empty()
    } else {
        match calls.last() {
            Record::Decoded(us) => decode_times(calls.drop_last()).push(us),
            _ => decode_times(calls.drop_last()),
        }
    }
}

/// The sum of some times.
pub open spec fn time_sum(times: Seq<u64>) -> nat
    decreases times.len(),
{
    if times.len() == 0 {
        0
    } else {
        time_sum(times.drop_last()) + times.last() as nat
    }
}

proof fn lemma_decode_totals(states: Seq<ProfileStats>, calls: Seq<Record>)
    requires
        is_run(states, calls),
        states[0].is_empty(),
        forall|i: int| 0 <= i < calls.len() ==> !(#[trigger] calls[i] is Snapshot),
    ensures
        states.last().decoded == wrap_u64(decode_times(calls).len() as int),
        states.last().decode_count == wrap_u64(decode_times(calls).len() as int),
        states.last().decode_total_us == wrap_u64(time_sum(decode_times(calls)) as int),
    decreases calls.len(),
{
    if calls.len() > 0 {
        let head = calls.drop_last();
        let before = states.drop_last();
        assert forall|i: int| 0 <= i < head.len() implies #[trigger] step_at(before, head, i) by {
            assert(step_at(states, calls, i));
        }
        assert forall|i: int| 0 <= i < head.len() implies !(#[trigger] head[i] is Snapshot) by {
            assert(head[i] == calls[i]);
        }
        lemma_decode_totals(before, head);
        assert(step_at(states, calls, calls.len() - 1));
        assert(!(calls[calls.len() - 1] is Snapshot));
        if calls.last() is Decoded {
            assert(decode_times(calls).drop_last() =~= decode_times(head));
        }
    }
}

/// The pictures that were decoded since the counters were empty are counted and their times added
/// up, whatever else is counted in between: the snapshot has their number over the seconds of the
/// window, and their average time.
pub proof fn law_decode_totals(
    states: Seq<ProfileStats>,
    calls: Seq<Record>,
    window_secs: u64,
    snap: Snapshot,
)
    requires
        is_run(states, calls),
        states[0].is_empty(),
        forall|i: int| 0 <= i < calls.len() ==> !(#[trigger] calls[i] is Snapshot),
        1 <= decode_times(calls).len() <= u64::MAX,
        time_sum(decode_times(calls)) <= u64::MAX,
        summed_up(states.last(), window_secs, snap),
    ensures
        snap.decoded_fps == decode_times(calls).len() as int / (if window_secs == 0 {
            1
        } else {
            window_secs as int
        }),
        snap.avg_decode_us == time_sum(decode_times(calls)) as int / decode_times(
            calls,
        ).len() as int,
{
    lemma_decode_totals(states, calls);
}

/// The calls that do not count a decoded picture.
pub open spec fn other_calls(calls: Seq<Record>) -> Seq<Record>
    decreases calls.len(),
{
    if calls.len() == 0 {
        Seq::empty()
    } else if calls.last() is Decoded {
        other_calls(calls.drop_last())
    } else {
        other_calls(calls.drop_last()).push(calls.last())
    }
}

/// The counters are the same but for those of decoding.
pub open spec fn same_but_decoding(a: ProfileStats, b: ProfileStats) -> bool {
    &&& a.displayed == b.displayed
    &&& a.max_interval_ms == b.max_interval_ms
    &&& a.interval_hist@ == b.interval_hist@
    &&& a.interval_total_ms == b.interval_total_ms
    &&& a.last_display == b.last_display
    &&& a.av_sync_sum_us == b.av_sync_sum_us
    &&& a.av_sync_sum_sq_us == b.av_sync_sum_sq_us
    &&& a.av_sync_count == b.av_sync_count
    &&& a.av_sync_max_lag_us == b.av_sync_max_lag_us
    &&& a.av_sync_max_lead_us == b.av_sync_max_lead_us
    &&& a.av_sync_out_of_range == b.av_sync_out_of_range
}

proof fn lemma_step_is_determined(
    a: ProfileStats,
    b: ProfileStats,
    e: Record,
    c: ProfileStats,
    d: ProfileStats,
)
    requires
        same_but_decoding(a, b),
        step(a, e, c),
        step(b, e, d),
    ensures
        same_but_decoding(c, d),
{
    if let Record::Displayed(now) = e {
        if a.last_display is Some {
            let ms = gap_ms(a.last_display->0, now) as u64;
            let i = choose|i: int|
                {
                    &&& #[trigger] is_bucket(ms, i)
                    &&& c.interval_hist@ == a.interval_hist@.update(
                        i,
                        counted(a.interval_hist@[i], 1),
                    )
                };
            let j = choose|j: int|
                {
                    &&& #[trigger] is_bucket(ms, j)
                    &&& d.interval_hist@ == b.interval_hist@.update(
                        j,
                        counted(b.interval_hist@[j], 1),
                    )
                };
            law_every_gap_has_one_bucket(ms, i, j);
        }
    }
}

/// A shorter run: the last call left out.
proof fn lemma_run_without_last(states: Seq<ProfileStats>, calls: Seq<Record>)
    requires
        is_run(states, calls),
        calls.len() > 0,
    ensures
        is_run(states.drop_last(), calls.drop_last()),
        step(states.drop_last().last(), calls.last(), states.last()),
        states.drop_last()[0] == states[0],
{
    assert forall|i: int| 0 <= i < calls.drop_last().len() implies #[trigger] step_at(
        states.drop_last(),
        calls.drop_last(),
        i,
    ) by {
        assert(step_at(states, calls, i));
    }
    assert(step_at(states, calls, calls.len() - 1));
}

/// Nothing but the figures of decoding depends on the pictures that are decoded: two runs that
/// begin alike and differ only in those calls, in their number, their times or their places among
/// the others, agree in all the other counters.
pub proof fn law_decoding_leaves_the_rest(
    states: Seq<ProfileStats>,
    calls: Seq<Record>,
    other_states: Seq<ProfileStats>,
    others: Seq<Record>,
)
    requires
        is_run(states, calls),
        is_run(other_states, others),
        same_but_decoding(states[0], other_states[0]),
        other_calls(calls) == other_calls(others),
    ensures
        same_but_decoding(states.last(), other_states.last()),
    decreases calls.len() + others.len(),
{
    if calls.len() > 0 && calls.last() is Decoded {
        lemma_run_without_last(states, calls);
        law_decoding_leaves_the_rest(
            states.drop_last(),
            calls.drop_last(),
            other_states,
            others,
        );
    } else if others.len() > 0 && others.last() is Decoded {
        lemma_run_without_last(other_states, others);
        law_decoding_leaves_the_rest(
            states,
            calls,
            other_states.drop_last(),
            others.drop_last(),
        );
    } else if calls.len() > 0 && others.len() > 0 {
        lemma_run_without_last(states, calls);
        lemma_run_without_last(other_states, others);
        assert(other_calls(calls).last() == calls.last());
        assert(other_calls(others).last() == others.last());
        assert(other_calls(calls).drop_last() =~= other_calls(calls.drop_last()));
        assert(other_calls(others).drop_last() =~= other_calls(others.drop_last()));
        law_decoding_leaves_the_rest(
            states.drop_last(),
            calls.drop_last(),
            other_states.drop_last(),
            others.drop_last(),
        );
        lemma_step_is_determined(
            states.drop_last().last(),
            other_states.drop_last().last(),
            calls.last(),
            states.last(),
            other_states.last(),
        );
    } else {
        assert(calls.len() == 0 ==> other_calls(calls).len() == 0);
        assert(others.len() == 0 ==> other_calls(others).len() == 0);
    }
}

} // verus!
