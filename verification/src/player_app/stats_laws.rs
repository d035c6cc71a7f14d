//! What holds of the simple pipeline's statistics over any run of calls.

use crate::gpui_video::stats::{
    is_bucket, law_every_gap_has_one_bucket, sum_to, OVERFLOW_MS,
};
use crate::gpui_video::stats_laws::{
    gap_ms, gaps_agree, larger, lemma_gap_agrees, lemma_gap_figures, lemma_share_of_hundred,
    lemma_sum_of_zeros, time_sum,
};
use crate::player_app::stats::{
    after_decoded, summed_up, ProfileStats, Snapshot, HIST_LEN, INTERVAL_BUCKETS_MS,
};
use crate::time::{counted, wrap_u64, Instant};
use vstd::prelude::*;

verus! {

/// A call that counts something, or sums up what was counted.
pub enum Record {
    /// A picture was decoded, in so many microseconds.
    Decoded(u64),
    /// A picture was shown at this time.
    Displayed(Instant),
    /// A window of so many seconds was summed up.
    Snapshot(u64),
}

/// The call `e` leads from the counters `s` to the counters `t`.
pub open spec fn step(s: ProfileStats, e: Record, t: ProfileStats) -> bool {
    match e {
        Record::Decoded(us) => t == after_decoded(s, us),
        Record::Displayed(now) => s.displayed_at(now, t),
        Record::Snapshot(_) => t.is_empty() && t.last_display == s.last_display && t.watch
            == s.watch,
    }
}

/// No counter of the gaps runs over in the call `e`.
pub open spec fn fits(s: ProfileStats, e: Record) -> bool {
    e matches Record::Displayed(now) ==> (s.last_display matches Some(prev) ==> {
        &&& s.interval_total_ms + gap_ms(prev, now) <= u64::MAX
        &&& sum_to(s.interval_hist@, HIST_LEN as nat) < u64::MAX
    })
}

/// The call with the number `i` leads from one of the states to the next.
pub open spec fn step_at(states: Seq<ProfileStats>, calls: Seq<Record>, i: int) -> bool {
    step(states[i], calls[i], states[i + 1])
}

/// The calls lead through the states.
pub open spec fn is_run(states: Seq<ProfileStats>, calls: Seq<Record>) -> bool {
    &&& states.len() == calls.len() + 1
    &&& forall|i: int| 0 <= i < calls.len() ==> #[trigger] step_at(states, calls, i)
}

/// No counter runs over on the way.
pub open spec fn all_fit(states: Seq<ProfileStats>, calls: Seq<Record>) -> bool {
    forall|i: int| 0 <= i < calls.len() ==> fits(#[trigger] states[i], calls[i])
}

/// The figures of a snapshot fit together.
pub open spec fn makes_sense(snap: Snapshot) -> bool {
    &&& snap.on_time_pct <= 100
    &&& snap.avg_interval_ms <= snap.max_interval_ms
    &&& snap.p99_interval_ms == 0 <==> sum_to(snap.hist@, HIST_LEN as nat) == 0
    &&& snap.p99_interval_ms == 0 || snap.p99_interval_ms == OVERFLOW_MS
        || INTERVAL_BUCKETS_MS@.contains(snap.p99_interval_ms)
}

/// A shorter run: the last call left out.
proof fn lemma_run_without_last(states: Seq<ProfileStats>, calls: Seq<Record>)
    requires
        is_run(states, calls),
        calls.len() > 0,
    ensures
        is_run(states.drop_last(), calls.drop_last()),
        step(states.drop_last().last(), calls.last(), states.last()),
        states.drop_last()[0] == states[0],
{
    assert forall|i: int| 0 <= i < calls.drop_last().len() implies #[trigger] step_at(
        states.drop_last(),
        calls.drop_last(),
        i,
    ) by {
        assert(step_at(states, calls, i));
    }
    assert(step_at(states, calls, calls.len() - 1));
}

/// What the counters say of the gaps fits together.
spec fn consistent(s: ProfileStats) -> bool {
    gaps_agree(s.interval_hist@, s.interval_total_ms, s.max_interval_ms)
}

proof fn lemma_step_is_consistent(s: ProfileStats, e: Record, t: ProfileStats)
    requires
        consistent(s),
        step(s, e, t),
        fits(s, e),
    ensures
        consistent(t),
{
    match e {
        Record::Decoded(_) => {},
        Record::Displayed(now) => {
            if s.last_display is Some {
                let ms = gap_ms(s.last_display->0, now) as u64;
                let i = choose|i: int|
                    {
                        &&& #[trigger] is_bucket(ms, i)
                        &&& t.interval_hist@ == s.interval_hist@.update(
                            i,
                            counted(s.interval_hist@[i], 1),
                        )
                    };
                lemma_gap_agrees(
                    s.interval_hist@,
                    s.interval_total_ms,
                    s.max_interval_ms,
                    ms,
                    i,
                );
            }
        },
        Record::Snapshot(_) => {
            lemma_sum_of_zeros(HIST_LEN as nat);
        },
    }
}

proof fn lemma_run_is_consistent(states: Seq<ProfileStats>, calls: Seq<Record>)
    requires
        is_run(states, calls),
        all_fit(states, calls),
        states[0].is_empty(),
    ensures
        consistent(states.last()),
    decreases calls.len(),
{
    if calls.len() == 0 {
        lemma_sum_of_zeros(HIST_LEN as nat);
    } else {
        let before = states.drop_last();
        let head = calls.drop_last();
        lemma_run_without_last(states, calls);
        assert forall|i: int| 0 <= i < head.len() implies fits(#[trigger] before[i], head[i]) by {
            assert(fits(states[i], calls[i]));
        }
        lemma_run_is_consistent(before, head);
        assert(fits(states[calls.len() - 1], calls[calls.len() - 1]));
        lemma_step_is_consistent(before.last(), calls.last(), states.last());
    }
}

/// Whatever was counted and summed up since the start, and in whatever order, the figures of the
/// next snapshot fit together, as long as no counter has run over: the share of gaps on time is at
/// most a hundred percent, the average gap is at most the longest one, and the 99th percentile is
/// zero exactly where there was no gap and the bound of a bucket otherwise.
pub proof fn law_snapshots_make_sense(
    states: Seq<ProfileStats>,
    calls: Seq<Record>,
    window_secs: u64,
    snap: Snapshot,
)
    requires
        is_run(states, calls),
        all_fit(states, calls),
        states[0].is_empty(),
        summed_up(states.last(), window_secs, snap),
    ensures
        makes_sense(snap),
{
    let s = states.last();
    lemma_run_is_consistent(states, calls);
    lemma_gap_figures(
        s.interval_hist@,
        s.interval_total_ms,
        s.max_interval_ms,
        snap.p99_interval_ms,
    );
    let h = s.interval_hist@;
    let n = sum_to(h, HIST_LEN as nat) as int;
    assert(h[2] + h[3] + h[4] <= n) by {
        reveal_with_fuel(sum_to, 11);
    }
    if n > 0 {
        lemma_share_of_hundred(h[2] + h[3] + h[4], n);
    }
}

/// How long the pictures took that were decoded, in the order of the calls.
pub open spec fn decode_times(calls: Seq<Record>) -> Seq<u64>
    decreases calls.len(),
{
    if calls.len() == 0 {
        Seq::empty()
    } else {
        match calls.last() {
            Record::Decoded(us) => decode_times(calls.drop_last()).push(us),
            _ => decode_times(calls.drop_last()),
        }
    }
}

proof fn lemma_decode_totals(states: Seq<ProfileStats>, calls: Seq<Record>)
    requires
        is_run(states, calls),
        states[0].is_empty(),
        forall|i: int| 0 <= i < calls.len() ==> !(#[trigger] calls[i] is Snapshot),
    ensures
        states.last().decoded == wrap_u64(decode_times(calls).len() as int),
        states.last().decode_count == wrap_u64(decode_times(calls).len() as int),
        states.last().decode_total_us == wrap_u64(time_sum(decode_times(calls)) as int),
    decreases calls.len(),
{
    if calls.len() > 0 {
        let head = calls.drop_last();
        lemma_run_without_last(states, calls);
        assert forall|i: int| 0 <= i < head.len() implies !(#[trigger] head[i] is Snapshot) by {
            assert(head[i] == calls[i]);
        }
        lemma_decode_totals(states.drop_last(), head);
        assert(!(calls[calls.len() - 1] is Snapshot));
        if calls.last() is Decoded {
            assert(decode_times(calls).drop_last() =~= decode_times(head));
        }
    }
}

/// The pictures that were decoded since the counters were empty are counted and their times added
/// up, whatever else is counted in between: the snapshot has their number over the seconds of the
/// window, and their average time.
pub proof fn law_decode_totals(
    states: Seq<ProfileStats>,
    calls: Seq<Record>,
    window_secs: u64,
    snap: Snapshot,
)
    requires
        is_run(states, calls),
        states[0].is_empty(),
        forall|i: int| 0 <= i < calls.len() ==> !(#[trigger] calls[i] is Snapshot),
        1 <= decode_times(calls).len() <= u64::MAX,
        time_sum(decode_times(calls)) <= u64::MAX,
        summed_up(states.last(), window_secs, snap),
    ensures
        snap.decoded_fps == decode_times(calls).len() as int / (if window_secs == 0 {
            1
        } else {
            window_secs as int
        }),
        snap.avg_decode_us == time_sum(decode_times(calls)) as int / decode_times(
            calls,
        ).len() as int,
{
    lemma_decode_totals(states, calls);
}

/// The calls that do not count a decoded picture.
pub open spec fn other_calls(calls: Seq<Record>) -> Seq<Record>
    decreases calls.len(),
{
    if calls.len() == 0 {
        Seq::empty()
    } else if calls.last() is Decoded {
        other_calls(calls.drop_last())
    } else {
        other_calls(calls.drop_last()).push(calls.last())
    }
}

/// The counters are the same but for those of decoding.
pub open spec fn same_but_decoding(a: ProfileStats, b: ProfileStats) -> bool {
    &&& a.displayed == b.displayed
    &&& a.max_interval_ms == b.max_interval_ms
    &&& a.interval_hist@ == b.interval_hist@
    &&& a.interval_total_ms == b.interval_total_ms
    &&& a.last_display == b.last_display
}

proof fn lemma_step_is_determined(
    a: ProfileStats,
    b: ProfileStats,
    e: Record,
    c: ProfileStats,
    d: ProfileStats,
)
    requires
        same_but_decoding(a, b),
        step(a, e, c),
        step(b, e, d),
    ensures
        same_but_decoding(c, d),
{
    if let Record::Displayed(now) = e {
        if a.last_display is Some {
            let ms = gap_ms(a.last_display->0, now) as u64;
            let i = choose|i: int|
                {
                    &&& #[trigger] is_bucket(ms, i)
                    &&& c.interval_hist@ == a.interval_hist@.update(
                        i,
                        counted(a.interval_hist@[i], 1),
                    )
                };
            let j = choose|j: int|
                {
                    &&& #[trigger] is_bucket(ms, j)
                    &&& d.interval_hist@ == b.interval_hist@.update(
                        j,
                        counted(b.interval_hist@[j], 1),
                    )
                };
            law_every_gap_has_one_bucket(ms, i, j);
        }
    }
}

/// Nothing but the figures of decoding depends on the pictures that are decoded: two runs that
/// begin alike and differ only in those calls, in their number, their times or their places among
/// the others, agree in all the other counters.
pub proof fn law_decoding_leaves_the_rest(
    states: Seq<ProfileStats>,
    calls: Seq<Record>,
    other_states: Seq<ProfileStats>,
    others: Seq<Record>,
)
    requires
        is_run(states, calls),
        is_run(other_states, others),
        same_but_decoding(states[0], other_states[0]),
        other_calls(calls) == other_calls(others),
    ensures
        same_but_decoding(states.last(), other_states.last()),
    decreases calls.len() + others.len(),
{
    if calls.len() > 0 && calls.last() is Decoded {
        lemma_run_without_last(states, calls);
        law_decoding_leaves_the_rest(
            states.drop_last(),
            calls.drop_last(),
            other_states,
            others,
        );
    } else if others.len() > 0 && others.last() is Decoded {
        lemma_run_without_last(other_states, others);
        law_decoding_leaves_the_rest(
            states,
            calls,
            other_states.drop_last(),
            others.drop_last(),
        );
    } else if calls.len() > 0 && others.len() > 0 {
        lemma_run_without_last(states, calls);
        lemma_run_without_last(other_states, others);
        assert(other_calls(calls).last() == calls.last());
        assert(other_calls(others).last() == others.last());
        assert(other_calls(calls).drop_last() =~= other_calls(calls.drop_last()));
        assert(other_calls(others).drop_last() =~= other_calls(others.drop_last()));
        law_decoding_leaves_the_rest(
            states.drop_last(),
            calls.drop_last(),
            other_states.drop_last(),
            others.drop_last(),
        );
        lemma_step_is_determined(
            states.drop_last().last(),
            other_states.drop_last().last(),
            calls.last(),
            states.last(),
            other_states.last(),
        );
    } else {
        assert(calls.len() == 0 ==> other_calls(calls).len() == 0);
        assert(others.len() == 0 ==> other_calls(others).len() == 0);
    }
}

/// A snapshot leaves nothing behind: the next one is of what comes after it.
pub proof fn law_snapshot_starts_anew(s: ProfileStats, window_secs: u64, snap: Snapshot)
    requires
        s.is_empty(),
        summed_up(s, window_secs, snap),
    ensures
        snap.decoded_fps == 0,
        snap.displayed_fps == 0,
        snap.avg_decode_us == 0,
        snap.avg_interval_ms == 0,
        snap.p99_interval_ms == 0,
        snap.max_interval_ms == 0,
        snap.on_time_pct == 0,
        snap.hist@ == Seq::new(HIST_LEN as nat, |i: int| 0u64),
{
    lemma_sum_of_zeros(HIST_LEN as nat);
    let secs = if window_secs == 0 {
        1
    } else {
        window_secs as int
    };
    assert(0int / secs == 0) by (nonlinear_arith)
        requires
            secs > 0,
    ;
}

} // verus!
