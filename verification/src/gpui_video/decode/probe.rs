//! Where the time of the decoding loop goes, reported every two seconds.

use crate::time::{counted, wrap_u64, Duration, Instant};
use vstd::prelude::*;

verus! {

/// Milliseconds from one report to the next.
pub const REPORT_INTERVAL_MS: u64 = 2000;

/// What was counted since the last report.
#[derive(Debug, Clone, Copy, PartialEq, Eq, Structural)]
pub struct Acc {
    /// Microseconds spent reading.
    pub next_us: u64,
    /// Microseconds spent sending pictures.
    pub send_us: u64,
    /// Tenths of milliseconds of sound that were pushed.
    pub audio_pushed_ms10: u64,
    /// The most sound that ever waited, in milliseconds.
    pub queued_max_ms: u64,
    /// How much the sound card has played in all, in milliseconds.
    pub played_ms: u64,
    /// Stretches of sound that were thrown away.
    pub dropped: u64,
    /// Stretches of sound that came from filling up.
    pub pump_chunks: u64,
    /// Stretches of sound that came from reading.
    pub arm_chunks: u64,
    /// Units that were read in all.
    pub events: u64,
    /// When the last report was made, in milliseconds.
    pub t_last: u64,
    /// How much the sound card had played at the last report, in milliseconds.
    pub last_played: u64,
}

/// What a report says.
#[derive(Debug, Clone, Copy, PartialEq, Eq, Structural)]
pub struct Report {
    pub next_event_ms: u64,
    pub send_blocked_ms: u64,
    pub audio_pushed_ms: u64,
    pub card_consumed_ms: u64,
    pub audio_queued_peak_ms: u64,
    pub pump_chunks: u64,
    pub arm_chunks: u64,
    pub dropped: u64,
    pub events: u64,
}

impl Acc {
    /// Nothing counted yet.
    pub fn new() -> (acc: Acc)
        ensures
            acc == (Acc {
                next_us: 0,
                send_us: 0,
                audio_pushed_ms10: 0,
                queued_max_ms: 0,
                played_ms: 0,
                dropped: 0,
                pump_chunks: 0,
                arm_chunks: 0,
                events: 0,
                t_last: 0,
                last_played: 0,
            }),
    {
        Acc {
            next_us: 0,
            send_us: 0,
            audio_pushed_ms10: 0,
            queued_max_ms: 0,
            played_ms: 0,
            dropped: 0,
            pump_chunks: 0,
            arm_chunks: 0,
            events: 0,
            t_last: 0,
            last_played: 0,
        }
    }
}

/// The milliseconds of a reading of the watch.
pub open spec fn ms_of(now: int) -> u64 {
    wrap_u64(crate::time::span_between(0, now) as int / 1_000_000) as u64
}

/// A report is due: the last one is long enough ago.
pub open spec fn due(acc: Acc, now: Instant) -> bool {
    (ms_of(now@) - acc.t_last) % 0x1_0000_0000_0000_0000 >= REPORT_INTERVAL_MS
}

/// What a report says.
pub open spec fn reported(acc: Acc) -> Report {
    Report {
        next_event_ms: (acc.next_us / 1000) as u64,
        send_blocked_ms: (acc.send_us / 1000) as u64,
        audio_pushed_ms: (acc.audio_pushed_ms10 / 10) as u64,
        card_consumed_ms: if acc.played_ms >= acc.last_played {
            (acc.played_ms - acc.last_played) as u64
        } else {
            0
        },
        audio_queued_peak_ms: acc.queued_max_ms,
        pump_chunks: acc.pump_chunks,
        arm_chunks: acc.arm_chunks,
        dropped: acc.dropped,
        events: acc.events,
    }
}

/// The counters after a report at the time `now`.
pub open spec fn cleared(acc: Acc, now: Instant) -> Acc {
    Acc {
        next_us: 0,
        send_us: 0,
        audio_pushed_ms10: 0,
        queued_max_ms: 0,
        dropped: 0,
        pump_chunks: 0,
        arm_chunks: 0,
        t_last: ms_of(now@),
        last_played: acc.played_ms,
        ..acc
    }
}

/// Makes a report where one is due, and starts counting anew.
pub fn maybe_report(acc: &mut Acc, now: Instant) -> (r: Option<Report>)
    ensures
        !due(*old(acc), now) ==> r is None && *final(acc) == *old(acc),
        due(*old(acc), now) ==> r == Some(reported(*old(acc))) && *final(acc) == cleared(
            *old(acc),
            now,
        ),
{
    let now_ms: u64 = now.since(Instant::at_nanos(0)).millis_u64();
    if now_ms.wrapping_sub(acc.t_last) < REPORT_INTERVAL_MS {
        return None;
    }
    let consumed: u64 = acc.played_ms.saturating_sub(acc.last_played);
    let report = Report {
        next_event_ms: acc.next_us / 1000,
        send_blocked_ms: acc.send_us / 1000,
        audio_pushed_ms: acc.audio_pushed_ms10 / 10,
        card_consumed_ms: consumed,
        audio_queued_peak_ms: acc.queued_max_ms,
        pump_chunks: acc.pump_chunks,
        arm_chunks: acc.arm_chunks,
        dropped: acc.dropped,
        events: acc.events,
    };
    acc.next_us = 0;
    acc.send_us = 0;
    acc.audio_pushed_ms10 = 0;
    acc.queued_max_ms = 0;
    acc.dropped = 0;
    acc.pump_chunks = 0;
    acc.arm_chunks = 0;
    acc.t_last = now_ms;
    acc.last_played = acc.played_ms;
    Some(report)
}

/// Counts a read that took `d`.
pub fn next_event_done(acc: &mut Acc, d: Duration, now: Instant) -> (r: Option<Report>)
    ensures
        ({
            let noted = Acc {
                next_us: counted(old(acc).next_us, wrap_u64((d@ / 1000) as int)),
                events: counted(old(acc).events, 1),
                ..*old(acc)
            };
            &&& !due(noted, now) ==> r is None && *final(acc) == noted
            &&& due(noted, now) ==> r == Some(reported(noted)) && *final(acc) == cleared(noted, now)
        }),
{
    acc.next_us = acc.next_us.wrapping_add(d.micros_u64());
    acc.events = acc.events.wrapping_add(1);
    maybe_report(acc, now)
}

/// Counts the sending of a picture, which took `d`.
pub fn send_blocked(acc: &mut Acc, d: Duration, now: Instant) -> (r: Option<Report>)
    ensures
        ({
            let noted = Acc {
                send_us: counted(old(acc).send_us, wrap_u64((d@ / 1000) as int)),
                ..*old(acc)
            };
            &&& !due(noted, now) ==> r is None && *final(acc) == noted
            &&& due(noted, now) ==> r == Some(reported(noted)) && *final(acc) == cleared(noted, now)
        }),
{
    acc.send_us = acc.send_us.wrapping_add(d.micros_u64());
    maybe_report(acc, now)
}

/// Tenths of milliseconds that `samples` samples play, as far as the counter reaches. Without a
/// rate they never end.
pub open spec fn ms10_of(samples: int, channels: int, rate: int) -> int {
    let ch = if channels < 1 {
        1
    } else {
        channels
    };
    if samples == 0 {
        0
    } else if rate == 0 || samples * 10_000 / (ch * rate) > u64::MAX {
        u64::MAX as int
    } else {
        samples * 10_000 / (ch * rate)
    }
}

/// Tenths of milliseconds that `samples` samples play.
fn ms10(samples: usize, channels: u16, rate: u32) -> (r: u64)
    ensures
        r == ms10_of(samples as int, channels as int, rate as int),
{
    if samples == 0 {
        return 0;
    }
    if rate == 0 {
        return u64::MAX;
    }
    let ch: u128 = if channels < 1 {
        1
    } else {
        channels as u128
    };
    assert(0 < ch * rate <= 0xffff * 0xffff_ffff) by (nonlinear_arith)
        requires
            1 <= ch <= 0xffff,
            0 < rate <= 0xffff_ffff,
    ;
    let tenths: u128 = samples as u128 * 10_000 / (ch * rate as u128);
    if tenths > u64::MAX as u128 {
        u64::MAX
    } else {
        tenths as u64
    }
}

/// Counts a push of sound, after which `queued` waits.
pub fn audio_pushed(
    acc: &mut Acc,
    sample_count: usize,
    channels: u16,
    sample_rate: u32,
    queued: Duration,
    now: Instant,
) -> (r: Option<Report>)
    ensures
        ({
            let waiting = wrap_u64((queued@ / 1_000_000) as int) as u64;
            let noted = Acc {
                audio_pushed_ms10: counted(
                    old(acc).audio_pushed_ms10,
                    ms10_of(sample_count as int, channels as int, sample_rate as int),
                ),
                queued_max_ms: if waiting > old(acc).queued_max_ms {
                    waiting
                } else {
                    old(acc).queued_max_ms
                },
                ..*old(acc)
            };
            &&& !due(noted, now) ==> r is None && *final(acc) == noted
            &&& due(noted, now) ==> r == Some(reported(noted)) && *final(acc) == cleared(noted, now)
        }),
{
    acc.audio_pushed_ms10 = acc.audio_pushed_ms10.wrapping_add(
        ms10(sample_count, channels, sample_rate),
    );
    let waiting: u64 = queued.millis_u64();
    if waiting > acc.queued_max_ms {
        acc.queued_max_ms = waiting;
    }
    maybe_report(acc, now)
}

/// Notes how much the sound card has played in all.
pub fn audio_chunk(acc: &mut Acc, played: Duration)
    ensures
        *final(acc) == (Acc {
            played_ms: wrap_u64((played@ / 1_000_000) as int) as u64,
            ..*old(acc)
        }),
{
    acc.played_ms = played.millis_u64();
}

/// Counts sound that was thrown away.
pub fn audio_dropped(acc: &mut Acc)
    ensures
        *final(acc) == (Acc { dropped: counted(old(acc).dropped, 1), ..*old(acc) }),
{
    acc.dropped = acc.dropped.wrapping_add(1);
}

/// Counts sound that came from filling up.
pub fn pump_chunk(acc: &mut Acc)
    ensures
        *final(acc) == (Acc { pump_chunks: counted(old(acc).pump_chunks, 1), ..*old(acc) }),
{
    acc.pump_chunks = acc.pump_chunks.wrapping_add(1);
}

/// Counts sound that came from reading.
pub fn arm_chunk(acc: &mut Acc)
    ensures
        *final(acc) == (Acc { arm_chunks: counted(old(acc).arm_chunks, 1), ..*old(acc) }),
{
    acc.arm_chunks = acc.arm_chunks.wrapping_add(1);
}

} // verus!
