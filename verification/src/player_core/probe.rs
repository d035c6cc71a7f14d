//! How many packets are read and how many audio chunks come out, reported every two seconds.

use crate::time::{span_between, Instant};
use vstd::prelude::*;

verus! {

/// Nanoseconds from one report to the next.
pub const REPORT_INTERVAL_NANOS: u64 = 2_000_000_000;

/// What was counted since the last report.
#[derive(Debug, Clone, Copy, PartialEq, Eq, Structural)]
pub struct Counters {
    pub packets: u32,
    pub audio_events: u32,
    /// When the last report was made.
    pub last: Option<Instant>,
}

/// What a report says.
#[derive(Debug, Clone, Copy, PartialEq, Eq, Structural)]
pub struct Report {
    pub packets: u32,
    pub audio_events: u32,
}

impl Counters {
    /// Nothing counted and nothing reported yet.
    pub fn new() -> (c: Counters)
        ensures
            c == (Counters { packets: 0, audio_events: 0, last: None }),
    {
        Counters { packets: 0, audio_events: 0, last: None }
    }
}

/// Counts a packet.
pub fn packet(c: &mut Counters)
    ensures
        *final(c) == (Counters {
            packets: ((old(c).packets + 1) % 0x1_0000_0000) as u32,
            ..*old(c)
        }),
{
    c.packets = c.packets.wrapping_add(1);
}

/// Counts an audio chunk.
pub fn audio_event(c: &mut Counters)
    ensures
        *final(c) == (Counters {
            audio_events: ((old(c).audio_events + 1) % 0x1_0000_0000) as u32,
            ..*old(c)
        }),
{
    c.audio_events = c.audio_events.wrapping_add(1);
}

/// Makes a report and starts counting anew, unless the last one is less than two seconds old.
pub fn maybe_report(c: &mut Counters, now: Instant) -> (r: Option<Report>)
    ensures
        ({
            let waits = old(c).last matches Some(t) && span_between(t@, now@)
                < REPORT_INTERVAL_NANOS;
            &&& waits ==> r is None && *final(c) == *old(c)
            &&& !waits ==> {
                &&& r == Some(
                    Report { packets: old(c).packets, audio_events: old(c).audio_events },
                )
                &&& *final(c) == (Counters { packets: 0, audio_events: 0, last: Some(now) })
            }
        }),
{
    let waits = match c.last {
        Some(t) => now.since(t).as_nanos() < 2_000_000_000,
        None => false,
    };
    if waits {
        return None;
    }
    let report = Report { packets: c.packets, audio_events: c.audio_events };
    c.packets = 0;
    c.audio_events = 0;
    c.last = Some(now);
    Some(report)
}

} // verus!
