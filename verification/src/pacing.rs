//! Pacing scheduler: decides how long to sleep before handing each video
//! frame to the render sink, so that the wall-clock gap between successive
//! deliveries matches the presentation-timestamp delta between the frames.
//!
//! Timestamps are nanoseconds since stream start. The caller owns the wall
//! clock: it measures `elapsed`, the nanoseconds since the previous delivery,
//! calls [`PacingScheduler::pace`], sleeps for the returned duration, then
//! delivers the frame and resets its reference instant to the instant of the
//! actual delivery (never to the nominal target), so that per-iteration
//! scheduling error does not compound.
use vstd::prelude::*;

verus! {

/// How long to sleep before delivering a frame with timestamp `current`,
/// when the previously delivered frame had timestamp `prev` (`None` for the
/// first frame) and `elapsed` nanoseconds of wall-clock time have already
/// passed since that previous delivery.
///
/// A frame whose timestamp does not advance past the previous one, or whose
/// target instant has already passed, is delivered at once: the sleep is
/// never negative and never invented.
pub open spec fn sleep_for(prev: Option<u64>, current: u64, elapsed: u64) -> u64 {
    match prev {
        Option::Some(p) => if current > p && elapsed < current - p {
            (current - p - elapsed) as u64
        } else {
            0u64
        },
        Option::None => 0u64,
    }
}

/// Wall-clock gap between two successive deliveries: the host spends `host`
/// nanoseconds popping and presenting, and the scheduler sleeps the rest.
pub open spec fn delivery_gap(prev: u64, current: u64, host: u64) -> int {
    host + sleep_for(Option::Some(prev), current, host)
}

/// Total wall-clock time from the first delivery to the last, over a run in
/// which frame `i` has timestamp `ts[i]` and the host overhead measured
/// before delivery `i` is `host[i]`.
pub open spec fn total_run_time(ts: Seq<u64>, host: Seq<u64>) -> int
    decreases ts.len(),
{
    if ts.len() <= 1 {
        0
    } else {
        total_run_time(ts.drop_last(), host.drop_last()) + delivery_gap(
            ts[ts.len() - 2],
            ts[ts.len() - 1],
            host[ts.len() - 1],
        )
    }
}

/// Per-playback-session pacing state: the timestamp of the most recently
/// delivered frame, if any. The wall-clock reference instant lives with the
/// caller, which alone may sleep.
pub struct PacingScheduler {
    previous_timestamp: Option<u64>,
}

impl PacingScheduler {
    /// Timestamp of the most recently delivered frame.
    pub closed spec fn previous(self) -> Option<u64> {
        self.previous_timestamp
    }

    /// A fresh scheduler: no frame has been delivered yet, so the first
    /// frame will be delivered without sleeping.
    pub fn new() -> (s: Self)
        ensures
            s.previous() is None,
    {
        PacingScheduler { previous_timestamp: None }
    }

    /// Forget the previous delivery, as on stream (re)start.
    pub fn reset(&mut self)
        ensures
            final(self).previous() is None,
    {
        self.previous_timestamp = None;
    }

    /// Decide the sleep before delivering the frame stamped `current`, given
    /// that `elapsed` nanoseconds of wall clock have passed since the
    /// previous delivery, and record `current` as the new previous
    /// timestamp.
    pub fn pace(&mut self, current: u64, elapsed: u64) -> (sleep: u64)
        ensures
            sleep == sleep_for(old(self).previous(), current, elapsed),
            final(self).previous() == Some(current),
    {
        let sleep: u64 = match self.previous_timestamp {
            Some(p) => {
                if current > p {
                    let delta: u64 = current - p;
                    if elapsed < delta {
                        delta - elapsed
                    } else {
                        0
                    }
                } else {
                    0
                }
            },
            None => 0,
        };
        self.previous_timestamp = Some(current);
        sleep
    }
}

/// A frame whose timestamp is at or before the previous one is delivered
/// with zero additional delay: no negative or zero-length sleep is invented.
pub proof fn lemma_stale_timestamp_sleeps_zero(prev: u64, current: u64, elapsed: u64)
    requires
        current <= prev,
    ensures
        sleep_for(Some(prev), current, elapsed) == 0,
{
}

/// When a frame's timestamp advances and the host overhead since the
/// previous delivery is within the timestamp delta, the wall-clock gap
/// between the two deliveries equals the delta exactly.
pub proof fn lemma_gap_matches_timestamp_delta(prev: u64, current: u64, host: u64)
    requires
        prev < current,
        host <= current - prev,
    ensures
        delivery_gap(prev, current, host) == current - prev,
{
}

/// Over a whole run with strictly increasing timestamps, as long as the host
/// overhead of each iteration stays within that iteration's timestamp delta,
/// the total wall-clock run time from first to last delivery equals the
/// timestamp span exactly: per-iteration scheduling error does not
/// accumulate, however long the run.
pub proof fn lemma_no_cumulative_drift(ts: Seq<u64>, host: Seq<u64>)
    requires
        ts.len() == host.len(),
        ts.len() >= 1,
        forall|i: int| 0 < i < ts.len() ==> ts[i - 1] < #[trigger] ts[i],
        forall|i: int| 0 < i < ts.len() ==> #[trigger] host[i] <= ts[i] - ts[i - 1],
    ensures
        total_run_time(ts, host) == ts[ts.len() - 1] - ts[0],
    decreases ts.len(),
{
    if ts.len() > 1 {
        let n = ts.len() as int;
        lemma_no_cumulative_drift(ts.drop_last(), host.drop_last());
        lemma_gap_matches_timestamp_delta(ts[n - 2], ts[n - 1], host[n - 1]);
    }
}

} // verus!
