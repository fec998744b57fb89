//! The statistics of the queue of metrics that wait to be sent.
//!
//! The queue counts what goes in and what comes out. Whenever more than a
//! second has passed since the last report, the counts of that time become
//! the rates per second, the counts start again at zero and a report is due.

use vstd::prelude::*;

verus! {

/// How long the counts run before they are reported, in milliseconds.
pub const REPORT_AFTER_MS: u128 = 1000;

/// The counts of a queue.
#[derive(Clone, Copy, Debug, PartialEq, Eq, Structural)]
pub struct MetricStats {
    /// How many metrics wait in the queue.
    pub len: i64,
    /// When the last report was made, in milliseconds since the Unix epoch.
    pub last_ts: u128,
    /// How many metrics went in during the time of the last report.
    pub metrics_in_per_sec: usize,
    /// How many metrics came out during the time of the last report.
    pub metrics_out_per_sec: usize,
    /// How many metrics have gone in since the last report.
    pub metrics_in: usize,
    /// How many metrics have come out since the last report.
    pub metrics_out: usize,
}

/// A report of the queue's state.
#[derive(Clone, Copy, Debug, PartialEq, Eq, Structural)]
pub struct StatsReport {
    /// The length of the queue, as an unsigned number of 64 bits.
    pub queue_count: u64,
    pub in_per_sec: usize,
    pub out_per_sec: usize,
}

/// A signed number of 64 bits read as an unsigned one, bit for bit.
pub open spec fn spec_as_unsigned(value: i64) -> u64 {
    if value >= 0 {
        value as u64
    } else {
        (value + 0x1_0000_0000_0000_0000) as u64
    }
}

/// `value + 1`, or the largest number if there is no larger one.
pub open spec fn inc_len(value: i64) -> i64 {
    if value < i64::MAX {
        (value + 1) as i64
    } else {
        value
    }
}

/// `value - 1`, or the smallest number if there is no smaller one.
pub open spec fn dec_len(value: i64) -> i64 {
    if value > i64::MIN {
        (value - 1) as i64
    } else {
        value
    }
}

/// `value + 1`, or the largest number if there is no larger one.
pub open spec fn inc_count(value: usize) -> usize {
    if value < usize::MAX {
        (value + 1) as usize
    } else {
        value
    }
}

impl MetricStats {
    /// Whether a report is due at `now`: more than a second has passed since
    /// the last one.
    pub open spec fn spec_report_due(self, now: u128) -> bool {
        now >= self.last_ts && now - self.last_ts > REPORT_AFTER_MS
    }

    /// The counts after a look at the clock at `now`.
    pub open spec fn spec_rolled(self, now: u128) -> MetricStats {
        if self.spec_report_due(now) {
            MetricStats {
                len: self.len,
                last_ts: now,
                metrics_in_per_sec: self.metrics_in,
                metrics_out_per_sec: self.metrics_out,
                metrics_in: 0,
                metrics_out: 0,
            }
        } else {
            self
        }
    }

    /// The report that a look at the clock at `now` gives, if one is due.
    pub open spec fn spec_report(self, now: u128) -> Option<StatsReport> {
        if self.spec_report_due(now) {
            Some(
                StatsReport {
                    queue_count: spec_as_unsigned(self.len),
                    in_per_sec: self.metrics_in,
                    out_per_sec: self.metrics_out,
                },
            )
        } else {
            None
        }
    }

    /// The counts with one more metric in the queue.
    pub open spec fn spec_pushed(self) -> MetricStats {
        MetricStats { len: inc_len(self.len), metrics_in: inc_count(self.metrics_in), ..self }
    }

    /// The counts with one metric less in the queue.
    pub open spec fn spec_popped(self) -> MetricStats {
        MetricStats { len: dec_len(self.len), metrics_out: inc_count(self.metrics_out), ..self }
    }

    /// The counts of an empty queue that has never reported.
    pub fn new() -> (stats: MetricStats)
        ensures
            stats == (MetricStats {
                len: 0,
                last_ts: 0,
                metrics_in_per_sec: 0,
                metrics_out_per_sec: 0,
                metrics_in: 0,
                metrics_out: 0,
            }),
    {
        MetricStats {
            len: 0,
            last_ts: 0,
            metrics_in_per_sec: 0,
            metrics_out_per_sec: 0,
            metrics_in: 0,
            metrics_out: 0,
        }
    }

    /// Looks at the clock: if more than a second has passed since the last
    /// report, the counts become the rates, start again at zero, and the
    /// report is handed out.
    pub fn calc_stats(&mut self, now: u128) -> (report: Option<StatsReport>)
        ensures
            *final(self) == old(self).spec_rolled(now),
            report == old(self).spec_report(now),
    {
        if now >= self.last_ts && now - self.last_ts > REPORT_AFTER_MS {
            self.metrics_in_per_sec = self.metrics_in;
            self.metrics_out_per_sec = self.metrics_out;
            self.metrics_in = 0;
            self.metrics_out = 0;
            self.last_ts = now;
            Some(
                StatsReport {
                    queue_count: as_unsigned(self.len),
                    in_per_sec: self.metrics_in_per_sec,
                    out_per_sec: self.metrics_out_per_sec,
                },
            )
        } else {
            None
        }
    }

    /// Counts a metric that went into the queue at `now`.
    pub fn push(&mut self, now: u128) -> (report: Option<StatsReport>)
        ensures
            *final(self) == old(self).spec_pushed().spec_rolled(now),
            report == old(self).spec_pushed().spec_report(now),
    {
        if self.len < i64::MAX {
            self.len = self.len + 1;
        }
        if self.metrics_in < usize::MAX {
            self.metrics_in = self.metrics_in + 1;
        }
        self.calc_stats(now)
    }

    /// Counts a metric that came out of the queue at `now`.
    pub fn pop(&mut self, now: u128) -> (report: Option<StatsReport>)
        ensures
            *final(self) == old(self).spec_popped().spec_rolled(now),
            report == old(self).spec_popped().spec_report(now),
    {
        if self.len > i64::MIN {
            self.len = self.len - 1;
        }
        if self.metrics_out < usize::MAX {
            self.metrics_out = self.metrics_out + 1;
        }
        self.calc_stats(now)
    }
}

/// A signed number of 64 bits read as an unsigned one, bit for bit.
#[verifier::when_used_as_spec(spec_as_unsigned)]
pub fn as_unsigned(value: i64) -> (unsigned: u64)
    ensures
        unsigned == spec_as_unsigned(value),
{
    if value >= 0 {
        value as u64
    } else {
        u64::MAX - ((-(value + 1)) as u64)
    }
}

} // verus!
