//! The statistics aggregate behind the narrow counter-reporting interface:
//! signal and sample counters, lost-sample and demand-anomaly counters, and
//! per-value minimum/maximum/sum/count/last aggregates.
//!
//! The running system shares one aggregate between tasks under a lock (or
//! as a fence-bracketed group of atomics); the counting logic itself is
//! sequential and is what this module states and proves. Counters saturate
//! at the machine limit instead of wrapping or failing: a report must never
//! abort the data path.

use vstd::prelude::*;

verus! {

/// `a + b` clamped into the `u64` range from above.
pub open spec fn sat_add_u64(a: int, b: int) -> int {
    if a + b > u64::MAX {
        u64::MAX as int
    } else {
        a + b
    }
}

/// `a + b` clamped into the `i64` range.
pub open spec fn sat_add_i64(a: int, b: int) -> int {
    if a + b > i64::MAX {
        i64::MAX as int
    } else if a + b < i64::MIN {
        i64::MIN as int
    } else {
        a + b
    }
}

/// Saturating `u64` counter increment.
fn bump_u64(counter: &mut u64, n: u64)
    ensures
        *final(counter) == sat_add_u64(*old(counter) as int, n as int),
{
    if *counter <= u64::MAX - n {
        *counter = *counter + n;
    } else {
        *counter = u64::MAX;
    }
}

/// Running aggregate of one sample stream: extremes, sum, count and the
/// last value seen since the last reset.
#[derive(Clone, Copy, PartialEq, Eq, Structural, Debug)]
pub struct ValueStats {
    pub sum: i64,
    pub count: u64,
    pub last: i32,
    pub min: i32,
    pub max: i32,
}

/// The state a reset leaves behind: the extremes start at the opposite
/// bounds so the first update sets both.
pub open spec fn value_stats_reset() -> ValueStats {
    ValueStats { sum: 0, count: 0, last: 0, min: i32::MAX, max: i32::MIN }
}

/// What one update does: track minimum, maximum and last value exactly, and
/// accumulate sum and count with saturation.
pub open spec fn value_stats_updated(pre: ValueStats, value: i32) -> ValueStats {
    ValueStats {
        sum: sat_add_i64(pre.sum as int, value as int) as i64,
        count: sat_add_u64(pre.count as int, 1) as u64,
        last: value,
        min: if value < pre.min {
            value
        } else {
            pre.min
        },
        max: if value > pre.max {
            value
        } else {
            pre.max
        },
    }
}

impl ValueStats {
    pub fn new() -> (r: Self)
        ensures
            r == value_stats_reset(),
    {
        ValueStats { sum: 0, count: 0, last: 0, min: i32::MAX, max: i32::MIN }
    }

    pub fn reset(&mut self)
        ensures
            *final(self) == value_stats_reset(),
    {
        self.sum = 0;
        self.count = 0;
        self.last = 0;
        self.min = i32::MAX;
        self.max = i32::MIN;
    }

    /// Fold one sample value into the aggregate.
    pub fn update(&mut self, value: i32)
        ensures
            *final(self) == value_stats_updated(*old(self), value),
    {
        if value < self.min {
            self.min = value;
        }
        if value > self.max {
            self.max = value;
        }
        self.last = value;
        let v = value as i64;
        if v >= 0 {
            if self.sum <= i64::MAX - v {
                self.sum = self.sum + v;
            } else {
                self.sum = i64::MAX;
            }
        } else {
            if self.sum >= i64::MIN - v {
                self.sum = self.sum + v;
            } else {
                self.sum = i64::MIN;
            }
        }
        if self.count < u64::MAX {
            self.count = self.count + 1;
        }
    }
}

/// Counters of the outgoing (digital-to-analog) sample path.
pub struct StatsDac {
    /// Samples lost because the buffer was empty when the hardware asked.
    pub lost_empty: u64,
    /// Samples lost because the buffer was full when data arrived.
    pub lost_full: u64,
    /// The control system sent more samples than were requested.
    pub req_exceed: u64,
    /// Aggregate of the emitted sample values.
    pub value: ValueStats,
}

impl StatsDac {
    pub fn new() -> (r: Self)
        ensures
            r.lost_empty == 0,
            r.lost_full == 0,
            r.req_exceed == 0,
            r.value == value_stats_reset(),
    {
        StatsDac { lost_empty: 0, lost_full: 0, req_exceed: 0, value: ValueStats::new() }
    }

    pub fn reset(&mut self)
        ensures
            final(self).lost_empty == 0,
            final(self).lost_full == 0,
            final(self).req_exceed == 0,
            final(self).value == value_stats_reset(),
    {
        self.lost_empty = 0;
        self.lost_full = 0;
        self.req_exceed = 0;
        self.value.reset();
    }

    /// Starvation: `count` samples could not be served from an empty
    /// buffer. Counted and recovered locally; never aborts the loop.
    pub fn report_lost_empty(&mut self, count: usize)
        ensures
            final(self).lost_empty == sat_add_u64(old(self).lost_empty as int, count as int),
            final(self).lost_full == old(self).lost_full,
            final(self).req_exceed == old(self).req_exceed,
            final(self).value == old(self).value,
    {
        bump_u64(&mut self.lost_empty, count as u64);
    }

    /// Overflow: `count` stale samples were dropped in favour of fresh
    /// data.
    pub fn report_lost_full(&mut self, count: usize)
        ensures
            final(self).lost_full == sat_add_u64(old(self).lost_full as int, count as int),
            final(self).lost_empty == old(self).lost_empty,
            final(self).req_exceed == old(self).req_exceed,
            final(self).value == old(self).value,
    {
        bump_u64(&mut self.lost_full, count as u64);
    }

    /// Demand anomaly: `count` samples beyond the requested amount
    /// arrived. Counted; the data path keeps running.
    pub fn report_req_exceed(&mut self, count: usize)
        ensures
            final(self).req_exceed == sat_add_u64(old(self).req_exceed as int, count as int),
            final(self).lost_empty == old(self).lost_empty,
            final(self).lost_full == old(self).lost_full,
            final(self).value == old(self).value,
    {
        bump_u64(&mut self.req_exceed, count as u64);
    }

    /// Fold one emitted sample into the value aggregate.
    pub fn update_value(&mut self, value: i32)
        ensures
            final(self).value == value_stats_updated(old(self).value, value),
            final(self).lost_empty == old(self).lost_empty,
            final(self).lost_full == old(self).lost_full,
            final(self).req_exceed == old(self).req_exceed,
    {
        self.value.update(value);
    }
}

/// Counters of the incoming (analog-to-digital) sample path: one value
/// aggregate per converter channel.
pub struct StatsAdc {
    /// Samples lost because the buffer was full.
    pub lost_full: u64,
    /// One aggregate per channel, fixed at construction.
    pub values: Vec<ValueStats>,
}

impl StatsAdc {
    pub fn new(adc_count: usize) -> (r: Self)
        ensures
            r.lost_full == 0,
            r.values@.len() == adc_count,
            forall|i: int| 0 <= i < adc_count ==> r.values@[i] == value_stats_reset(),
    {
        let mut values: Vec<ValueStats> = Vec::new();
        let mut i: usize = 0;
        while i < adc_count
            invariant
                i <= adc_count,
                values@.len() == i,
                forall|j: int| 0 <= j < i ==> values@[j] == value_stats_reset(),
            decreases adc_count - i,
        {
            values.push(ValueStats::new());
            i = i + 1;
        }
        StatsAdc { lost_full: 0, values }
    }

    pub fn reset(&mut self)
        ensures
            final(self).lost_full == 0,
            final(self).values@.len() == old(self).values@.len(),
            forall|i: int|
                0 <= i < old(self).values@.len() ==> final(self).values@[i] == value_stats_reset(),
    {
        self.lost_full = 0;
        let mut i: usize = 0;
        while i < self.values.len()
            invariant
                i <= self.values@.len(),
                self.values@.len() == old(self).values@.len(),
                self.lost_full == 0,
                forall|j: int| 0 <= j < i ==> self.values@[j] == value_stats_reset(),
            decreases self.values@.len() - i,
        {
            self.values.set(i, ValueStats::new());
            i = i + 1;
        }
    }

    /// Overflow on the incoming path: `count` samples were dropped.
    pub fn report_lost_full(&mut self, count: usize)
        ensures
            final(self).lost_full == sat_add_u64(old(self).lost_full as int, count as int),
            final(self).values == old(self).values,
    {
        bump_u64(&mut self.lost_full, count as u64);
    }

    /// Fold one sample per channel into the aggregates, channel by channel.
    pub fn update_values(&mut self, values: &Vec<i32>)
        requires
            values@.len() == old(self).values@.len(),
        ensures
            final(self).lost_full == old(self).lost_full,
            final(self).values@.len() == old(self).values@.len(),
            forall|i: int|
                0 <= i < old(self).values@.len() ==> final(self).values@[i] == value_stats_updated(
                    old(self).values@[i],
                    values@[i],
                ),
    {
        let mut i: usize = 0;
        while i < values.len()
            invariant
                i <= values@.len(),
                values@.len() == self.values@.len(),
                self.values@.len() == old(self).values@.len(),
                self.lost_full == old(self).lost_full,
                forall|j: int|
                    i <= j < self.values@.len() ==> self.values@[j] == old(self).values@[j],
                forall|j: int|
                    0 <= j < i ==> self.values@[j] == value_stats_updated(
                        old(self).values@[j],
                        values@[j],
                    ),
            decreases values@.len() - i,
        {
            let mut slot = self.values[i];
            slot.update(values[i]);
            self.values.set(i, slot);
            i = i + 1;
        }
    }
}

/// The whole statistics aggregate: interrupt and sample counters plus the
/// per-path counters.
pub struct Statistics {
    /// Synchronisation signals captured.
    pub sync_count: u64,
    /// Sample-ready signals captured.
    pub ready_count: u64,
    /// Samples processed.
    pub sample_count: u64,
    /// Ready signals since the last processed sample.
    pub intrs_per_sample: u64,
    /// Largest number of ready signals seen for one sample; above one it
    /// means some signals were lost.
    pub max_intrs_per_sample: u64,
    /// Checksum mismatches in the device link.
    pub crc_error_count: u64,
    pub dac: StatsDac,
    pub adcs: StatsAdc,
}

impl Statistics {
    pub fn new(adc_count: usize) -> (r: Self)
        ensures
            r.sync_count == 0,
            r.ready_count == 0,
            r.sample_count == 0,
            r.intrs_per_sample == 0,
            r.max_intrs_per_sample == 0,
            r.crc_error_count == 0,
            r.dac.lost_empty == 0,
            r.dac.lost_full == 0,
            r.dac.req_exceed == 0,
            r.dac.value == value_stats_reset(),
            r.adcs.lost_full == 0,
            r.adcs.values@.len() == adc_count,
            forall|i: int| 0 <= i < adc_count ==> r.adcs.values@[i] == value_stats_reset(),
    {
        Statistics {
            sync_count: 0,
            ready_count: 0,
            sample_count: 0,
            intrs_per_sample: 0,
            max_intrs_per_sample: 0,
            crc_error_count: 0,
            dac: StatsDac::new(),
            adcs: StatsAdc::new(adc_count),
        }
    }

    pub fn reset(&mut self)
        ensures
            final(self).sync_count == 0,
            final(self).ready_count == 0,
            final(self).sample_count == 0,
            final(self).intrs_per_sample == old(self).intrs_per_sample,
            final(self).max_intrs_per_sample == 0,
            final(self).crc_error_count == 0,
            final(self).dac.lost_empty == 0,
            final(self).dac.lost_full == 0,
            final(self).dac.req_exceed == 0,
            final(self).dac.value == value_stats_reset(),
            final(self).adcs.lost_full == 0,
            final(self).adcs.values@.len() == old(self).adcs.values@.len(),
            forall|i: int|
                0 <= i < old(self).adcs.values@.len() ==> final(self).adcs.values@[i]
                    == value_stats_reset(),
    {
        self.sync_count = 0;
        self.ready_count = 0;
        self.sample_count = 0;
        self.max_intrs_per_sample = 0;
        self.crc_error_count = 0;
        self.dac.reset();
        self.adcs.reset();
    }

    /// A synchronisation signal was captured.
    pub fn intr_clock(&mut self)
        ensures
            final(self).sync_count == sat_add_u64(old(self).sync_count as int, 1),
            *final(self) == (Statistics { sync_count: final(self).sync_count, ..*old(self) }),
    {
        bump_u64(&mut self.sync_count, 1);
    }

    /// A sample-ready signal was captured.
    pub fn intr_sample(&mut self)
        ensures
            final(self).ready_count == sat_add_u64(old(self).ready_count as int, 1),
            final(self).intrs_per_sample == sat_add_u64(old(self).intrs_per_sample as int, 1),
            *final(self) == (Statistics {
                ready_count: final(self).ready_count,
                intrs_per_sample: final(self).intrs_per_sample,
                ..*old(self)
            }),
    {
        bump_u64(&mut self.intrs_per_sample, 1);
        bump_u64(&mut self.ready_count, 1);
    }

    /// One sample was processed: fold the ready signals seen for it into
    /// the maximum and restart that count.
    pub fn report_sample(&mut self)
        ensures
            final(self).intrs_per_sample == 0,
            final(self).max_intrs_per_sample == if old(self).intrs_per_sample > old(
                self,
            ).max_intrs_per_sample {
                old(self).intrs_per_sample
            } else {
                old(self).max_intrs_per_sample
            },
            final(self).sample_count == sat_add_u64(old(self).sample_count as int, 1),
            *final(self) == (Statistics {
                intrs_per_sample: 0,
                max_intrs_per_sample: final(self).max_intrs_per_sample,
                sample_count: final(self).sample_count,
                ..*old(self)
            }),
    {
        if self.intrs_per_sample > self.max_intrs_per_sample {
            self.max_intrs_per_sample = self.intrs_per_sample;
        }
        self.intrs_per_sample = 0;
        bump_u64(&mut self.sample_count, 1);
    }

    /// A link checksum mismatch was detected.
    pub fn report_crc_error(&mut self)
        ensures
            final(self).crc_error_count == sat_add_u64(old(self).crc_error_count as int, 1),
            *final(self) == (Statistics {
                crc_error_count: final(self).crc_error_count,
                ..*old(self)
            }),
    {
        bump_u64(&mut self.crc_error_count, 1);
    }
}

} // verus!
