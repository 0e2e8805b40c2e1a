//! Counters of what the pipeline has done, and the snapshot derived from them.

use std::time::{Duration, Instant};
use vstd::prelude::*;

verus! {

/// `std::time::Instant`, a reading of the monotonic clock. Nothing inside it
/// is seen here.
#[verifier::external_type_specification]
#[verifier::external_body]
pub struct ExInstant(std::time::Instant);

/// `Instant::now` reads the clock: nothing is claimed of the instant it returns.
pub assume_specification[ Instant::now ]() -> Instant;

/// `Instant::elapsed` reads the clock: nothing is claimed of the duration it returns.
pub assume_specification[ Instant::elapsed ](start: &Instant) -> Duration;

/// `Duration::as_secs` gives the whole seconds of a duration, of which
/// nothing is known here: nothing is claimed of the number.
pub assume_specification[ Duration::as_secs ](length: &Duration) -> u64;

/// Seconds between two periodic reports of the snapshot.
pub const REPORT_INTERVAL_SECONDS: u64 = 10;

/// The counter that follows `count`: one more, and zero after the largest value.
pub open spec fn next_count(count: u64) -> u64 {
    if count == u64::MAX {
        0
    } else {
        (count + 1) as u64
    }
}

/// Records per second: whole records per whole second of uptime, and zero
/// while no second has passed.
pub open spec fn throughput(processed: u64, uptime_seconds: u64) -> u64 {
    if uptime_seconds > 0 {
        (processed / uptime_seconds) as u64
    } else {
        0
    }
}

/// The share of errors among the processed records as a fraction, numerator
/// first; zero over one while nothing has been processed. A hundred times its
/// value is the error rate in percent.
pub open spec fn error_fraction(errors: u64, processed: u64) -> (u64, u64) {
    if processed > 0 {
        (errors, processed)
    } else {
        (0, 1)
    }
}

/// The state of the counters at one moment, with what follows from it.
#[derive(Clone, Copy, Debug, PartialEq, Eq, Structural)]
pub struct MetricsSnapshot {
    pub uptime_seconds: u64,
    pub logs_processed: u64,
    pub errors: u64,
    pub active_connections: u64,
    pub throughput_per_second: u64,
}

impl MetricsSnapshot {
    /// The snapshot that the given uptime and counts give.
    pub open spec fn of(
        uptime_seconds: u64,
        processed: u64,
        errors: u64,
        connections: u64,
    ) -> MetricsSnapshot {
        MetricsSnapshot {
            uptime_seconds,
            logs_processed: processed,
            errors,
            active_connections: connections,
            throughput_per_second: throughput(processed, uptime_seconds),
        }
    }

    /// The snapshot that the given uptime and counts give.
    pub fn compute(uptime_seconds: u64, processed: u64, errors: u64, connections: u64) -> (snapshot:
        MetricsSnapshot)
        ensures
            snapshot == MetricsSnapshot::of(uptime_seconds, processed, errors, connections),
    {
        let throughput_per_second: u64 = if uptime_seconds > 0 {
            processed / uptime_seconds
        } else {
            0
        };
        MetricsSnapshot {
            uptime_seconds,
            logs_processed: processed,
            errors,
            active_connections: connections,
            throughput_per_second,
        }
    }

    /// The error rate as a fraction of whole numbers, numerator first; the
    /// denominator is never zero.
    pub fn error_fraction(&self) -> (fraction: (u64, u64))
        ensures
            fraction == error_fraction(self.errors, self.logs_processed),
            fraction.1 > 0,
    {
        if self.logs_processed > 0 {
            (self.errors, self.logs_processed)
        } else {
            (0, 1)
        }
    }
}

/// What a collector has counted.
pub struct MetricsCounts {
    pub processed: u64,
    pub errors: u64,
    pub connections: u64,
}

/// Counters for processed records, errors and connections, with the instant
/// at which counting began.
#[derive(Debug)]
pub struct MetricsCollector {
    processed_count: u64,
    error_count: u64,
    connections_count: u64,
    start_time: Instant,
}

impl View for MetricsCollector {
    type V = MetricsCounts;

    closed spec fn view(&self) -> MetricsCounts {
        MetricsCounts {
            processed: self.processed_count,
            errors: self.error_count,
            connections: self.connections_count,
        }
    }
}

impl MetricsCollector {
    /// The instant at which counting began. It is fixed at construction: no
    /// operation changes it.
    pub closed spec fn started(&self) -> Instant {
        self.start_time
    }

    /// A collector that has counted nothing and starts its uptime now.
    pub fn new() -> (collector: MetricsCollector)
        ensures
            collector@ == (MetricsCounts { processed: 0, errors: 0, connections: 0 }),
    {
        MetricsCollector {
            processed_count: 0,
            error_count: 0,
            connections_count: 0,
            start_time: Instant::now(),
        }
    }

    /// Counts one processed record.
    pub fn increment_processed(&mut self)
        ensures
            final(self)@ == (MetricsCounts {
                processed: next_count(old(self)@.processed),
                ..old(self)@
            }),
            final(self).started() == old(self).started(),
    {
        self.processed_count = self.processed_count.wrapping_add(1);
    }

    /// Counts one error.
    pub fn increment_errors(&mut self)
        ensures
            final(self)@ == (MetricsCounts { errors: next_count(old(self)@.errors), ..old(self)@ }),
            final(self).started() == old(self).started(),
    {
        self.error_count = self.error_count.wrapping_add(1);
    }

    /// Counts one connection.
    pub fn increment_connections(&mut self)
        ensures
            final(self)@ == (MetricsCounts {
                connections: next_count(old(self)@.connections),
                ..old(self)@
            }),
            final(self).started() == old(self).started(),
    {
        self.connections_count = self.connections_count.wrapping_add(1);
    }

    /// The snapshot of the counters after `uptime_seconds` of uptime.
    pub fn snapshot_at(&self, uptime_seconds: u64) -> (snapshot: MetricsSnapshot)
        ensures
            snapshot == MetricsSnapshot::of(
                uptime_seconds,
                self@.processed,
                self@.errors,
                self@.connections,
            ),
    {
        MetricsSnapshot::compute(
            uptime_seconds,
            self.processed_count,
            self.error_count,
            self.connections_count,
        )
    }

    /// The snapshot of the counters now. Its uptime is what the clock gives;
    /// the rest follows from that uptime and the counters.
    pub fn get_metrics(&self) -> (snapshot: MetricsSnapshot)
        ensures
            snapshot == MetricsSnapshot::of(
                snapshot.uptime_seconds,
                self@.processed,
                self@.errors,
                self@.connections,
            ),
    {
        let elapsed = self.start_time.elapsed();
        let uptime_seconds: u64 = elapsed.as_secs();
        self.snapshot_at(uptime_seconds)
    }
}

/// What a counter reads after `increments` increments from zero.
pub open spec fn count_after(increments: nat) -> u64
    decreases increments,
{
    if increments == 0 {
        0
    } else {
        next_count(count_after((increments - 1) as nat))
    }
}

/// A counter reads the number of its increments, as long as that number is
/// one of its values.
pub proof fn law_counter_counts(increments: nat)
    requires
        increments <= u64::MAX,
    ensures
        count_after(increments) == increments,
    decreases increments,
{
    if increments > 0 {
        law_counter_counts((increments - 1) as nat);
    }
}

/// The arithmetic of a snapshot. After `processed` processed records and
/// `errors` errors the snapshot shows these counts; at an uptime above zero
/// its throughput is the whole quotient of records by seconds, and at an
/// uptime of zero it is zero; its error fraction is errors over records, and
/// zero where no record was processed.
pub proof fn law_snapshot_arithmetic(
    processed: nat,
    errors: nat,
    connections: nat,
    uptime_seconds: u64,
)
    requires
        processed <= u64::MAX,
        errors <= u64::MAX,
        connections <= u64::MAX,
    ensures
        ({
            let snapshot = MetricsSnapshot::of(
                uptime_seconds,
                count_after(processed),
                count_after(errors),
                count_after(connections),
            );
            &&& snapshot.logs_processed == processed
            &&& snapshot.errors == errors
            &&& snapshot.active_connections == connections
            &&& uptime_seconds > 0 ==> snapshot.throughput_per_second == processed as int
                / uptime_seconds as int
            &&& uptime_seconds == 0 ==> snapshot.throughput_per_second == 0
            &&& processed > 0 ==> error_fraction(snapshot.errors, snapshot.logs_processed) == (
                errors as u64,
                processed as u64,
            )
            &&& processed == 0 ==> error_fraction(snapshot.errors, snapshot.logs_processed) == (
                0u64,
                1u64,
            )
        }),
{
    law_counter_counts(processed);
    law_counter_counts(errors);
    law_counter_counts(connections);
    if uptime_seconds > 0 {
        assert(0 <= processed as int / uptime_seconds as int <= processed) by (nonlinear_arith)
            requires
                uptime_seconds > 0,
                processed >= 0,
        ;
    }
}

} // verus!
