//! Ingestion: what becomes of each line that a producer sends.

use crate::filter::{FilterConfig, LogFilter};
use crate::hub::{BroadcastHub, HubState};
use crate::metrics::{next_count, MetricsCollector, MetricsCounts};
use crate::record::{lemma_level_names_differ, lemma_record_fields, line_fields, LogLevel, LogRecord};
use chrono::Utc;
use vstd::prelude::*;

verus! {

/// The offset with which an instant in UTC is written.
pub open spec fn utc_offset() -> Seq<char> {
    seq!['+', '0', '0', ':', '0', '0']
}

/// `text` has the form in which the current time is written: a date with at
/// least four digits for the year, a time of day, and the offset of UTC at
/// the end, which makes at least 25 characters.
pub open spec fn is_utc_timestamp(text: Seq<char>) -> bool {
    &&& text.len() >= 25
    &&& text.subrange(text.len() - 6, text.len() as int) == utc_offset()
}

/// Reads the clock with `SystemTime::now` and writes the instant through
/// chrono: `DateTime::<Utc>::from`, which takes any time of the clock, then
/// `DateTime::to_rfc3339`. Trusted: the text is a date, a time of day and
/// the offset `+00:00`. Which instant it is depends on the moment of the
/// call, and nothing is claimed of that.
#[verifier::external_body]
fn current_timestamp() -> (timestamp: String)
    ensures
        is_utc_timestamp(timestamp@),
{
    chrono::DateTime::<Utc>::from(std::time::SystemTime::now()).to_rfc3339()
}

/// What one read on a producer's connection gave.
#[derive(Clone, Copy, Debug, PartialEq, Eq, Structural)]
pub enum ReadOutcome {
    /// So many bytes were read into the line buffer; none at the end of the
    /// stream.
    Read(usize),
    /// The read failed.
    Failed,
}

/// What the connection does after a read.
#[derive(Clone, Copy, Debug, PartialEq, Eq, Structural)]
pub enum ConnectionStep {
    /// The line was handled; read the next one.
    Continue,
    /// The stream has ended; close the connection.
    Close,
    /// The read failed; report it and close the connection.
    Fail,
}

/// The services after a record was offered to them, and whether it passed.
pub struct Ingested {
    pub published: bool,
    pub counts: MetricsCounts,
    pub hub: HubState,
}

/// What delivering `record` does to the services: it is counted as processed
/// and published.
pub open spec fn delivered(counts: MetricsCounts, hub: HubState, record: Map<Seq<char>, Seq<char>>) -> (
    MetricsCounts,
    HubState,
) {
    (MetricsCounts { processed: next_count(counts.processed), ..counts }, hub.after_publish(record))
}

/// What offering `record` does: a record that passes the filter is
/// delivered; any other leaves the services as they were.
pub open spec fn ingested(
    config: FilterConfig,
    counts: MetricsCounts,
    hub: HubState,
    record: Map<Seq<char>, Seq<char>>,
) -> Ingested {
    if config.accepts(record) {
        Ingested {
            published: true,
            counts: delivered(counts, hub, record).0,
            hub: delivered(counts, hub, record).1,
        }
    } else {
        Ingested { published: false, counts, hub }
    }
}

/// What a read asks for, where a line that was read got the timestamp
/// `timestamp`: the next step of the connection, and the record to deliver,
/// if the read gave a line and its record passes the filter.
pub open spec fn examined(
    config: FilterConfig,
    outcome: ReadOutcome,
    line: Seq<char>,
    timestamp: Seq<char>,
) -> (ConnectionStep, Option<Map<Seq<char>, Seq<char>>>) {
    match outcome {
        ReadOutcome::Failed => (ConnectionStep::Fail, None),
        ReadOutcome::Read(bytes) => if bytes == 0 {
            (ConnectionStep::Close, None)
        } else if config.accepts(line_fields(timestamp, line)) {
            (ConnectionStep::Continue, Some(line_fields(timestamp, line)))
        } else {
            (ConnectionStep::Continue, None)
        },
    }
}

/// What a read does to the connection and to the services, where a line that
/// was read got the timestamp `timestamp`.
pub open spec fn after_read(
    config: FilterConfig,
    counts: MetricsCounts,
    hub: HubState,
    outcome: ReadOutcome,
    line: Seq<char>,
    timestamp: Seq<char>,
) -> (ConnectionStep, MetricsCounts, HubState) {
    match examined(config, outcome, line, timestamp).1 {
        Some(record) => (
            examined(config, outcome, line, timestamp).0,
            delivered(counts, hub, record).0,
            delivered(counts, hub, record).1,
        ),
        None => (examined(config, outcome, line, timestamp).0, counts, hub),
    }
}

/// The fields of a record, where there is one.
pub open spec fn fields_of(record: Option<LogRecord>) -> Option<Map<Seq<char>, Seq<char>>> {
    match record {
        Some(record) => Some(record@),
        None => None,
    }
}

/// Some text has the form of a timestamp.
proof fn lemma_timestamp_form_exists() -> (sample: Seq<char>)
    ensures
        is_utc_timestamp(sample),
{
    let sample = Seq::new(19, |i: int| '0') + utc_offset();
    assert(sample.subrange(sample.len() - 6, sample.len() as int) =~= utc_offset());
    sample
}

/// The ingestion side of the pipeline: it turns lines into records and hands
/// those that pass its filter to the metrics and to the hub.
#[derive(Debug)]
pub struct LogStreamer {
    filter: LogFilter,
}

impl View for LogStreamer {
    type V = FilterConfig;

    closed spec fn view(&self) -> FilterConfig {
        self.filter@
    }
}

impl LogStreamer {
    /// A streamer that lets every record pass.
    pub fn new() -> (streamer: LogStreamer)
        ensures
            streamer@ == FilterConfig::pass_all(),
    {
        LogStreamer { filter: LogFilter::new() }
    }

    /// A streamer that lets pass what `filter` lets pass.
    pub fn with_filter(filter: LogFilter) -> (streamer: LogStreamer)
        ensures
            streamer@ == filter@,
    {
        LogStreamer { filter }
    }

    /// The filter of this streamer.
    pub fn filter(&self) -> (filter: &LogFilter)
        ensures
            filter@ == self@,
    {
        &self.filter
    }

    /// The level of `line`: ERROR, WARN or INFO where the line holds that
    /// word in any case, the first of them in this order, else DEBUG.
    pub fn extract_log_level(&self, line: &str) -> (level: LogLevel)
        ensures
            level == LogLevel::of_line(line@),
    {
        LogLevel::infer(line)
    }

    /// The record of `line`, stamped with the current time.
    pub fn parse_log_line(&self, line: &str) -> (record: LogRecord)
        ensures
            exists|timestamp: Seq<char>|
                is_utc_timestamp(timestamp) && record@ == #[trigger] line_fields(timestamp, line@),
    {
        let timestamp = current_timestamp();
        let record = LogRecord::from_line(timestamp, line);
        assert(is_utc_timestamp(timestamp@) && record@ == line_fields(timestamp@, line@));
        record
    }

    /// Looks at what a read gave, for a line that is stamped with
    /// `timestamp`, and touches no service: the end of the stream and a
    /// failed read end the connection; a line becomes a record, which is
    /// handed back for delivery if it passes the filter.
    pub fn examine_at(&self, outcome: ReadOutcome, line: &str, timestamp: String) -> (asked: (
        ConnectionStep,
        Option<LogRecord>,
    ))
        ensures
            (asked.0, fields_of(asked.1)) == examined(self@, outcome, line@, timestamp@),
    {
        match outcome {
            ReadOutcome::Failed => (ConnectionStep::Fail, None),
            ReadOutcome::Read(bytes) => {
                if bytes == 0 {
                    (ConnectionStep::Close, None)
                } else {
                    let record = LogRecord::from_line(timestamp, line);
                    if self.filter.should_process(&record) {
                        (ConnectionStep::Continue, Some(record))
                    } else {
                        (ConnectionStep::Continue, None)
                    }
                }
            },
        }
    }

    /// Looks at what a read gave and touches no service. The clock is read
    /// for a line only, to stamp its record.
    pub fn examine(&self, outcome: ReadOutcome, line: &str) -> (asked: (
        ConnectionStep,
        Option<LogRecord>,
    ))
        ensures
            exists|timestamp: Seq<char>|
                is_utc_timestamp(timestamp) && (asked.0, fields_of(asked.1)) == #[trigger] examined(
                    self@,
                    outcome,
                    line@,
                    timestamp,
                ),
    {
        match outcome {
            ReadOutcome::Read(bytes) if bytes > 0 => {
                let timestamp = current_timestamp();
                let ghost stamp = timestamp@;
                let asked = self.examine_at(outcome, line, timestamp);
                assert(is_utc_timestamp(stamp) && (asked.0, fields_of(asked.1)) == examined(
                    self@,
                    outcome,
                    line@,
                    stamp,
                ));
                asked
            },
            _ => {
                let asked = self.examine_at(outcome, line, String::new());
                proof {
                    let sample = lemma_timestamp_form_exists();
                    assert(is_utc_timestamp(sample) && (asked.0, fields_of(asked.1)) == examined(
                        self@,
                        outcome,
                        line@,
                        sample,
                    ));
                }
                asked
            },
        }
    }

    /// Delivers a record that has passed the filter: it is counted as
    /// processed and published, whether or not anyone subscribes.
    pub fn deliver(record: LogRecord, metrics: &mut MetricsCollector, hub: &mut BroadcastHub)
        ensures
            (final(metrics)@, final(hub)@) == delivered(old(metrics)@, old(hub)@, record@),
            final(metrics).started() == old(metrics).started(),
    {
        metrics.increment_processed();
        hub.publish(record);
    }

    /// Offers `record` to the services: where it passes the filter it is
    /// delivered, and else nothing changes.
    pub fn ingest(
        &self,
        record: LogRecord,
        metrics: &mut MetricsCollector,
        hub: &mut BroadcastHub,
    ) -> (published: bool)
        ensures
            (Ingested { published, counts: final(metrics)@, hub: final(hub)@ }) == ingested(
                self@,
                old(metrics)@,
                old(hub)@,
                record@,
            ),
            final(metrics).started() == old(metrics).started(),
    {
        if self.filter.should_process(&record) {
            LogStreamer::deliver(record, metrics, hub);
            true
        } else {
            false
        }
    }

    /// Handles what a read gave, for a line that is stamped with `timestamp`:
    /// the end of the stream and a failed read end the connection and change
    /// nothing; a line becomes a record and is offered to the services.
    pub fn handle_read_at(
        &self,
        outcome: ReadOutcome,
        line: &str,
        timestamp: String,
        metrics: &mut MetricsCollector,
        hub: &mut BroadcastHub,
    ) -> (step: ConnectionStep)
        ensures
            (step, final(metrics)@, final(hub)@) == after_read(
                self@,
                old(metrics)@,
                old(hub)@,
                outcome,
                line@,
                timestamp@,
            ),
            final(metrics).started() == old(metrics).started(),
    {
        let (step, record) = self.examine_at(outcome, line, timestamp);
        match record {
            Some(record) => LogStreamer::deliver(record, metrics, hub),
            None => {},
        }
        step
    }

    /// Handles what a read gave. The clock is read for a line only, to stamp
    /// its record.
    pub fn handle_read(
        &self,
        outcome: ReadOutcome,
        line: &str,
        metrics: &mut MetricsCollector,
        hub: &mut BroadcastHub,
    ) -> (step: ConnectionStep)
        ensures
            exists|timestamp: Seq<char>|
                is_utc_timestamp(timestamp) && (step, final(metrics)@, final(hub)@)
                    == #[trigger] after_read(
                    self@,
                    old(metrics)@,
                    old(hub)@,
                    outcome,
                    line@,
                    timestamp,
                ),
            final(metrics).started() == old(metrics).started(),
    {
        let (step, record) = self.examine(outcome, line);
        let ghost stamp = choose|timestamp: Seq<char>|
            is_utc_timestamp(timestamp) && (step, fields_of(record)) == #[trigger] examined(
                self@,
                outcome,
                line@,
                timestamp,
            );
        match record {
            Some(record) => LogStreamer::deliver(record, metrics, hub),
            None => {},
        }
        assert(is_utc_timestamp(stamp) && (step, metrics@, hub@) == after_read(
            self@,
            old(metrics)@,
            old(hub)@,
            outcome,
            line@,
            stamp,
        ));
        step
    }
}

/// Where a level is required and nothing else, a line that was read is
/// counted and published exactly if its level is the required one; any other
/// line leaves the services as they were, and the connection goes on.
pub proof fn law_required_level_selects_lines(
    required: LogLevel,
    counts: MetricsCounts,
    hub: HubState,
    bytes: usize,
    line: Seq<char>,
    timestamp: Seq<char>,
)
    requires
        bytes > 0,
    ensures
        ({
            let config = FilterConfig { level: Some(required.name()), ..FilterConfig::pass_all() };
            let record = line_fields(timestamp, line);
            &&& config.accepts(record) == (LogLevel::of_line(line) == required)
            &&& after_read(config, counts, hub, ReadOutcome::Read(bytes), line, timestamp) == if LogLevel::of_line(
                line,
            ) == required {
                (
                    ConnectionStep::Continue,
                    MetricsCounts { processed: next_count(counts.processed), ..counts },
                    hub.after_publish(record),
                )
            } else {
                (ConnectionStep::Continue, counts, hub)
            }
        }),
{
    let config = FilterConfig { level: Some(required.name()), ..FilterConfig::pass_all() };
    let level = LogLevel::of_line(line);
    lemma_record_fields(timestamp, crate::text::trimmed(line), level);
    lemma_level_names_differ(level, required);
}

} // verus!
