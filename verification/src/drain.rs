//! The monitoring adapter and its builder.

use vstd::prelude::*;
use crate::counters::EventMetrics;
use crate::counters::lemma_wf_table_len;
use crate::counters::apply_log;
use crate::counters::bump;
use crate::counters::table_labeled;
use crate::counters::zero_tallies;
use crate::error::MonitoringDrainError;
use crate::level::LEVEL_COUNT;
use crate::metrics::CounterFamily;
use crate::metrics::EventCounter;
use crate::metrics::counter_accepts;
use crate::metrics::counter_labels;
use crate::metrics::counter_metric_name;
use crate::metrics::default_registry;
use crate::metrics::family_accepts;
use crate::metrics::family_error;
use crate::metrics::family_label_names;
use crate::metrics::family_name;
use crate::metrics::opts_of;
use crate::sink::Record;
use crate::sink::Sink;

verus! {

/// The monitoring adapter: wraps an inner sink and, for every record
/// logged through it, counts the record under its severity level,
/// delegates to the inner sink, counts a failed delivery, and returns the
/// inner sink's result unchanged.
pub struct MonitoringDrain<D: Sink> {
    core: D,
    metrics: EventMetrics,
}

impl<D: Sink> MonitoringDrain<D> {
    /// The wrapped inner sink.
    pub closed spec fn sink(self) -> D {
        self.core
    }

    /// How many records have been counted under each severity level, in
    /// rank order.
    pub closed spec fn tallies(self) -> Seq<nat> {
        self.metrics.tallies()
    }

    /// How many delegations to the inner sink have failed.
    pub closed spec fn failures(self) -> nat {
        self.metrics.failures()
    }

    /// The adapter's counter table has exactly one entry per severity
    /// level.
    pub closed spec fn wf(self) -> bool {
        self.metrics.wf()
    }

    /// The counter family the adapter's per-level counters are drawn from.
    pub closed spec fn family_handle(self) -> CounterFamily {
        self.metrics.family_handle()
    }

    /// The adapter's per-level counters, in rank order.
    pub closed spec fn counter_table(self) -> Seq<EventCounter> {
        self.metrics.counter_table()
    }

    /// The adapter's unlabeled counter of failed deliveries.
    pub closed spec fn failure_handle(self) -> EventCounter {
        self.metrics.failure_handle()
    }

    /// Log one record: count it under its level, delegate it with its
    /// key/value pairs to the inner sink, count the delivery's failure if
    /// it failed, and return the inner sink's result unchanged.
    pub fn log(&mut self, record: &Record, values: &Vec<(String, String)>) -> (r: Result<
        D::Ok,
        D::Err,
    >)
        requires
            old(self).wf(),
        ensures
            final(self).wf(),
            (final(self).tallies(), final(self).failures()) == apply_log(
                old(self).tallies(),
                old(self).failures(),
                record.level,
                r is Ok,
            ),
            final(self).tallies() == bump(old(self).tallies(), record.level),
            r is Ok ==> final(self).failures() == old(self).failures(),
            r is Err ==> final(self).failures() == old(self).failures() + 1,
            final(self).family_handle() == old(self).family_handle(),
            final(self).counter_table() == old(self).counter_table(),
            final(self).failure_handle() == old(self).failure_handle(),
    {
        self.metrics.observe_event(record.level());
        let res = self.core.log(record, values);
        self.metrics.observe_outcome(res)
    }
}

/// Configures and builds a [`MonitoringDrain`]: the inner sink is
/// required, the target registry and the two label names have defaults,
/// and one terminal `build` call consumes the builder.
pub struct MonitoringDrainBuilder<'a, 'b, D: Sink> {
    core: D,
    registry: &'b prometheus::Registry,
    level_field: &'a str,
    level_no_field: &'a str,
}

impl<'a, 'b, D: Sink> MonitoringDrainBuilder<'a, 'b, D> {
    /// The sink the built adapter will wrap.
    pub closed spec fn sink(self) -> D {
        self.core
    }

    /// The registry the counters will be registered with.
    pub closed spec fn target_registry(self) -> prometheus::Registry {
        *self.registry
    }

    /// The label name that will carry each level's display name.
    pub closed spec fn level_label(self) -> Seq<char> {
        self.level_field@
    }

    /// The label name that will carry each level's numeric rank.
    pub closed spec fn level_no_label(self) -> Seq<char> {
        self.level_no_field@
    }

    /// At least a sink is required; the registry defaults to the
    /// process-wide default registry, and the label names to "level" and
    /// "level_no".
    pub fn new(drain: D) -> (b: Self)
        ensures
            b.sink() == drain,
            b.level_label() == "level"@,
            b.level_no_label() == "level_no"@,
    {
        MonitoringDrainBuilder {
            core: drain,
            registry: default_registry(),
            level_field: "level",
            level_no_field: "level_no",
        }
    }

    /// Use a custom registry instead of the process-wide default one.
    pub fn registry(self, registry: &'b prometheus::Registry) -> (b: Self)
        ensures
            b.sink() == self.sink(),
            b.target_registry() == *registry,
            b.level_label() == self.level_label(),
            b.level_no_label() == self.level_no_label(),
    {
        MonitoringDrainBuilder {
            core: self.core,
            registry,
            level_field: self.level_field,
            level_no_field: self.level_no_field,
        }
    }

    /// Set the name of the label containing the log level.
    pub fn level_field(self, level_field: &'a str) -> (b: Self)
        ensures
            b.sink() == self.sink(),
            b.target_registry() == self.target_registry(),
            b.level_label() == level_field@,
            b.level_no_label() == self.level_no_label(),
    {
        MonitoringDrainBuilder {
            core: self.core,
            registry: self.registry,
            level_field,
            level_no_field: self.level_no_field,
        }
    }

    /// Set the name of the label containing the log level number.
    pub fn level_no_field(self, level_no_field: &'a str) -> (b: Self)
        ensures
            b.sink() == self.sink(),
            b.target_registry() == self.target_registry(),
            b.level_label() == self.level_label(),
            b.level_no_label() == level_no_field@,
    {
        MonitoringDrainBuilder {
            core: self.core,
            registry: self.registry,
            level_field: self.level_field,
            level_no_field,
        }
    }

    /// Build the monitoring drain: create the "log_events" family under
    /// the configured label names, register it, pre-create one counter per
    /// severity level labeled with the level's name and rank, create and
    /// register the "log_events_failed" counter, and hand the inner sink
    /// to the adapter. Invalid names end the build with the creation
    /// error, a refusal by the registry with the registration error; on
    /// success every counter tally starts at zero.
    pub fn build(self) -> (r: Result<MonitoringDrain<D>, MonitoringDrainError>)
        ensures
            r is Ok ==> ({
                let d = r->Ok_0;
                &&& d.wf()
                &&& d.sink() == self.sink()
                &&& d.tallies() == zero_tallies()
                &&& d.failures() == 0
                &&& family_name(d.family_handle()) == "log_events"@
                &&& family_label_names(d.family_handle()) == seq![
                    self.level_label(),
                    self.level_no_label(),
                ]
                &&& table_labeled(d.counter_table(), "log_events"@)
                &&& counter_metric_name(d.failure_handle()) == "log_events_failed"@
                &&& counter_labels(d.failure_handle()) == Seq::<Seq<char>>::empty()
            }),
            r is Ok ==> family_accepts(
                opts_of("log_events"@, "Log events emitted by this logger."@),
                self.level_label(),
                self.level_no_label(),
            ),
            r is Ok ==> counter_accepts(
                opts_of("log_events_failed"@, "Log events which failed to be logged."@),
            ),
            !family_accepts(
                opts_of("log_events"@, "Log events emitted by this logger."@),
                self.level_label(),
                self.level_no_label(),
            ) ==> (r is Err && r->Err_0 == MonitoringDrainError::Prometheus(
                family_error(
                    opts_of("log_events"@, "Log events emitted by this logger."@),
                    self.level_label(),
                    self.level_no_label(),
                ),
            )),
            !counter_accepts(
                opts_of("log_events_failed"@, "Log events which failed to be logged."@),
            ) ==> r is Err,
            r is Err ==> r->Err_0 is Prometheus,
    {
        match EventMetrics::register(self.registry, self.level_field, self.level_no_field) {
            Ok(metrics) => Ok(MonitoringDrain { core: self.core, metrics }),
            Err(e) => Err(e),
        }
    }
}

/// Law: a well-formed adapter has exactly one counter, and exactly one
/// tally, per severity level.
pub proof fn lemma_wf_drain_table_len<D: Sink>(d: &MonitoringDrain<D>)
    requires
        d.wf(),
    ensures
        d.counter_table().len() == LEVEL_COUNT,
        d.tallies().len() == LEVEL_COUNT,
{
    lemma_wf_table_len(&d.metrics);
}

} // verus!
