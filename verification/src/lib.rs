//! Prometheus metrics for a logging pipeline.
//!
//! The crate wraps an inner log sink and, for every record that passes
//! through, increments a counter bucketed by severity level; when the inner
//! sink reports a failure, a separate failure counter is incremented as well.
//! The record and the inner sink's result are forwarded unchanged.

mod counters;
mod drain;
mod error;
mod level;
mod metrics;
mod sink;

pub use crate::counters::EventMetrics;
pub use crate::counters::apply_log;
pub use crate::counters::apply_logs;
pub use crate::counters::bump;
pub use crate::counters::failure_count;
pub use crate::counters::lemma_all_failing;
pub use crate::counters::lemma_failures_count_failed_calls;
pub use crate::counters::lemma_none_failing;
pub use crate::counters::lemma_single_log;
pub use crate::counters::zero_tallies;
pub use crate::counters::lemma_wf_table_len;
pub use crate::counters::table_labeled;
pub use crate::drain::MonitoringDrain;
pub use crate::drain::MonitoringDrainBuilder;
pub use crate::drain::lemma_wf_drain_table_len;
pub use crate::error::MonitoringDrainError;
pub use crate::metrics::CounterFamily;
pub use crate::metrics::EventCounter;
pub use crate::metrics::counter_accepts;
pub use crate::metrics::counter_labels;
pub use crate::metrics::counter_metric_name;
pub use crate::metrics::family_accepts;
pub use crate::metrics::family_error;
pub use crate::metrics::family_label_names;
pub use crate::metrics::family_name;
pub use crate::metrics::opts_metric_name;
pub use crate::metrics::opts_of;
pub use crate::level::LEVEL_COUNT;
pub use crate::level::Level;
pub use crate::level::lemma_levels_fill_table;
pub use crate::level::some_level_at;
pub use crate::sink::Record;
pub use crate::sink::Sink;
