//! End-to-end tests of the monitoring adapter against a real prometheus
//! registry.

use std::sync::Arc;
use std::sync::atomic::{AtomicUsize, Ordering};

use prometheus::Registry;
use prometheus::proto::MetricFamily;
use slog_prometheus::{Level, MonitoringDrain, MonitoringDrainBuilder, MonitoringDrainError, Record, Sink};

/// A sink that counts how often it was called and always succeeds.
struct StoringSink {
    records: Arc<AtomicUsize>,
}

impl Sink for StoringSink {
    type Ok = ();
    type Err = ();

    fn log(&mut self, _record: &Record, _values: &Vec<(String, String)>) -> Result<(), ()> {
        self.records.fetch_add(1, Ordering::Relaxed);
        Ok(())
    }
}

/// A sink that always fails.
struct FailSink;

impl Sink for FailSink {
    type Ok = ();
    type Err = ();

    fn log(&mut self, _record: &Record, _values: &Vec<(String, String)>) -> Result<(), ()> {
        Err(())
    }
}

/// A sink that answers with a fixed result value.
struct FixedSink {
    result: Result<u32, String>,
}

impl Sink for FixedSink {
    type Ok = u32;
    type Err = String;

    fn log(&mut self, _record: &Record, _values: &Vec<(String, String)>) -> Result<u32, String> {
        self.result.clone()
    }
}

fn family<'a>(metrics: &'a [MetricFamily], name: &str) -> &'a MetricFamily {
    metrics
        .iter()
        .find(|m| m.get_name() == name)
        .expect("metric family missing from the registry")
}

fn series_value(fam: &MetricFamily, labels: &[(&str, &str)]) -> Option<f64> {
    for m in fam.get_metric() {
        let pairs: Vec<(&str, &str)> = m
            .get_label()
            .iter()
            .map(|l| (l.get_name(), l.get_value()))
            .collect();
        if labels.iter().all(|(k, v)| pairs.contains(&(*k, *v))) {
            return Some(m.get_counter().get_value());
        }
    }
    None
}

fn info_record() -> Record {
    Record::new(Level::Info, String::from("A info message"))
}

#[test]
fn log_success() {
    let counter = Arc::new(AtomicUsize::new(0));
    let sink = StoringSink { records: Arc::clone(&counter) };

    let registry = Registry::new();
    let mut drain = MonitoringDrainBuilder::new(sink)
        .registry(&registry)
        .build()
        .expect("No error during default drain creation");

    let _ = drain.log(&info_record(), &Vec::new());

    // Ensure the underlying sink is called
    assert_eq!(counter.load(Ordering::Relaxed), 1);

    // Gobble metrics from registry
    let metrics = registry.gather();

    // Check if the above log event was recorded to the registry
    for m in metrics {
        if let "log_events" = m.get_name() {
            assert_eq!(
                1 as f64,
                m.get_metric().get(3).unwrap().get_counter().get_value()
            );
        }
        if let "log_events_failed" = m.get_name() {
            assert_eq!(None, m.get_metric().get(3));
        }
    }
}

#[test]
fn log_failure() {
    let sink = FailSink {};

    let registry = prometheus::default_registry();
    let mut drain = MonitoringDrainBuilder::new(sink)
        .registry(&registry)
        .build()
        .expect("No error during default drain creation");

    let _ = drain.log(&info_record(), &Vec::new());

    // Gobble metrics from registry
    let metrics = registry.gather();

    // Check if the above log event was recorded to the registry
    for m in metrics {
        if let "log_events" = m.get_name() {
            assert_eq!(
                1 as f64,
                m.get_metric().get(3).unwrap().get_counter().get_value()
            );
        }
        if let "log_events_failed" = m.get_name() {
            assert_eq!(
                1 as f64,
                m.get_metric().get(0).unwrap().get_counter().get_value()
            );
        }
    }
}

#[test]
fn info_scenario_success() {
    let registry = Registry::new();
    let mut drain = MonitoringDrainBuilder::new(StoringSink {
        records: Arc::new(AtomicUsize::new(0)),
    })
    .registry(&registry)
    .build()
    .expect("building against a fresh registry succeeds");

    let res = drain.log(&info_record(), &Vec::new());
    assert_eq!(res, Ok(()));

    let metrics = registry.gather();
    let events = family(&metrics, "log_events");

    // One series per severity level, all pre-created at build time.
    assert_eq!(events.get_metric().len(), 6);
    assert_eq!(
        series_value(events, &[("level", "info"), ("level_no", "4")]),
        Some(1.0)
    );
    for (name, no) in [
        ("critical", "1"),
        ("error", "2"),
        ("warning", "3"),
        ("debug", "5"),
        ("trace", "6"),
    ] {
        assert_eq!(
            series_value(events, &[("level", name), ("level_no", no)]),
            Some(0.0)
        );
    }

    let failed = family(&metrics, "log_events_failed");
    assert_eq!(failed.get_metric()[0].get_counter().get_value(), 0.0);
}

#[test]
fn info_scenario_failure() {
    let registry = Registry::new();
    let mut drain = MonitoringDrainBuilder::new(FailSink)
        .registry(&registry)
        .build()
        .expect("building against a fresh registry succeeds");

    let res = drain.log(&info_record(), &Vec::new());
    assert_eq!(res, Err(()));

    let metrics = registry.gather();
    let events = family(&metrics, "log_events");
    assert_eq!(
        series_value(events, &[("level", "info"), ("level_no", "4")]),
        Some(1.0)
    );

    let failed = family(&metrics, "log_events_failed");
    assert_eq!(failed.get_metric()[0].get_counter().get_value(), 1.0);
}

#[test]
fn every_level_counted_once() {
    let registry = Registry::new();
    let mut drain = MonitoringDrainBuilder::new(StoringSink {
        records: Arc::new(AtomicUsize::new(0)),
    })
    .registry(&registry)
    .build()
    .expect("building against a fresh registry succeeds");

    for level in [
        Level::Critical,
        Level::Error,
        Level::Warning,
        Level::Info,
        Level::Debug,
        Level::Trace,
    ] {
        let _ = drain.log(&Record::new(level, String::from("x")), &Vec::new());
    }

    let metrics = registry.gather();
    let events = family(&metrics, "log_events");
    for (name, no) in [
        ("critical", "1"),
        ("error", "2"),
        ("warning", "3"),
        ("info", "4"),
        ("debug", "5"),
        ("trace", "6"),
    ] {
        assert_eq!(
            series_value(events, &[("level", name), ("level_no", no)]),
            Some(1.0)
        );
    }
}

#[test]
fn failure_counter_counts_each_failure() {
    let registry = Registry::new();
    let mut drain = MonitoringDrainBuilder::new(FailSink)
        .registry(&registry)
        .build()
        .expect("building against a fresh registry succeeds");

    for level in [Level::Critical, Level::Info, Level::Trace] {
        let _ = drain.log(&Record::new(level, String::from("x")), &Vec::new());
    }

    let metrics = registry.gather();
    let failed = family(&metrics, "log_events_failed");
    assert_eq!(failed.get_metric()[0].get_counter().get_value(), 3.0);
}

#[test]
fn failure_counter_stays_zero_on_success() {
    let registry = Registry::new();
    let mut drain = MonitoringDrainBuilder::new(StoringSink {
        records: Arc::new(AtomicUsize::new(0)),
    })
    .registry(&registry)
    .build()
    .expect("building against a fresh registry succeeds");

    for level in [Level::Critical, Level::Info, Level::Trace] {
        let _ = drain.log(&Record::new(level, String::from("x")), &Vec::new());
    }

    let metrics = registry.gather();
    let failed = family(&metrics, "log_events_failed");
    assert_eq!(failed.get_metric()[0].get_counter().get_value(), 0.0);
}

#[test]
fn duplicate_registration_fails_second_build() {
    let registry = Registry::new();
    let first: Result<MonitoringDrain<FailSink>, MonitoringDrainError> =
        MonitoringDrainBuilder::new(FailSink).registry(&registry).build();
    assert!(first.is_ok());

    let second = MonitoringDrainBuilder::new(FailSink).registry(&registry).build();
    assert!(matches!(second, Err(MonitoringDrainError::Prometheus(_))));
}

#[test]
fn independent_registries_do_not_conflict() {
    let registry_a = Registry::new();
    let registry_b = Registry::new();
    assert!(MonitoringDrainBuilder::new(FailSink).registry(&registry_a).build().is_ok());
    assert!(MonitoringDrainBuilder::new(FailSink).registry(&registry_b).build().is_ok());
}

#[test]
fn result_passthrough_success() {
    let registry = Registry::new();
    let mut drain = MonitoringDrainBuilder::new(FixedSink { result: Ok(7) })
        .registry(&registry)
        .build()
        .expect("building against a fresh registry succeeds");

    assert_eq!(drain.log(&info_record(), &Vec::new()), Ok(7));
}

#[test]
fn result_passthrough_failure() {
    let registry = Registry::new();
    let mut drain = MonitoringDrainBuilder::new(FixedSink {
        result: Err(String::from("refused")),
    })
    .registry(&registry)
    .build()
    .expect("building against a fresh registry succeeds");

    assert_eq!(
        drain.log(&info_record(), &Vec::new()),
        Err(String::from("refused"))
    );
}

#[test]
fn custom_label_names() {
    let registry = Registry::new();
    let mut drain = MonitoringDrainBuilder::new(FailSink)
        .registry(&registry)
        .level_field("severity")
        .level_no_field("severity_no")
        .build()
        .expect("building against a fresh registry succeeds");

    let _ = drain.log(&Record::new(Level::Warning, String::from("x")), &Vec::new());

    let metrics = registry.gather();
    let events = family(&metrics, "log_events");
    assert_eq!(
        series_value(events, &[("severity", "warning"), ("severity_no", "3")]),
        Some(1.0)
    );
}

#[test]
fn values_are_passed_beside_the_record() {
    struct KvSink {
        seen: Arc<AtomicUsize>,
    }

    impl Sink for KvSink {
        type Ok = ();
        type Err = ();

        fn log(&mut self, record: &Record, values: &Vec<(String, String)>) -> Result<(), ()> {
            assert_eq!(record.msg, "with fields");
            assert_eq!(values.len(), 1);
            assert_eq!(values[0], (String::from("key"), String::from("value")));
            self.seen.fetch_add(1, Ordering::Relaxed);
            Ok(())
        }
    }

    let seen = Arc::new(AtomicUsize::new(0));
    let registry = Registry::new();
    let mut drain = MonitoringDrainBuilder::new(KvSink { seen: Arc::clone(&seen) })
        .registry(&registry)
        .build()
        .expect("building against a fresh registry succeeds");

    let values = vec![(String::from("key"), String::from("value"))];
    let _ = drain.log(&Record::new(Level::Debug, String::from("with fields")), &values);
    assert_eq!(seen.load(Ordering::Relaxed), 1);
}

#[test]
fn invalid_label_name_fails_build() {
    let registry = Registry::new();
    let result = MonitoringDrainBuilder::new(FailSink)
        .registry(&registry)
        .level_field("not a valid label!")
        .build();
    assert!(matches!(result, Err(MonitoringDrainError::Prometheus(_))));
}
