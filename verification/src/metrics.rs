//! The trusted boundary around the prometheus crate.
//!
//! Every function here is `external_body`: its contract is believed, not
//! proved, and states no more than the prometheus source plainly shows.
//! Creation of options, families and counters is a pure function of its
//! arguments, so those outcomes are pinned by uninterpreted names;
//! registration, by contrast, can always be refused by the registry (a
//! colliding metric may already be there), so nothing here promises that
//! registering succeeds.

use vstd::prelude::*;

verus! {

#[verifier::external_type_specification]
#[verifier::external_body]
pub struct ExRegistry(prometheus::Registry);

#[verifier::external_type_specification]
#[verifier::external_body]
pub struct ExOpts(prometheus::Opts);

#[verifier::external_type_specification]
#[verifier::external_body]
pub struct ExError(prometheus::Error);

/// A named family of counters partitioned by label values; the concrete
/// per-level counters are drawn from it. The family is held whole behind
/// this struct because its builder type parameter cannot be named outside
/// the prometheus crate.
#[verifier::external_body]
pub struct CounterFamily {
    vec: prometheus::CounterVec,
}

/// One monotone counter, shared with the registry that exports it. Held
/// behind this struct because the trait bound of its atomic type parameter
/// cannot be declared here.
#[verifier::external_body]
pub struct EventCounter {
    counter: prometheus::Counter,
}

/// The option set `prometheus::Opts::new` builds from a metric name and a
/// help text; the construction is pure, so the value is a function of the
/// two strings alone.
pub uninterp spec fn opts_of(name: Seq<char>, help: Seq<char>) -> prometheus::Opts;

/// The fully-qualified metric name an option set produces.
pub uninterp spec fn opts_metric_name(opts: prometheus::Opts) -> Seq<char>;

/// Whether prometheus accepts a counter family built from this option set
/// and these two variable label names; validation is deterministic, so
/// acceptance is a function of the arguments alone.
pub uninterp spec fn family_accepts(
    opts: prometheus::Opts,
    label_a: Seq<char>,
    label_b: Seq<char>,
) -> bool;

/// Whether prometheus accepts a single unlabeled counter built from this
/// option set; validation is deterministic, so acceptance is a function of
/// the option set alone.
pub uninterp spec fn counter_accepts(opts: prometheus::Opts) -> bool;

/// The error prometheus reports when it refuses a counter family built
/// from this option set and these two variable label names; validation is
/// deterministic, so the error value is a function of the arguments alone.
pub uninterp spec fn family_error(
    opts: prometheus::Opts,
    label_a: Seq<char>,
    label_b: Seq<char>,
) -> prometheus::Error;

/// The fully-qualified metric name a counter family was created under.
pub uninterp spec fn family_name(family: CounterFamily) -> Seq<char>;

/// The variable label names a counter family was created with, in order.
pub uninterp spec fn family_label_names(family: CounterFamily) -> Seq<Seq<char>>;

/// The fully-qualified metric name a counter belongs to.
pub uninterp spec fn counter_metric_name(counter: EventCounter) -> Seq<char>;

/// The variable label values a counter was drawn with, in order.
pub uninterp spec fn counter_labels(counter: EventCounter) -> Seq<Seq<char>>;

/// Relies on prometheus::Opts::new: packs a metric name and help text into
/// an option set with no namespace, subsystem or extra labels, so the
/// fully-qualified metric name is the given name itself.
#[verifier::external_body]
pub(crate) fn opts_new(name: &str, help: &str) -> (r: prometheus::Opts)
    ensures
        r == opts_of(name@, help@),
        opts_metric_name(r) == name@,
{
    prometheus::Opts::new(name, help)
}

/// Relies on prometheus::CounterVec::new: builds a counter family under
/// the options' metric name, carrying exactly the two given variable label
/// names; an error comes back, deterministically in the arguments, exactly
/// when the metric name, the help text or a label name is not valid for
/// prometheus.
#[verifier::external_body]
pub(crate) fn counter_family_new(
    opts: prometheus::Opts,
    label_a: &str,
    label_b: &str,
) -> (r: Result<CounterFamily, prometheus::Error>)
    ensures
        r is Ok <==> family_accepts(opts, label_a@, label_b@),
        r is Ok ==> family_name(r->Ok_0) == opts_metric_name(opts),
        r is Ok ==> family_label_names(r->Ok_0) == seq![label_a@, label_b@],
        r is Err ==> r->Err_0 == family_error(opts, label_a@, label_b@),
{
    match prometheus::CounterVec::new(opts, &[label_a, label_b]) {
        Ok(vec) => Ok(CounterFamily { vec }),
        Err(e) => Err(e),
    }
}

/// Relies on prometheus::Registry::register: offers the family's collector
/// to the registry, which refuses it when a colliding metric is already
/// registered there; the outcome depends on the registry's hidden state,
/// so nothing more can be promised.
#[verifier::external_body]
pub(crate) fn register_family(
    registry: &prometheus::Registry,
    family: &CounterFamily,
) -> Result<(), prometheus::Error> {
    registry.register(Box::new(family.vec.clone()))
}

/// Relies on prometheus::core::MetricVec::with_label_values: hands out the
/// family's counter for exactly these two label values, creating it at
/// zero on first use. Against a two-label family a two-value lookup cannot
/// hit the cardinality error, so the call does not panic.
#[verifier::external_body]
pub(crate) fn family_counter(
    family: &CounterFamily,
    value_a: &str,
    value_b: &str,
) -> (r: EventCounter)
    requires
        family_label_names(*family).len() == 2,
    ensures
        counter_metric_name(r) == family_name(*family),
        counter_labels(r) == seq![value_a@, value_b@],
{
    EventCounter { counter: family.vec.with_label_values(&[value_a, value_b]) }
}

/// Relies on prometheus::Counter::with_opts: builds a single unlabeled
/// counter under the options' metric name, starting at zero; an error
/// comes back, deterministically in the options, exactly when the metric
/// name or the help text is not valid for prometheus.
#[verifier::external_body]
pub(crate) fn counter_with_opts(
    opts: prometheus::Opts,
) -> (r: Result<EventCounter, prometheus::Error>)
    ensures
        r is Ok <==> counter_accepts(opts),
        r is Ok ==> counter_metric_name(r->Ok_0) == opts_metric_name(opts),
        r is Ok ==> counter_labels(r->Ok_0) == Seq::<Seq<char>>::empty(),
{
    match prometheus::Counter::with_opts(opts) {
        Ok(counter) => Ok(EventCounter { counter }),
        Err(e) => Err(e),
    }
}

/// Relies on prometheus::Registry::register, as `register_family` does,
/// for the single unlabeled failure counter.
#[verifier::external_body]
pub(crate) fn register_counter(
    registry: &prometheus::Registry,
    counter: &EventCounter,
) -> Result<(), prometheus::Error> {
    registry.register(Box::new(counter.counter.clone()))
}

/// Relies on prometheus::core::GenericCounter::inc: atomically adds one to
/// the counter, which is shared with the registry that exports it.
#[verifier::external_body]
pub(crate) fn counter_inc(counter: &EventCounter) {
    counter.counter.inc();
}

/// Relies on prometheus::default_registry: hands back the process-wide
/// default registry.
#[verifier::external_body]
pub(crate) fn default_registry() -> &'static prometheus::Registry {
    prometheus::default_registry()
}

} // verus!
