//! The counter table: one counter per severity level, a failure counter,
//! and the mathematical model of both.
//!
//! The ghost tallies carried here state how many increments this component
//! has issued to each underlying counter; the counters themselves live in
//! the registry and are shared with every reader of it.

use vstd::prelude::*;
use crate::error::MonitoringDrainError;
use crate::level::Level;
use crate::level::LEVEL_COUNT;
use crate::metrics::CounterFamily;
use crate::metrics::EventCounter;
use crate::metrics::counter_accepts;
use crate::metrics::counter_family_new;
use crate::metrics::counter_inc;
use crate::metrics::counter_labels;
use crate::metrics::counter_metric_name;
use crate::metrics::counter_with_opts;
use crate::metrics::family_accepts;
use crate::metrics::family_counter;
use crate::metrics::family_error;
use crate::metrics::family_label_names;
use crate::metrics::family_name;
use crate::metrics::opts_metric_name;
use crate::metrics::opts_new;
use crate::metrics::opts_of;
use crate::metrics::register_counter;
use crate::metrics::register_family;

verus! {

/// The tally table at build time: zero for every severity level.
pub open spec fn zero_tallies() -> Seq<nat> {
    Seq::new(LEVEL_COUNT as nat, |i: int| 0nat)
}

/// One observed event at `level`: that level's tally rises by one and no
/// other entry moves.
pub open spec fn bump(tallies: Seq<nat>, level: Level) -> Seq<nat> {
    tallies.update(level.index(), (tallies[level.index()] + 1) as nat)
}

/// The whole effect of one logged record at `level`, delivered
/// successfully iff `ok`, on the pair of level tallies and failure tally.
pub open spec fn apply_log(tallies: Seq<nat>, failed: nat, level: Level, ok: bool) -> (
    Seq<nat>,
    nat,
) {
    (bump(tallies, level), if ok {
        failed
    } else {
        (failed + 1) as nat
    })
}

/// The effect of a sequence of logged records, oldest first; each entry
/// gives the record's level and whether its delivery succeeded.
pub open spec fn apply_logs(
    tallies: Seq<nat>,
    failed: nat,
    calls: Seq<(Level, bool)>,
) -> (Seq<nat>, nat)
    decreases calls.len(),
{
    if calls.len() == 0 {
        (tallies, failed)
    } else {
        let next = apply_log(tallies, failed, calls[0].0, calls[0].1);
        apply_logs(next.0, next.1, calls.drop_first())
    }
}

/// How many of the calls had a failed delivery.
pub open spec fn failure_count(calls: Seq<(Level, bool)>) -> nat
    decreases calls.len(),
{
    if calls.len() == 0 {
        0
    } else {
        (if calls[0].1 {
            0nat
        } else {
            1nat
        }) + failure_count(calls.drop_first())
    }
}

/// The per-level counters and the failure counter of one adapter, each
/// pre-created and registered at build time so the hot path only ever
/// increments.
pub struct EventMetrics {
    family: CounterFamily,
    level_counters: Vec<EventCounter>,
    failure_counter: EventCounter,
    level_tallies: Ghost<Seq<nat>>,
    failure_tally: Ghost<nat>,
}

/// Holds when `counters` is a table with one counter per severity level,
/// each carrying the metric name `name` and labeled with its level's
/// display name and rank string: the counter at position `i` belongs to
/// the level of rank `i + 1`.
pub open spec fn table_labeled(counters: Seq<EventCounter>, name: Seq<char>) -> bool {
    &&& counters.len() == LEVEL_COUNT
    &&& forall|i: int|
        0 <= i < LEVEL_COUNT ==> counter_metric_name(#[trigger] counters[i]) == name
    &&& forall|i: int|
        0 <= i < LEVEL_COUNT ==> counter_labels(#[trigger] counters[i]) == seq![
            Level::level_at(i).name(),
            Level::level_at(i).rank_name(),
        ]
}

impl EventMetrics {
    /// The counter family the per-level counters are drawn from, and which
    /// was handed to the registry.
    pub closed spec fn family_handle(self) -> CounterFamily {
        self.family
    }

    /// The per-level counters, in rank order: the counter at position 0
    /// belongs to the most severe level.
    pub closed spec fn counter_table(self) -> Seq<EventCounter> {
        self.level_counters@
    }

    /// The unlabeled counter of failed deliveries, which was handed to the
    /// registry.
    pub closed spec fn failure_handle(self) -> EventCounter {
        self.failure_counter
    }
    /// How many increments have been issued to each level's counter, in
    /// rank order: entry 0 belongs to the most severe level.
    pub closed spec fn tallies(self) -> Seq<nat> {
        self.level_tallies@
    }

    /// How many increments have been issued to the failure counter.
    pub closed spec fn failures(self) -> nat {
        self.failure_tally@
    }

    /// The counter table holds exactly one counter, and the model exactly
    /// one tally, per severity level.
    pub closed spec fn wf(self) -> bool {
        &&& self.level_counters@.len() == LEVEL_COUNT
        &&& self.level_tallies@.len() == LEVEL_COUNT
    }

    /// Create and register the labeled event-counter family
    /// ("log_events") and the unlabeled failure counter
    /// ("log_events_failed") with `registry`, and pre-create one counter
    /// per severity level, labeled with the level's name and rank under
    /// the two given label names. Invalid names end the build with the
    /// creation error, a refusal by the registry with the registration
    /// error; on success every tally starts at zero.
    pub fn register(
        registry: &prometheus::Registry,
        level_label: &str,
        level_no_label: &str,
    ) -> (r: Result<EventMetrics, MonitoringDrainError>)
        ensures
            r is Ok ==> ({
                let m = r->Ok_0;
                &&& m.wf()
                &&& m.tallies() == zero_tallies()
                &&& m.failures() == 0
                &&& family_name(m.family_handle()) == "log_events"@
                &&& family_label_names(m.family_handle()) == seq![
                    level_label@,
                    level_no_label@,
                ]
                &&& table_labeled(m.counter_table(), "log_events"@)
                &&& counter_metric_name(m.failure_handle()) == "log_events_failed"@
                &&& counter_labels(m.failure_handle()) == Seq::<Seq<char>>::empty()
            }),
            r is Ok ==> family_accepts(
                opts_of("log_events"@, "Log events emitted by this logger."@),
                level_label@,
                level_no_label@,
            ),
            r is Ok ==> counter_accepts(
                opts_of("log_events_failed"@, "Log events which failed to be logged."@),
            ),
            !family_accepts(
                opts_of("log_events"@, "Log events emitted by this logger."@),
                level_label@,
                level_no_label@,
            ) ==> (r is Err && r->Err_0 == MonitoringDrainError::Prometheus(
                family_error(
                    opts_of("log_events"@, "Log events emitted by this logger."@),
                    level_label@,
                    level_no_label@,
                ),
            )),
            !counter_accepts(
                opts_of("log_events_failed"@, "Log events which failed to be logged."@),
            ) ==> r is Err,
            r is Err ==> r->Err_0 is Prometheus,
    {
        let opts = opts_new("log_events", "Log events emitted by this logger.");
        let family: CounterFamily = match counter_family_new(opts, level_label, level_no_label) {
            Ok(f) => f,
            Err(e) => {
                return Err(MonitoringDrainError::Prometheus(e));
            },
        };
        match register_family(registry, &family) {
            Ok(()) => {},
            Err(e) => {
                return Err(MonitoringDrainError::Prometheus(e));
            },
        }
        let mut level_counters: Vec<EventCounter> = Vec::new();
        let mut i: usize = 0;
        while i < LEVEL_COUNT
            invariant
                i <= LEVEL_COUNT,
                level_counters@.len() == i,
                family_name(family) == "log_events"@,
                family_label_names(family).len() == 2,
                forall|j: int|
                    0 <= j < i ==> counter_metric_name(#[trigger] level_counters@[j])
                        == "log_events"@,
                forall|j: int|
                    0 <= j < i ==> counter_labels(#[trigger] level_counters@[j]) == seq![
                        Level::level_at(j).name(),
                        Level::level_at(j).rank_name(),
                    ],
            decreases LEVEL_COUNT - i,
        {
            let level = Level::from_index(i);
            let counter = family_counter(&family, level.as_str(), level.rank_str());
            level_counters.push(counter);
            i = i + 1;
        }
        let opts = opts_new("log_events_failed", "Log events which failed to be logged.");
        let failure_counter = match counter_with_opts(opts) {
            Ok(c) => c,
            Err(e) => {
                return Err(MonitoringDrainError::Prometheus(e));
            },
        };
        match register_counter(registry, &failure_counter) {
            Ok(()) => {},
            Err(e) => {
                return Err(MonitoringDrainError::Prometheus(e));
            },
        }
        Ok(
            EventMetrics {
                family,
                level_counters,
                failure_counter,
                level_tallies: Ghost(zero_tallies()),
                failure_tally: Ghost(0nat),
            },
        )
    }

    /// Count one record observed at `level`: an O(1), allocation-free
    /// increment of that level's pre-created counter.
    pub fn observe_event(&mut self, level: Level)
        requires
            old(self).wf(),
        ensures
            final(self).wf(),
            final(self).tallies() == bump(old(self).tallies(), level),
            final(self).failures() == old(self).failures(),
            final(self).family_handle() == old(self).family_handle(),
            final(self).counter_table() == old(self).counter_table(),
            final(self).failure_handle() == old(self).failure_handle(),
    {
        let i = level.as_index();
        counter_inc(&self.level_counters[i]);
        self.level_tallies = Ghost(bump(self.level_tallies@, level));
    }

    /// Observe the inner sink's outcome for one record and hand it back
    /// unchanged; a failed delivery is counted on the failure counter,
    /// whatever the record's level was.
    pub fn observe_outcome<T, E>(&mut self, outcome: Result<T, E>) -> (r: Result<T, E>)
        requires
            old(self).wf(),
        ensures
            final(self).wf(),
            r == outcome,
            final(self).tallies() == old(self).tallies(),
            outcome is Err ==> final(self).failures() == old(self).failures() + 1,
            outcome is Ok ==> final(self).failures() == old(self).failures(),
            final(self).family_handle() == old(self).family_handle(),
            final(self).counter_table() == old(self).counter_table(),
            final(self).failure_handle() == old(self).failure_handle(),
    {
        if outcome.is_err() {
            counter_inc(&self.failure_counter);
            self.failure_tally = Ghost((self.failure_tally@ + 1) as nat);
        }
        outcome
    }
}

/// Law: a well-formed counter table has exactly one counter, and the
/// model exactly one tally, per severity level.
pub proof fn lemma_wf_table_len(m: &EventMetrics)
    requires
        m.wf(),
    ensures
        m.counter_table().len() == LEVEL_COUNT,
        m.tallies().len() == LEVEL_COUNT,
{
}

/// Law: one logged record at `level` raises that level's tally by exactly
/// one and leaves every other level's tally unchanged; the failure tally
/// moves, by one, exactly when the delivery failed.
pub proof fn lemma_single_log(tallies: Seq<nat>, failed: nat, level: Level, ok: bool)
    requires
        tallies.len() == LEVEL_COUNT,
    ensures
        ({
            let after = apply_log(tallies, failed, level, ok);
            &&& after.0.len() == LEVEL_COUNT
            &&& after.0[level.index()] == tallies[level.index()] + 1
            &&& forall|j: int|
                0 <= j < LEVEL_COUNT && j != level.index() ==> after.0[j] == tallies[j]
            &&& (ok ==> after.1 == failed)
            &&& (!ok ==> after.1 == failed + 1)
        }),
{
}

/// Law: over any sequence of logged records, the failure tally grows by
/// exactly the number of failed deliveries, regardless of the levels used.
pub proof fn lemma_failures_count_failed_calls(
    tallies: Seq<nat>,
    failed: nat,
    calls: Seq<(Level, bool)>,
)
    ensures
        apply_logs(tallies, failed, calls).1 == failed + failure_count(calls),
    decreases calls.len(),
{
    if calls.len() > 0 {
        let next = apply_log(tallies, failed, calls[0].0, calls[0].1);
        lemma_failures_count_failed_calls(next.0, next.1, calls.drop_first());
    }
}

/// Law: when every delivery fails, the failure tally after the calls is
/// exactly their number.
pub proof fn lemma_all_failing(tallies: Seq<nat>, calls: Seq<(Level, bool)>)
    requires
        forall|i: int| 0 <= i < calls.len() ==> !(#[trigger] calls[i]).1,
    ensures
        apply_logs(tallies, 0, calls).1 == calls.len(),
{
    lemma_failures_count_failed_calls(tallies, 0, calls);
    lemma_failure_count_all_failing(calls);
}

/// Law: when every delivery succeeds, the failure tally stays at zero.
pub proof fn lemma_none_failing(tallies: Seq<nat>, calls: Seq<(Level, bool)>)
    requires
        forall|i: int| 0 <= i < calls.len() ==> (#[trigger] calls[i]).1,
    ensures
        apply_logs(tallies, 0, calls).1 == 0,
{
    lemma_failures_count_failed_calls(tallies, 0, calls);
    lemma_failure_count_none_failing(calls);
}

proof fn lemma_failure_count_all_failing(calls: Seq<(Level, bool)>)
    requires
        forall|i: int| 0 <= i < calls.len() ==> !(#[trigger] calls[i]).1,
    ensures
        failure_count(calls) == calls.len(),
    decreases calls.len(),
{
    if calls.len() > 0 {
        assert forall|i: int| 0 <= i < calls.drop_first().len() implies !(#[trigger] calls.drop_first()[i]).1 by {
            assert(calls.drop_first()[i] == calls[i + 1]);
        }
        lemma_failure_count_all_failing(calls.drop_first());
    }
}

proof fn lemma_failure_count_none_failing(calls: Seq<(Level, bool)>)
    requires
        forall|i: int| 0 <= i < calls.len() ==> (#[trigger] calls[i]).1,
    ensures
        failure_count(calls) == 0,
    decreases calls.len(),
{
    if calls.len() > 0 {
        assert forall|i: int| 0 <= i < calls.drop_first().len() implies (#[trigger] calls.drop_first()[i]).1 by {
            assert(calls.drop_first()[i] == calls[i + 1]);
        }
        lemma_failure_count_none_failing(calls.drop_first());
    }
}

} // verus!
