//! The registry: a mapping from metric name to instrument.

use vstd::prelude::*;
use vstd::string::StringExecFns;
use crate::assoc::{is_last_match, lemma_table_absent, lemma_table_lookup, lemma_table_names, lemma_table_push, lemma_table_replace, no_match, table};
use crate::instruments::{counter_made, counter_value, counter_vec_made, counter_vec_values, gauge_made, gauge_value, histogram_made, histogram_samples, Counter, CounterVec, Description, Gauge, HistogramHandle};

verus! {

/// Name of the counter vector of objects processed.
pub const OBJECT_COUNT: &'static str = "object_count";

/// Name of the counter vector of errors encountered.
pub const ERROR_COUNT: &'static str = "error_count";

/// Name of the counter vector of requests handled.
pub const REQUEST_COUNT: &'static str = "request_count";

/// Name of the counter of bytes transferred.
pub const BYTES_COUNT: &'static str = "bytes_count";

/// Name of the histogram of assignment completion times.
pub const ASSIGNMENT_TIME: &'static str = "assignment_time";

/// An instrument of one of the kinds that the registry holds.
pub enum Metrics {
    MetricsCounterVec(CounterVec),
    MetricsCounter(Counter),
    MetricsGauge(Gauge),
    MetricsHistogram(HistogramHandle),
}

/// What an instrument holds, as contracts see it.
pub enum MetricValue {
    /// The children of a counter vector, by slot, with their values.
    CounterVec(Map<u64, u64>),
    /// The value of a counter.
    Counter(u64),
    /// The value of a gauge.
    Gauge(i64),
    /// The number of observations of a histogram. The observations
    /// themselves are floating point and are not modelled.
    Histogram(u64),
}

impl Metrics {
    /// What this instrument holds.
    pub open spec fn value(self) -> MetricValue {
        match self {
            Metrics::MetricsCounterVec(vec) => MetricValue::CounterVec(counter_vec_values(vec)),
            Metrics::MetricsCounter(counter) => MetricValue::Counter(counter_value(counter)),
            Metrics::MetricsGauge(gauge) => MetricValue::Gauge(gauge_value(gauge)),
            Metrics::MetricsHistogram(histogram) => MetricValue::Histogram(histogram_samples(histogram)),
        }
    }

    /// What this instrument was made with.
    pub open spec fn made(self) -> Description {
        match self {
            Metrics::MetricsCounterVec(vec) => counter_vec_made(vec),
            Metrics::MetricsCounter(counter) => counter_made(counter),
            Metrics::MetricsGauge(gauge) => gauge_made(gauge),
            Metrics::MetricsHistogram(histogram) => histogram_made(histogram),
        }
    }
}

/// One binding of the registry.
pub struct Entry {
    pub(crate) name: String,
    pub(crate) metric: Metrics,
}

/// The registry. A later binding of a name shadows the earlier ones.
pub struct MetricsMap {
    pub(crate) entries: Vec<Entry>,
}

/// The pairs of name and value that a sequence of bindings stands for.
pub(crate) open spec fn entry_pairs(entries: Seq<Entry>) -> Seq<(Seq<char>, MetricValue)> {
    entries.map_values(|e: Entry| (e.name@, e.metric.value()))
}

/// The pairs of name and description that a sequence of bindings stands for.
pub(crate) open spec fn entry_descriptions(entries: Seq<Entry>) -> Seq<(Seq<char>, Description)> {
    entries.map_values(|e: Entry| (e.name@, e.metric.made()))
}

impl MetricsMap {
    /// What the instrument bound to each name was made with.
    pub closed spec fn made(&self) -> Map<Seq<char>, Description> {
        table(entry_descriptions(self.entries@))
    }

    /// The two maps of a registry have the same names.
    pub proof fn lemma_same_names(&self)
        ensures
            self.made().dom() == self@.dom(),
    {
        let values = entry_pairs(self.entries@);
        let descriptions = entry_descriptions(self.entries@);
        assert forall|i: int| 0 <= i < values.len() implies (#[trigger] values[i]).0 == descriptions[i].0 by {}
        lemma_table_names(values, descriptions);
    }
}

impl View for MetricsMap {
    type V = Map<Seq<char>, MetricValue>;

    closed spec fn view(&self) -> Map<Seq<char>, MetricValue> {
        table(entry_pairs(self.entries@))
    }
}

/// The registry `after` is the registry `before` with another instrument in
/// the last binding of `key`, which is the one at `i`.
pub(crate) open spec fn rebound(before: MetricsMap, after: MetricsMap, key: Seq<char>, i: int) -> bool {
    &&& is_last_match(entry_pairs(before.entries@), key, i)
    &&& after.entries@.len() == before.entries@.len()
    &&& forall|j: int|
        0 <= j < before.entries@.len() && j != i ==> after.entries@[j] == before.entries@[j]
    &&& after.entries@[i].name@ == key
}

/// Replacing the instrument of the last binding of `key` changes what the
/// registry holds under `key`, and nothing else.
pub(crate) proof fn lemma_rebind(before: MetricsMap, after: MetricsMap, key: Seq<char>, i: int)
    requires
        rebound(before, after, key, i),
    ensures
        before@.contains_key(key),
        before@[key] == before.entries@[i].metric.value(),
        after@ == before@.insert(key, after.entries@[i].metric.value()),
        before.made().contains_key(key),
        before.made()[key] == before.entries@[i].metric.made(),
        after.made() == before.made().insert(key, after.entries@[i].metric.made()),
{
    let pairs = entry_pairs(before.entries@);
    let value = after.entries@[i].metric.value();
    lemma_table_lookup(pairs, key, i);
    lemma_table_replace(pairs, key, i, value);
    assert(entry_pairs(after.entries@) =~= pairs.update(i, (key, value)));
    let descriptions = entry_descriptions(before.entries@);
    let description = after.entries@[i].metric.made();
    assert(is_last_match(descriptions, key, i)) by {
        assert forall|j: int| i < j < descriptions.len() implies (#[trigger] descriptions[j]).0 != key by {
            assert(pairs[j].0 != key);
        }
    }
    lemma_table_lookup(descriptions, key, i);
    lemma_table_replace(descriptions, key, i, description);
    assert(entry_descriptions(after.entries@) =~= descriptions.update(i, (key, description)));
}

impl MetricsMap {
    /// The empty registry.
    pub fn new() -> (metrics: Self)
        ensures
            metrics@ == Map::<Seq<char>, MetricValue>::empty(),
            metrics.made() == Map::<Seq<char>, Description>::empty(),
    {
        let metrics = MetricsMap { entries: Vec::new() };
        assert(entry_pairs(metrics.entries@) =~= Seq::empty());
        assert(entry_descriptions(metrics.entries@) =~= Seq::empty());
        metrics
    }

    /// Binds `key` to `metric`. What `key` was bound to before is out of
    /// reach from then on.
    pub fn insert(&mut self, key: &str, metric: Metrics)
        ensures
            final(self)@ == old(self)@.insert(key@, metric.value()),
            final(self).made() == old(self).made().insert(key@, metric.made()),
    {
        let entry = Entry { name: String::from_str(key), metric };
        proof {
            lemma_table_push(entry_pairs(self.entries@), key@, metric.value());
            assert(entry_pairs(self.entries@.push(entry)) =~= entry_pairs(self.entries@).push(
                (key@, metric.value()),
            ));
            lemma_table_push(entry_descriptions(self.entries@), key@, metric.made());
            assert(entry_descriptions(self.entries@.push(entry)) =~= entry_descriptions(
                self.entries@,
            ).push((key@, metric.made())));
        }
        self.entries.push(entry);
    }

    /// Whether `key` is bound.
    pub fn contains_key(&self, key: &str) -> (bound: bool)
        ensures
            bound == self@.contains_key(key@),
    {
        self.position(key).is_some()
    }

    /// The position of the binding that `key` stands for, if it is bound.
    pub(crate) fn position(&self, key: &str) -> (found: Option<usize>)
        ensures
            found is Some == self@.contains_key(key@),
            found matches Some(i) ==> is_last_match(entry_pairs(self.entries@), key@, i as int)
                && self@[key@] == self.entries@[i as int].metric.value() && self.made()[key@]
                == self.entries@[i as int].metric.made(),
    {
        let mut i: usize = self.entries.len();
        while i > 0
            invariant
                i <= self.entries.len(),
                forall|j: int| i <= j < self.entries.len() ==> self.entries@[j].name@ != key@,
            decreases i,
        {
            i = i - 1;
            if *self.entries[i].name.as_str() == *key {
                proof {
                    let pairs = entry_pairs(self.entries@);
                    assert(is_last_match(pairs, key@, i as int));
                    lemma_table_lookup(pairs, key@, i as int);
                    let descriptions = entry_descriptions(self.entries@);
                    assert(is_last_match(descriptions, key@, i as int));
                    lemma_table_lookup(descriptions, key@, i as int);
                }
                return Some(i);
            }
        }
        proof {
            let pairs = entry_pairs(self.entries@);
            assert(no_match(pairs, key@));
            lemma_table_absent(pairs, key@);
        }
        None
    }
}

} // verus!
