//! The update operations, and reads of what they leave behind.
//!
//! An operation on a name that is not bound, or that is bound to an
//! instrument of another kind, changes nothing and hands back the line that
//! the caller is to log. No operation fails.
//!
//! A counter never falls: an increment that would pass the largest value that
//! a counter can hold leaves it at that value. A gauge stops likewise at the
//! largest and at the smallest value that a gauge can hold.

use vstd::prelude::*;
use vstd::string::StringExecFns;
use vstd::arithmetic::div_mod::lemma_small_mod;
use crate::instruments::{counter_add, counter_made, counter_read, counter_value, counter_vec_add, counter_vec_made, counter_vec_read, counter_vec_values, gauge_add_one, gauge_read, gauge_store, gauge_sub_one, histogram_backend, histogram_count, label_slot, value_at, Counter, CounterVec};
use crate::registry::{lemma_rebind, rebound, MetricValue, Metrics, MetricsMap};

verus! {

/// The bucket of a counter vector that every increment goes to.
pub const TOTAL_BUCKET: &'static str = "total";

/// The line to log for an operation on `key` that changed nothing.
pub open spec fn invalid_metric_line(key: Seq<char>) -> Seq<char> {
    "Invalid metric: "@ + key
}

/// `key` is bound to a gauge.
pub open spec fn is_gauge(metrics: Map<Seq<char>, MetricValue>, key: Seq<char>) -> bool {
    metrics.contains_key(key) && metrics[key] is Gauge
}

/// `key` is bound to a counter.
pub open spec fn is_counter(metrics: Map<Seq<char>, MetricValue>, key: Seq<char>) -> bool {
    metrics.contains_key(key) && metrics[key] is Counter
}

/// `key` is bound to a counter vector.
pub open spec fn is_counter_vec(metrics: Map<Seq<char>, MetricValue>, key: Seq<char>) -> bool {
    metrics.contains_key(key) && metrics[key] is CounterVec
}

/// `key` is bound to a histogram.
pub open spec fn is_histogram(metrics: Map<Seq<char>, MetricValue>, key: Seq<char>) -> bool {
    metrics.contains_key(key) && metrics[key] is Histogram
}

/// What an operation hands back: nothing where it applied, the line to log
/// where it did not.
pub open spec fn log_is(log: Option<String>, applied: bool, key: Seq<char>) -> bool {
    match log {
        None => applied,
        Some(line) => !applied && line@ == invalid_metric_line(key),
    }
}

/// The value that `gauge_set` stores for `val`: `val` itself, or the largest
/// value of a gauge where `val` is beyond it.
pub open spec fn gauge_target(val: usize) -> i64 {
    if val <= i64::MAX {
        val as i64
    } else {
        i64::MAX
    }
}

/// The sum of a counter's value and a delta, or the largest value of a
/// counter where the sum is beyond it.
pub open spec fn saturating_sum(value: u64, delta: u64) -> u64 {
    if value + delta > u64::MAX {
        u64::MAX
    } else {
        (value + delta) as u64
    }
}

/// A gauge's value plus one, or the value itself where it is the largest.
pub open spec fn gauge_up(value: i64) -> i64 {
    if value < i64::MAX {
        (value + 1) as i64
    } else {
        value
    }
}

/// A gauge's value minus one, or the value itself where it is the smallest.
pub open spec fn gauge_down(value: i64) -> i64 {
    if value > i64::MIN {
        (value - 1) as i64
    } else {
        value
    }
}

/// The children of a counter vector after `delta` went to the child of `bucket`.
pub open spec fn bucket_added(values: Map<u64, u64>, bucket: Seq<char>, delta: u64) -> Map<u64, u64> {
    values.insert(label_slot(bucket), saturating_sum(value_at(values, label_slot(bucket)), delta))
}

/// The children of a counter vector after an increment by `delta`: it goes to
/// the total and then, where a bucket is given, to that bucket as well.
pub open spec fn vec_added(values: Map<u64, u64>, bucket: Option<Seq<char>>, delta: u64) -> Map<u64, u64> {
    let with_total = bucket_added(values, TOTAL_BUCKET@, delta);
    match bucket {
        Some(name) => bucket_added(with_total, name, delta),
        None => with_total,
    }
}

/// The registry after `gauge_inc` on `key`.
pub open spec fn after_gauge_inc(metrics: Map<Seq<char>, MetricValue>, key: Seq<char>) -> Map<Seq<char>, MetricValue> {
    if is_gauge(metrics, key) {
        metrics.insert(key, MetricValue::Gauge(gauge_up(metrics[key]->Gauge_0)))
    } else {
        metrics
    }
}

/// The registry after `gauge_dec` on `key`.
pub open spec fn after_gauge_dec(metrics: Map<Seq<char>, MetricValue>, key: Seq<char>) -> Map<Seq<char>, MetricValue> {
    if is_gauge(metrics, key) {
        metrics.insert(key, MetricValue::Gauge(gauge_down(metrics[key]->Gauge_0)))
    } else {
        metrics
    }
}

/// The registry after `gauge_set` on `key`.
pub open spec fn after_gauge_set(metrics: Map<Seq<char>, MetricValue>, key: Seq<char>, val: usize) -> Map<Seq<char>, MetricValue> {
    if is_gauge(metrics, key) {
        metrics.insert(key, MetricValue::Gauge(gauge_target(val)))
    } else {
        metrics
    }
}

/// The registry after `counter_inc_by` on `key`.
pub open spec fn after_counter_inc_by(metrics: Map<Seq<char>, MetricValue>, key: Seq<char>, val: u64) -> Map<Seq<char>, MetricValue> {
    if is_counter(metrics, key) {
        metrics.insert(key, MetricValue::Counter(saturating_sum(metrics[key]->Counter_0, val)))
    } else {
        metrics
    }
}

/// The registry after `counter_vec_inc_by` on `key`.
pub open spec fn after_counter_vec_inc_by(
    metrics: Map<Seq<char>, MetricValue>,
    key: Seq<char>,
    bucket: Option<Seq<char>>,
    val: usize,
) -> Map<Seq<char>, MetricValue> {
    if is_counter_vec(metrics, key) {
        metrics.insert(key, MetricValue::CounterVec(vec_added(metrics[key]->CounterVec_0, bucket, val as u64)))
    } else {
        metrics
    }
}

/// The view of an optional bucket name.
pub open spec fn bucket_view(bucket: Option<&str>) -> Option<Seq<char>> {
    match bucket {
        Some(name) => Some(name@),
        None => None,
    }
}

/// The value of the counter bound to `key`, if `key` is bound to a counter.
pub open spec fn counter_at(metrics: Map<Seq<char>, MetricValue>, key: Seq<char>) -> Option<u64> {
    if is_counter(metrics, key) {
        Some(metrics[key]->Counter_0)
    } else {
        None
    }
}

/// The value of the gauge bound to `key`, if `key` is bound to a gauge.
pub open spec fn gauge_at(metrics: Map<Seq<char>, MetricValue>, key: Seq<char>) -> Option<i64> {
    if is_gauge(metrics, key) {
        Some(metrics[key]->Gauge_0)
    } else {
        None
    }
}

/// The value of a bucket of the counter vector bound to `key`, if `key` is
/// bound to a counter vector: zero for a bucket that no increment went to.
pub open spec fn bucket_at(metrics: Map<Seq<char>, MetricValue>, key: Seq<char>, bucket: Seq<char>) -> Option<u64> {
    if is_counter_vec(metrics, key) {
        Some(value_at(metrics[key]->CounterVec_0, label_slot(bucket)))
    } else {
        None
    }
}

/// The registry after `counter_vec_get` on `key`: the bucket that was read is
/// there, with the value that was read.
pub open spec fn after_counter_vec_get(metrics: Map<Seq<char>, MetricValue>, key: Seq<char>, bucket: Seq<char>) -> Map<Seq<char>, MetricValue> {
    if is_counter_vec(metrics, key) {
        let values = metrics[key]->CounterVec_0;
        metrics.insert(
            key,
            MetricValue::CounterVec(values.insert(label_slot(bucket), value_at(values, label_slot(bucket)))),
        )
    } else {
        metrics
    }
}

/// The number of observations of the histogram bound to `key`, if `key` is
/// bound to a histogram.
pub open spec fn samples_at(metrics: Map<Seq<char>, MetricValue>, key: Seq<char>) -> Option<u64> {
    if is_histogram(metrics, key) {
        Some(metrics[key]->Histogram_0)
    } else {
        None
    }
}

/// One change to an instrument.
pub(crate) enum Change<'a> {
    GaugeInc,
    GaugeDec,
    GaugeSet(usize),
    CounterAdd(u64),
    VecAdd(Option<&'a str>, usize),
}

/// What an instrument holds after a change, where the change is one for an
/// instrument of its kind.
pub(crate) open spec fn changed(value: MetricValue, change: Change) -> Option<MetricValue> {
    match (value, change) {
        (MetricValue::Gauge(held), Change::GaugeInc) => Some(MetricValue::Gauge(gauge_up(held))),
        (MetricValue::Gauge(held), Change::GaugeDec) => Some(MetricValue::Gauge(gauge_down(held))),
        (MetricValue::Gauge(_), Change::GaugeSet(val)) => Some(MetricValue::Gauge(gauge_target(val))),
        (MetricValue::Counter(held), Change::CounterAdd(val)) => Some(
            MetricValue::Counter(saturating_sum(held, val)),
        ),
        (MetricValue::CounterVec(values), Change::VecAdd(bucket, val)) => Some(
            MetricValue::CounterVec(vec_added(values, bucket_view(bucket), val as u64)),
        ),
        _ => None,
    }
}

/// The registry after a change to the instrument bound to `key`.
pub(crate) open spec fn after(metrics: Map<Seq<char>, MetricValue>, key: Seq<char>, change: Change) -> Map<
    Seq<char>,
    MetricValue,
> {
    if metrics.contains_key(key) && changed(metrics[key], change) is Some {
        metrics.insert(key, changed(metrics[key], change).unwrap())
    } else {
        metrics
    }
}

/// Builds the line to log for an operation on `key` that changed nothing.
pub fn invalid_metric(key: &str) -> (line: String)
    ensures
        line@ == invalid_metric_line(key@),
{
    String::from_str("Invalid metric: ").concat(key)
}

/// Adds `delta` to a counter, as far as the counter can hold the sum.
fn counter_add_capped(counter: &mut Counter, delta: u64)
    ensures
        counter_value(*final(counter)) == saturating_sum(counter_value(*old(counter)), delta),
        counter_made(*final(counter)) == counter_made(*old(counter)),
{
    let held = counter_read(counter);
    let room = u64::MAX - held;
    let step = if delta <= room {
        delta
    } else {
        room
    };
    proof {
        lemma_small_mod((held + step) as nat, 0x1_0000_0000_0000_0000);
    }
    counter_add(counter, step);
}

/// Adds `delta` to a bucket of a counter vector, as far as the bucket can
/// hold the sum.
fn bucket_add_capped(vec: &mut CounterVec, bucket: &str, delta: u64)
    ensures
        counter_vec_values(*final(vec)) == bucket_added(counter_vec_values(*old(vec)), bucket@, delta),
        counter_vec_made(*final(vec)) == counter_vec_made(*old(vec)),
{
    let ghost before = counter_vec_values(*vec);
    let held = counter_vec_read(vec, bucket);
    let room = u64::MAX - held;
    let step = if delta <= room {
        delta
    } else {
        room
    };
    proof {
        lemma_small_mod((held + step) as nat, 0x1_0000_0000_0000_0000);
    }
    counter_vec_add(vec, bucket, step);
    assert(counter_vec_values(*vec) =~= bucket_added(before, bucket@, delta));
}

/// Whether a change is one for an instrument of this kind.
fn fits(metric: &Metrics, change: &Change) -> (fit: bool)
    ensures
        fit == changed(metric.value(), *change) is Some,
{
    match metric {
        Metrics::MetricsGauge(_) => match change {
            Change::GaugeInc => true,
            Change::GaugeDec => true,
            Change::GaugeSet(_) => true,
            _ => false,
        },
        Metrics::MetricsCounter(_) => match change {
            Change::CounterAdd(_) => true,
            _ => false,
        },
        Metrics::MetricsCounterVec(_) => match change {
            Change::VecAdd(_, _) => true,
            _ => false,
        },
        Metrics::MetricsHistogram(_) => false,
    }
}

/// Makes a change to an instrument of the kind that the change is for.
fn apply(metric: &mut Metrics, change: Change)
    requires
        changed(old(metric).value(), change) is Some,
    ensures
        Some(final(metric).value()) == changed(old(metric).value(), change),
        final(metric).made() == old(metric).made(),
{
    match metric {
        Metrics::MetricsGauge(gauge) => match change {
            Change::GaugeInc => {
                if gauge_read(gauge) < i64::MAX {
                    gauge_add_one(gauge);
                }
            },
            Change::GaugeDec => {
                if gauge_read(gauge) > i64::MIN {
                    gauge_sub_one(gauge);
                }
            },
            Change::GaugeSet(val) => {
                let wide: u64 = val as u64;
                let target: i64 = if wide <= 0x7fff_ffff_ffff_ffff {
                    wide as i64
                } else {
                    i64::MAX
                };
                gauge_store(gauge, target);
            },
            _ => {},
        },
        Metrics::MetricsCounter(counter) => match change {
            Change::CounterAdd(val) => {
                counter_add_capped(counter, val);
            },
            _ => {},
        },
        Metrics::MetricsCounterVec(vec) => match change {
            Change::VecAdd(bucket, val) => {
                bucket_add_capped(vec, TOTAL_BUCKET, val as u64);
                if let Some(name) = bucket {
                    bucket_add_capped(vec, name, val as u64);
                }
            },
            _ => {},
        },
        Metrics::MetricsHistogram(_) => {},
    }
}

/// Makes a change to the instrument bound to `key`, where the change is one
/// for an instrument of its kind; hands back the line to log where it is not.
fn update(metrics: &mut MetricsMap, key: &str, change: Change) -> (log: Option<String>)
    ensures
        final(metrics)@ == after(old(metrics)@, key@, change),
        final(metrics).made() == old(metrics).made(),
        log_is(
            log,
            old(metrics)@.contains_key(key@) && changed(old(metrics)@[key@], change) is Some,
            key@,
        ),
{
    let ghost before = *metrics;
    match metrics.position(key) {
        Some(i) => {
            if fits(&metrics.entries[i].metric, &change) {
                apply(&mut metrics.entries[i].metric, change);
                proof {
                    lemma_rebind(before, *metrics, key@, i as int);
                    assert(metrics.made() =~= before.made());
                }
                None
            } else {
                Some(invalid_metric(key))
            }
        },
        None => Some(invalid_metric(key)),
    }
}

/// Adds one to the gauge bound to `key`. A gauge at the largest value that it
/// can hold stays there.
pub fn gauge_inc(metrics: &mut MetricsMap, key: &str) -> (log: Option<String>)
    ensures
        final(metrics)@ == after_gauge_inc(old(metrics)@, key@),
        final(metrics).made() == old(metrics).made(),
        log_is(log, is_gauge(old(metrics)@, key@), key@),
{
    update(metrics, key, Change::GaugeInc)
}

/// Takes one from the gauge bound to `key`. A gauge at the smallest value
/// that it can hold stays there.
pub fn gauge_dec(metrics: &mut MetricsMap, key: &str) -> (log: Option<String>)
    ensures
        final(metrics)@ == after_gauge_dec(old(metrics)@, key@),
        final(metrics).made() == old(metrics).made(),
        log_is(log, is_gauge(old(metrics)@, key@), key@),
{
    update(metrics, key, Change::GaugeDec)
}

/// Sets the gauge bound to `key` to `val`, or to the largest value of a gauge
/// where `val` is beyond it.
pub fn gauge_set(metrics: &mut MetricsMap, key: &str, val: usize) -> (log: Option<String>)
    ensures
        final(metrics)@ == after_gauge_set(old(metrics)@, key@, val),
        final(metrics).made() == old(metrics).made(),
        log_is(log, is_gauge(old(metrics)@, key@), key@),
{
    update(metrics, key, Change::GaugeSet(val))
}

/// Adds one to the total of the counter vector bound to `key` and, where a
/// bucket is given, to that bucket as well.
pub fn counter_vec_inc(metrics: &mut MetricsMap, key: &str, bucket: Option<&str>) -> (log: Option<String>)
    ensures
        final(metrics)@ == after_counter_vec_inc_by(old(metrics)@, key@, bucket_view(bucket), 1),
        final(metrics).made() == old(metrics).made(),
        log_is(log, is_counter_vec(old(metrics)@, key@), key@),
{
    counter_vec_inc_by(metrics, key, bucket, 1)
}

/// Adds `val` to the total of the counter vector bound to `key` and, where a
/// bucket is given, to that bucket as well. A bucket comes into being with
/// its first increment. No bucket falls: one that cannot hold the sum is
/// left at the largest value that it can hold.
pub fn counter_vec_inc_by(metrics: &mut MetricsMap, key: &str, bucket: Option<&str>, val: usize) -> (log:
    Option<String>)
    ensures
        final(metrics)@ == after_counter_vec_inc_by(old(metrics)@, key@, bucket_view(bucket), val),
        final(metrics).made() == old(metrics).made(),
        log_is(log, is_counter_vec(old(metrics)@, key@), key@),
{
    update(metrics, key, Change::VecAdd(bucket, val))
}

/// Adds `val` to the counter bound to `key`. The counter never falls: where
/// it cannot hold the sum, it is left at the largest value that it can hold.
pub fn counter_inc_by(metrics: &mut MetricsMap, key: &str, val: u64) -> (log: Option<String>)
    ensures
        final(metrics)@ == after_counter_inc_by(old(metrics)@, key@, val),
        final(metrics).made() == old(metrics).made(),
        log_is(log, is_counter(old(metrics)@, key@), key@),
{
    update(metrics, key, Change::CounterAdd(val))
}

/// Reads the counter bound to `key`.
pub fn counter_get(metrics: &MetricsMap, key: &str) -> (value: Option<u64>)
    ensures
        value == counter_at(metrics@, key@),
{
    match metrics.position(key) {
        Some(i) => match &metrics.entries[i].metric {
            Metrics::MetricsCounter(counter) => Some(counter_read(counter)),
            _ => None,
        },
        None => None,
    }
}

/// Reads the gauge bound to `key`.
pub fn gauge_get(metrics: &MetricsMap, key: &str) -> (value: Option<i64>)
    ensures
        value == gauge_at(metrics@, key@),
{
    match metrics.position(key) {
        Some(i) => match &metrics.entries[i].metric {
            Metrics::MetricsGauge(gauge) => Some(gauge_read(gauge)),
            _ => None,
        },
        None => None,
    }
}

/// Reads the number of observations of the histogram bound to `key`.
pub fn histogram_get(metrics: &MetricsMap, key: &str) -> (samples: Option<u64>)
    ensures
        samples == samples_at(metrics@, key@),
{
    match metrics.position(key) {
        Some(i) => match &metrics.entries[i].metric {
            Metrics::MetricsHistogram(histogram) => Some(histogram_count(histogram)),
            _ => None,
        },
        None => None,
    }
}

/// Whether the instrument at a position is a counter vector.
fn holds_counter_vec(metrics: &MetricsMap, i: usize) -> (holds: bool)
    requires
        i < metrics.entries@.len(),
    ensures
        holds == metrics.entries@[i as int].metric is MetricsCounterVec,
{
    match &metrics.entries[i].metric {
        Metrics::MetricsCounterVec(_) => true,
        _ => false,
    }
}

/// Whether the instrument at a position is a histogram.
fn holds_histogram(metrics: &MetricsMap, i: usize) -> (holds: bool)
    requires
        i < metrics.entries@.len(),
    ensures
        holds == metrics.entries@[i as int].metric is MetricsHistogram,
{
    match &metrics.entries[i].metric {
        Metrics::MetricsHistogram(_) => true,
        _ => false,
    }
}

/// Finds the histogram bound to `key`, for the caller to record observations
/// in; where there is none, hands back the line to log. The registry is held
/// for as long as the histogram is out, and how many observations the
/// histogram holds afterwards is the caller's doing; everything else stays
/// as it was.
pub fn histogram_for<'a>(metrics: &'a mut MetricsMap, key: &str) -> (found: Result<
    &'a prometheus::Histogram,
    String,
>)
    ensures
        match found {
            Ok(_) => is_histogram(old(metrics)@, key@) && is_histogram(final(metrics)@, key@)
                && final(metrics)@.remove(key@) == old(metrics)@.remove(key@),
            Err(line) => !is_histogram(old(metrics)@, key@) && line@ == invalid_metric_line(key@)
                && final(metrics)@ == old(metrics)@,
        },
        final(metrics).made() == old(metrics).made(),
{
    let ghost before = *metrics;
    match metrics.position(key) {
        Some(i) => {
            if holds_histogram(metrics, i) {
                proof {
                    assert forall|after: MetricsMap| rebound(before, after, key@, i as int) implies {
                        &&& #[trigger] after@ == before@.insert(key@, after.entries@[i as int].metric.value())
                        &&& after.made() == before.made().insert(key@, after.entries@[i as int].metric.made())
                    } by {
                        lemma_rebind(before, after, key@, i as int);
                    }
                }
                match &mut metrics.entries[i].metric {
                    Metrics::MetricsHistogram(histogram) => Ok(histogram_backend(histogram)),
                    _ => Err(invalid_metric(key)),
                }
            } else {
                Err(invalid_metric(key))
            }
        },
        None => Err(invalid_metric(key)),
    }
}

/// Reads a bucket of the counter vector bound to `key`. Reading a bucket that
/// no increment went to gives zero and brings the bucket into being, as the
/// metrics backend does.
pub fn counter_vec_get(metrics: &mut MetricsMap, key: &str, bucket: &str) -> (value: Option<u64>)
    ensures
        value == bucket_at(old(metrics)@, key@, bucket@),
        final(metrics)@ == after_counter_vec_get(old(metrics)@, key@, bucket@),
        final(metrics).made() == old(metrics).made(),
{
    let ghost before = *metrics;
    match metrics.position(key) {
        Some(i) => {
            if holds_counter_vec(metrics, i) {
                let value = match &mut metrics.entries[i].metric {
                    Metrics::MetricsCounterVec(vec) => counter_vec_read(vec, bucket),
                    _ => 0,
                };
                proof {
                    lemma_rebind(before, *metrics, key@, i as int);
                    assert(metrics.made() =~= before.made());
                }
                Some(value)
            } else {
                None
            }
        },
        None => None,
    }
}

} // verus!
