//! What holds of the update operations taken together.
//!
//! Each law is stated over the functions that the operations' contracts are
//! stated in, so what is proved here holds of every call.

use vstd::prelude::*;
use vstd::seq_lib::group_to_multiset_ensures;
use crate::instruments::{label_slot, value_at};
use crate::registry::MetricValue;
use crate::update::{saturating_sum, after_counter_inc_by, after_counter_vec_inc_by, after_gauge_dec, after_gauge_inc, after_gauge_set, bucket_at, counter_at, gauge_at, gauge_target, invalid_metric_line, is_counter, is_counter_vec, is_gauge, log_is, vec_added, TOTAL_BUCKET};

verus! {

/// The sum of a sequence of deltas.
pub open spec fn sum_of(deltas: Seq<u64>) -> nat
    decreases deltas.len(),
{
    if deltas.len() == 0 {
        0
    } else {
        sum_of(deltas.drop_last()) + deltas.last() as nat
    }
}

/// The registry after one `counter_inc_by` on `key` for each delta, in order.
pub open spec fn after_counter_incs(metrics: Map<Seq<char>, MetricValue>, key: Seq<char>, deltas: Seq<u64>) -> Map<
    Seq<char>,
    MetricValue,
>
    decreases deltas.len(),
{
    if deltas.len() == 0 {
        metrics
    } else {
        after_counter_inc_by(after_counter_incs(metrics, key, deltas.drop_last()), key, deltas.last())
    }
}

/// A counter's value plus a total of deltas, or the largest value of a
/// counter where the sum is beyond it.
pub open spec fn counter_plus(value: u64, total: nat) -> u64 {
    if value + total > u64::MAX {
        u64::MAX
    } else {
        (value + total) as u64
    }
}

/// Repeated increments of a counter leave it at its old value plus the sum of
/// the deltas, and leave every other instrument as it was. Where a counter
/// cannot hold the sum, it is left at the largest value that it can hold.
pub proof fn lemma_counter_holds_sum(metrics: Map<Seq<char>, MetricValue>, key: Seq<char>, deltas: Seq<u64>)
    requires
        is_counter(metrics, key),
    ensures
        after_counter_incs(metrics, key, deltas) == metrics.insert(
            key,
            MetricValue::Counter(counter_plus(metrics[key]->Counter_0, sum_of(deltas))),
        ),
        counter_at(after_counter_incs(metrics, key, deltas), key) == Some(
            counter_plus(metrics[key]->Counter_0, sum_of(deltas)),
        ),
        metrics[key]->Counter_0 + sum_of(deltas) <= u64::MAX ==> counter_at(
            after_counter_incs(metrics, key, deltas),
            key,
        ) == Some((metrics[key]->Counter_0 + sum_of(deltas)) as u64),
    decreases deltas.len(),
{
    let start = metrics[key]->Counter_0;
    if deltas.len() == 0 {
        assert(metrics =~= metrics.insert(key, MetricValue::Counter(start)));
    } else {
        let front = deltas.drop_last();
        let last = deltas.last();
        lemma_counter_holds_sum(metrics, key, front);
        let mid = after_counter_incs(metrics, key, front);
        let held = counter_plus(start, sum_of(front));
        assert(mid[key] == MetricValue::Counter(held));
        assert(saturating_sum(held, last) == counter_plus(start, sum_of(deltas)));
        assert(after_counter_incs(metrics, key, deltas) =~= metrics.insert(
            key,
            MetricValue::Counter(counter_plus(start, sum_of(deltas))),
        ));
    }
}

/// A counter never falls: after an increment it holds at least what it held
/// before, and at least the delta.
pub proof fn lemma_counter_never_falls(metrics: Map<Seq<char>, MetricValue>, key: Seq<char>, val: u64)
    requires
        is_counter(metrics, key),
    ensures
        is_counter(after_counter_inc_by(metrics, key, val), key),
        after_counter_inc_by(metrics, key, val)[key]->Counter_0 >= metrics[key]->Counter_0,
        after_counter_inc_by(metrics, key, val)[key]->Counter_0 >= val,
        val == 0 ==> after_counter_inc_by(metrics, key, val) == metrics,
{
    if val == 0 {
        assert(after_counter_inc_by(metrics, key, val) =~= metrics);
    }
}

/// No bucket of a counter vector falls or goes away: after an increment
/// every bucket that was there is still there and holds at least what it
/// held before, and the total is there.
pub proof fn lemma_buckets_never_fall(values: Map<u64, u64>, bucket: Option<Seq<char>>, delta: u64, slot: u64)
    ensures
        values.contains_key(slot) ==> vec_added(values, bucket, delta).contains_key(slot),
        value_at(vec_added(values, bucket, delta), slot) >= value_at(values, slot),
        vec_added(values, bucket, delta).contains_key(label_slot(TOTAL_BUCKET@)),
        bucket matches Some(name) ==> vec_added(values, bucket, delta).contains_key(label_slot(name)),
{
}

/// Taking one delta out of a sequence takes it out of the sum.
proof fn lemma_sum_without(deltas: Seq<u64>, i: int)
    requires
        0 <= i < deltas.len(),
    ensures
        sum_of(deltas) == sum_of(deltas.remove(i)) + deltas[i] as nat,
    decreases deltas.len(),
{
    if i == deltas.len() - 1 {
        assert(deltas.remove(i) =~= deltas.drop_last());
    } else {
        lemma_sum_without(deltas.drop_last(), i);
        assert(deltas.remove(i).drop_last() =~= deltas.drop_last().remove(i));
        assert(deltas.remove(i).last() == deltas.last());
    }
}

/// The sum of a sequence of deltas does not depend on their order.
pub proof fn lemma_sum_any_order(left: Seq<u64>, right: Seq<u64>)
    requires
        left.to_multiset() == right.to_multiset(),
    ensures
        sum_of(left) == sum_of(right),
    decreases left.len(),
{
    broadcast use group_to_multiset_ensures;

    if left.len() == 0 {
        assert(right.len() == right.to_multiset().len());
        assert(left.len() == left.to_multiset().len());
    } else {
        let last = left.last();
        assert(left.contains(last));
        assert(right.to_multiset().count(last) > 0);
        assert(right.contains(last));
        let i = choose|i: int| 0 <= i < right.len() && right[i] == last;
        assert(left.drop_last() =~= left.remove(left.len() - 1));
        assert(left.drop_last().to_multiset() =~= right.remove(i).to_multiset());
        lemma_sum_any_order(left.drop_last(), right.remove(i));
        lemma_sum_without(right, i);
    }
}

/// The same increments of a counter, applied in any order, leave the registry
/// the same.
pub proof fn lemma_counter_any_order(
    metrics: Map<Seq<char>, MetricValue>,
    key: Seq<char>,
    left: Seq<u64>,
    right: Seq<u64>,
)
    requires
        left.to_multiset() == right.to_multiset(),
    ensures
        after_counter_incs(metrics, key, left) == after_counter_incs(metrics, key, right),
{
    if is_counter(metrics, key) {
        lemma_sum_any_order(left, right);
        lemma_counter_holds_sum(metrics, key, left);
        lemma_counter_holds_sum(metrics, key, right);
    } else {
        lemma_not_a_counter(metrics, key, left);
        lemma_not_a_counter(metrics, key, right);
    }
}

/// Increments under a name that is not bound to a counter change nothing.
proof fn lemma_not_a_counter(metrics: Map<Seq<char>, MetricValue>, key: Seq<char>, deltas: Seq<u64>)
    requires
        !is_counter(metrics, key),
    ensures
        after_counter_incs(metrics, key, deltas) == metrics,
    decreases deltas.len(),
{
    if deltas.len() > 0 {
        lemma_not_a_counter(metrics, key, deltas.drop_last());
    }
}

/// The children of a counter vector after one increment for each step, in
/// order. A step is the bucket, if one is given, and the delta.
pub open spec fn after_vec_incs(values: Map<u64, u64>, steps: Seq<(Option<Seq<char>>, u64)>) -> Map<u64, u64>
    decreases steps.len(),
{
    if steps.len() == 0 {
        values
    } else {
        vec_added(after_vec_incs(values, steps.drop_last()), steps.last().0, steps.last().1)
    }
}

/// Over any number of increments no bucket of a counter vector falls or goes
/// away.
pub proof fn lemma_buckets_never_fall_over_time(
    values: Map<u64, u64>,
    steps: Seq<(Option<Seq<char>>, u64)>,
    slot: u64,
)
    ensures
        values.contains_key(slot) ==> after_vec_incs(values, steps).contains_key(slot),
        value_at(after_vec_incs(values, steps), slot) >= value_at(values, slot),
    decreases steps.len(),
{
    if steps.len() > 0 {
        lemma_buckets_never_fall_over_time(values, steps.drop_last(), slot);
        lemma_buckets_never_fall(
            after_vec_incs(values, steps.drop_last()),
            steps.last().0,
            steps.last().1,
            slot,
        );
    }
}

/// Over any number of increments a counter never falls.
pub proof fn lemma_counter_never_falls_over_time(
    metrics: Map<Seq<char>, MetricValue>,
    key: Seq<char>,
    deltas: Seq<u64>,
)
    requires
        is_counter(metrics, key),
    ensures
        is_counter(after_counter_incs(metrics, key, deltas), key),
        after_counter_incs(metrics, key, deltas)[key]->Counter_0 >= metrics[key]->Counter_0,
{
    lemma_counter_holds_sum(metrics, key, deltas);
}

/// An increment of a counter vector adds the delta to the total, adds it to
/// the named bucket where one is given, and leaves every bucket that it does
/// not refer to as it was: at zero, if no increment went to it before. A
/// bucket is told from another by its slot; a named bucket that shares the
/// slot of the total receives the delta twice. A bucket that cannot hold the
/// sum is left at the largest value that it can hold.
pub proof fn lemma_counter_vec_buckets(
    values: Map<u64, u64>,
    bucket: Option<Seq<char>>,
    delta: u64,
    other: Seq<char>,
)
    ensures
        ({
            let after = vec_added(values, bucket, delta);
            let total = label_slot(TOTAL_BUCKET@);
            &&& match bucket {
                None => value_at(after, total) == saturating_sum(value_at(values, total), delta),
                Some(name) => if label_slot(name) == total {
                    value_at(after, total) == saturating_sum(
                        saturating_sum(value_at(values, total), delta),
                        delta,
                    )
                } else {
                    &&& value_at(after, total) == saturating_sum(value_at(values, total), delta)
                    &&& value_at(after, label_slot(name)) == saturating_sum(
                        value_at(values, label_slot(name)),
                        delta,
                    )
                },
            }
            &&& label_slot(other) != total && (bucket matches Some(name) ==> label_slot(other)
                != label_slot(name)) ==> {
                &&& after.contains_key(label_slot(other)) == values.contains_key(label_slot(other))
                &&& value_at(after, label_slot(other)) == value_at(values, label_slot(other))
            }
        }),
{
}

/// The same, of the registry: after `counter_vec_inc_by` a read of the total
/// gives the old total plus the delta, a read of the named bucket the old
/// bucket plus the delta, and a read of any other bucket what it gave before.
pub proof fn lemma_counter_vec_inc_by_reads(
    metrics: Map<Seq<char>, MetricValue>,
    key: Seq<char>,
    bucket: Option<Seq<char>>,
    val: usize,
    other: Seq<char>,
)
    requires
        is_counter_vec(metrics, key),
        bucket matches Some(name) ==> label_slot(name) != label_slot(TOTAL_BUCKET@),
        label_slot(other) != label_slot(TOTAL_BUCKET@),
        bucket matches Some(name) ==> label_slot(other) != label_slot(name),
    ensures
        ({
            let after = after_counter_vec_inc_by(metrics, key, bucket, val);
            &&& bucket_at(after, key, TOTAL_BUCKET@) == Some(
                saturating_sum(bucket_at(metrics, key, TOTAL_BUCKET@).unwrap(), val as u64),
            )
            &&& bucket matches Some(name) ==> bucket_at(after, key, name) == Some(
                saturating_sum(bucket_at(metrics, key, name).unwrap(), val as u64),
            )
            &&& bucket_at(after, key, other) == bucket_at(metrics, key, other)
        }),
{
    lemma_counter_vec_buckets(metrics[key]->CounterVec_0, bucket, val as u64, other);
}

/// A gauge moves by one, up or down, wherever it can hold the result.
pub proof fn lemma_gauge_moves_by_one(metrics: Map<Seq<char>, MetricValue>, key: Seq<char>)
    requires
        is_gauge(metrics, key),
    ensures
        metrics[key]->Gauge_0 < i64::MAX ==> gauge_at(after_gauge_inc(metrics, key), key) == Some(
            (metrics[key]->Gauge_0 + 1) as i64,
        ),
        metrics[key]->Gauge_0 > i64::MIN ==> gauge_at(after_gauge_dec(metrics, key), key) == Some(
            (metrics[key]->Gauge_0 - 1) as i64,
        ),
{
}

/// A read of a gauge right after `gauge_set` gives the value that was set,
/// whatever the gauge held before: `val` itself where a gauge can hold it.
pub proof fn lemma_gauge_set_then_get(metrics: Map<Seq<char>, MetricValue>, key: Seq<char>, val: usize)
    requires
        is_gauge(metrics, key),
    ensures
        gauge_at(after_gauge_set(metrics, key, val), key) == Some(gauge_target(val)),
        val <= i64::MAX ==> gauge_at(after_gauge_set(metrics, key, val), key) == Some(val as i64),
{
}

/// Of two `gauge_set` in a row the later one wins: nothing of the earlier
/// one is left.
pub proof fn lemma_gauge_last_write_wins(
    metrics: Map<Seq<char>, MetricValue>,
    key: Seq<char>,
    first: usize,
    second: usize,
)
    ensures
        after_gauge_set(after_gauge_set(metrics, key, first), key, second) == after_gauge_set(
            metrics,
            key,
            second,
        ),
{
    assert(after_gauge_set(after_gauge_set(metrics, key, first), key, second) =~= after_gauge_set(
        metrics,
        key,
        second,
    ));
}

/// An update under a name that is not bound changes no instrument, whichever
/// operation it is, and what it hands back is one line to log, which names
/// the key.
pub proof fn lemma_unbound_key_changes_nothing(
    metrics: Map<Seq<char>, MetricValue>,
    key: Seq<char>,
    bucket: Option<Seq<char>>,
    val: usize,
    delta: u64,
)
    requires
        !metrics.contains_key(key),
    ensures
        after_gauge_inc(metrics, key) == metrics,
        after_gauge_dec(metrics, key) == metrics,
        after_gauge_set(metrics, key, val) == metrics,
        after_counter_inc_by(metrics, key, delta) == metrics,
        after_counter_vec_inc_by(metrics, key, bucket, val) == metrics,
        !is_gauge(metrics, key) && !is_counter(metrics, key) && !is_counter_vec(metrics, key),
        forall|log: Option<String>| #[trigger]
            log_is(log, false, key) ==> (log matches Some(line) && line@ == invalid_metric_line(key)),
{
}

} // verus!
