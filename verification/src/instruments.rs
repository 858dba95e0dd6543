//! The instruments of the Prometheus client library, and what this library
//! assumes of them.
//!
//! Nothing in this file is proved. Each item names the function of the client
//! library that it stands for and says what is taken for granted about it.
//!
//! The client library shares an instrument between all clones of its handle.
//! The handles kept here are never cloned by this library, except for the one
//! clone that registration hands to the process-wide registry, which only
//! reads. Whoever holds a handle by `&mut` is therefore its only writer, and
//! that is what lets the contracts below relate the value after a call to the
//! value before it. What an instrument was made with (its name, help text
//! and labels) is fixed when it is made.

use vstd::prelude::*;
use crate::assoc::table;
use crate::labels::{label_pairs, Label};

verus! {

/// `prometheus::Histogram`, carried through as an opaque value.
#[verifier::external_type_specification]
#[verifier::external_body]
pub struct ExHistogram(prometheus::Histogram);

/// `prometheus::Error`, carried through as an opaque value.
#[verifier::external_type_specification]
#[verifier::external_body]
pub struct ExBackendError(prometheus::Error);

/// `prometheus::proto::MetricFamily`, carried through as an opaque value.
#[verifier::external_type_specification]
#[verifier::external_body]
pub struct ExMetricFamily(prometheus::proto::MetricFamily);

/// A handle on a `prometheus::IntCounter`.
#[verifier::external_body]
pub struct Counter {
    inner: prometheus::IntCounter,
}

/// A handle on a `prometheus::IntCounterVec` with one variable label.
#[verifier::external_body]
pub struct CounterVec {
    inner: prometheus::IntCounterVec,
}

/// A handle on a `prometheus::IntGauge`.
#[verifier::external_body]
pub struct Gauge {
    inner: prometheus::IntGauge,
}

/// A handle on a `prometheus::Histogram`.
#[verifier::external_body]
pub struct HistogramHandle {
    inner: prometheus::Histogram,
}

/// What an instrument was made with. It is fixed when the instrument is made.
pub struct Description {
    /// The name under which snapshots show the instrument.
    pub name: Seq<char>,
    /// The help text.
    pub help: Seq<char>,
    /// The constant labels.
    pub labels: Map<Seq<char>, Seq<char>>,
    /// The name of the label that tells the buckets of a counter vector
    /// apart; nothing for the other instruments.
    pub bucket_label: Option<Seq<char>>,
}

/// What a counter was made with.
pub uninterp spec fn counter_made(counter: Counter) -> Description;

/// What a counter vector was made with.
pub uninterp spec fn counter_vec_made(vec: CounterVec) -> Description;

/// What a gauge was made with.
pub uninterp spec fn gauge_made(gauge: Gauge) -> Description;

/// What a histogram was made with.
pub uninterp spec fn histogram_made(histogram: HistogramHandle) -> Description;

/// The number of observations that a histogram holds.
pub uninterp spec fn histogram_samples(histogram: HistogramHandle) -> u64;

/// The value that a counter holds.
pub uninterp spec fn counter_value(counter: Counter) -> u64;

/// The value that a gauge holds.
pub uninterp spec fn gauge_value(gauge: Gauge) -> i64;

/// The children of a counter vector and their values. The client library
/// files a child under a 64-bit hash of its label value, so that is the key
/// here: see [`label_slot`].
pub uninterp spec fn counter_vec_values(vec: CounterVec) -> Map<u64, u64>;

/// The key under which a counter vector with one variable label files the
/// child for a label value: the FNV hash that `MetricVec` computes over the
/// value's bytes. It depends on the label value alone.
pub uninterp spec fn label_slot(label: Seq<char>) -> u64;

/// The plaintext exposition of a snapshot as the client library's text
/// encoder writes it, or nothing where the encoder refuses the snapshot.
pub uninterp spec fn text_encoding(families: Seq<prometheus::proto::MetricFamily>) -> Option<Seq<u8>>;

/// The sum of two `u64` as an atomic `fetch_add` leaves it: reduced modulo 2^64.
pub open spec fn wrapping_sum(value: u64, delta: u64) -> u64 {
    ((value + delta) % 0x1_0000_0000_0000_0000) as u64
}

/// The successor of an `i64` as an atomic `fetch_add` leaves it.
pub open spec fn wrapping_succ(value: i64) -> i64 {
    if value == i64::MAX {
        i64::MIN
    } else {
        (value + 1) as i64
    }
}

/// The predecessor of an `i64` as an atomic `fetch_sub` leaves it.
pub open spec fn wrapping_pred(value: i64) -> i64 {
    if value == i64::MIN {
        i64::MAX
    } else {
        (value - 1) as i64
    }
}

/// The contents of a counter vector without children.
pub open spec fn no_children() -> Map<u64, u64> {
    Map::empty()
}

/// What a counter vector holds for a slot: the child's value, or zero where
/// no child has been made yet.
pub open spec fn value_at(values: Map<u64, u64>, slot: u64) -> u64 {
    if values.contains_key(slot) {
        values[slot]
    } else {
        0
    }
}

/// An ASCII letter.
pub open spec fn is_letter(c: char) -> bool {
    (0x41 <= c as u32 <= 0x5a) || (0x61 <= c as u32 <= 0x7a)
}

/// An ASCII digit.
pub open spec fn is_digit(c: char) -> bool {
    0x30 <= c as u32 <= 0x39
}

/// A character that a label name may hold from its second place on.
pub open spec fn label_char(c: char) -> bool {
    is_letter(c) || c == '_' || is_digit(c)
}

/// A character that a metric name may hold from its second place on.
pub open spec fn metric_char(c: char) -> bool {
    label_char(c) || c == ':'
}

/// A label name that the client library accepts: a letter or `_`, then
/// letters, digits and `_`.
pub open spec fn valid_label_name(name: Seq<char>) -> bool {
    &&& name.len() > 0
    &&& !is_digit(name[0])
    &&& forall|i: int| 0 <= i < name.len() ==> label_char(#[trigger] name[i])
}

/// A metric name that the client library accepts: a letter, `_` or `:`, then
/// letters, digits, `_` and `:`.
pub open spec fn valid_metric_name(name: Seq<char>) -> bool {
    &&& name.len() > 0
    &&& !is_digit(name[0])
    &&& forall|i: int| 0 <= i < name.len() ==> metric_char(#[trigger] name[i])
}

/// Every label has a name that the client library accepts.
pub open spec fn valid_labels(labels: Seq<Label>) -> bool {
    forall|i: int| 0 <= i < labels.len() ==> valid_label_name((#[trigger] labels[i]).name@)
}

/// No label has the name that the client library keeps for the bounds of a
/// histogram's buckets.
pub open spec fn no_bound_label(labels: Seq<Label>) -> bool {
    forall|i: int| 0 <= i < labels.len() ==> (#[trigger] labels[i]).name@ != "le"@
}

/// The client library makes an instrument of this name, help text and labels:
/// the help text is not empty and the names are ones that it accepts.
pub open spec fn makes(name: Seq<char>, help: Seq<char>, labels: Seq<Label>) -> bool {
    &&& help.len() > 0
    &&& valid_metric_name(name)
    &&& valid_labels(labels)
}

/// What an instrument made of this name, help text and labels was made with.
/// Of two labels with one name the later one counts.
pub open spec fn made_of(name: Seq<char>, help: Seq<char>, labels: Seq<Label>) -> Description {
    Description { name, help, labels: table(label_pairs(labels)), bucket_label: None }
}

/// The same for a counter vector whose buckets the label `bucket_label` tells
/// apart.
pub open spec fn vec_made_of(name: Seq<char>, help: Seq<char>, bucket_label: Seq<char>, labels: Seq<Label>) -> Description {
    Description { name, help, labels: table(label_pairs(labels)), bucket_label: Some(bucket_label) }
}

/// `IntCounter::with_opts` on options made of `name`, `help` and the labels as
/// constant labels. Assumed: the client library makes the counter exactly
/// where the help text is not empty and it accepts the name and every label
/// name; the counter then holds zero and carries what it was made of.
#[verifier::external_body]
pub(crate) fn counter_with_opts(name: &str, help: &str, labels: &Vec<Label>) -> (made: Result<Counter, prometheus::Error>)
    ensures
        made is Ok == makes(name@, help@, labels@),
        made matches Ok(counter) ==> counter_value(counter) == 0 && counter_made(counter) == made_of(
            name@,
            help@,
            labels@,
        ),
{
    let const_labels = labels.iter().map(|label| (label.name.clone(), label.value.clone())).collect();
    let opts = prometheus::Opts::new(name, help).const_labels(const_labels);
    prometheus::IntCounter::with_opts(opts).map(|inner| Counter { inner })
}

/// `IntCounterVec::new` on options made of `name`, `help` and the labels as
/// constant labels, with `bucket_label` as its one variable label. Assumed:
/// the client library makes the vector exactly where the help text is not
/// empty and it accepts the name, every label name and the bucket label; the
/// vector then has no children and carries what it was made of.
#[verifier::external_body]
pub(crate) fn counter_vec_with_opts(name: &str, help: &str, bucket_label: &str, labels: &Vec<Label>) -> (made: Result<CounterVec, prometheus::Error>)
    ensures
        made is Ok == (makes(name@, help@, labels@) && valid_label_name(bucket_label@)),
        made matches Ok(vec) ==> counter_vec_values(vec) == no_children() && counter_vec_made(vec)
            == vec_made_of(name@, help@, bucket_label@, labels@),
{
    let const_labels = labels.iter().map(|label| (label.name.clone(), label.value.clone())).collect();
    let opts = prometheus::Opts::new(name, help).const_labels(const_labels);
    prometheus::IntCounterVec::new(opts, &[bucket_label]).map(|inner| CounterVec { inner })
}

/// `IntGauge::with_opts` on options made of `name`, `help` and the labels as
/// constant labels. Assumed: the client library makes the gauge exactly where
/// the help text is not empty and it accepts the name and every label name;
/// the gauge then holds zero and carries what it was made of.
#[verifier::external_body]
pub(crate) fn gauge_with_opts(name: &str, help: &str, labels: &Vec<Label>) -> (made: Result<Gauge, prometheus::Error>)
    ensures
        made is Ok == makes(name@, help@, labels@),
        made matches Ok(gauge) ==> gauge_value(gauge) == 0 && gauge_made(gauge) == made_of(
            name@,
            help@,
            labels@,
        ),
{
    let const_labels = labels.iter().map(|label| (label.name.clone(), label.value.clone())).collect();
    let opts = prometheus::Opts::new(name, help).const_labels(const_labels);
    prometheus::IntGauge::with_opts(opts).map(|inner| Gauge { inner })
}

/// `Histogram::with_opts` on histogram options made of `name`, `help` and the
/// labels as constant labels, with the client library's default buckets.
/// Assumed: the client library makes the histogram exactly where the help
/// text is not empty, it accepts the name and every label name, and no label
/// is named `le`; the histogram then holds no observation and carries what
/// it was made of.
#[verifier::external_body]
pub(crate) fn histogram_with_opts(name: &str, help: &str, labels: &Vec<Label>) -> (made: Result<HistogramHandle, prometheus::Error>)
    ensures
        made is Ok == (makes(name@, help@, labels@) && no_bound_label(labels@)),
        made matches Ok(histogram) ==> histogram_samples(histogram) == 0 && histogram_made(histogram)
            == made_of(name@, help@, labels@),
{
    let const_labels = labels.iter().map(|label| (label.name.clone(), label.value.clone())).collect();
    let opts = prometheus::HistogramOpts::new(name, help).const_labels(const_labels);
    prometheus::Histogram::with_opts(opts).map(|inner| HistogramHandle { inner })
}

/// `prometheus::register` on a clone of the counter's handle. Nothing is
/// assumed of the outcome: it depends on what the process has registered.
#[verifier::external_body]
pub(crate) fn register_counter(counter: &Counter) -> (outcome: Result<(), prometheus::Error>) {
    prometheus::register(Box::new(counter.inner.clone()))
}

/// `prometheus::register` on a clone of the vector's handle. Nothing is
/// assumed of the outcome.
#[verifier::external_body]
pub(crate) fn register_counter_vec(vec: &CounterVec) -> (outcome: Result<(), prometheus::Error>) {
    prometheus::register(Box::new(vec.inner.clone()))
}

/// `prometheus::register` on a clone of the gauge's handle. Nothing is assumed
/// of the outcome.
#[verifier::external_body]
pub(crate) fn register_gauge(gauge: &Gauge) -> (outcome: Result<(), prometheus::Error>) {
    prometheus::register(Box::new(gauge.inner.clone()))
}

/// `prometheus::register` on a clone of the histogram's handle. Nothing is
/// assumed of the outcome.
#[verifier::external_body]
pub(crate) fn register_histogram(histogram: &HistogramHandle) -> (outcome: Result<(), prometheus::Error>) {
    prometheus::register(Box::new(histogram.inner.clone()))
}

/// `IntCounter::inc_by`. Assumed: the counter then holds the sum of its old
/// value and `delta`, reduced modulo 2^64 (the client library adds with an
/// atomic `fetch_add`).
#[verifier::external_body]
pub(crate) fn counter_add(counter: &mut Counter, delta: u64)
    ensures
        counter_value(*final(counter)) == wrapping_sum(counter_value(*old(counter)), delta),
        counter_made(*final(counter)) == counter_made(*old(counter)),
{
    counter.inner.inc_by(delta)
}

/// `IntCounter::get`. Assumed: it returns the value that the counter holds.
#[verifier::external_body]
pub(crate) fn counter_read(counter: &Counter) -> (value: u64)
    ensures
        value == counter_value(*counter),
{
    counter.inner.get()
}

/// `IntCounterVec::with_label_values` on the one label value `bucket`, then
/// `IntCounter::inc_by` on the child. Assumed: the child filed under the
/// bucket's slot is made if there was none, and then holds the sum of its old
/// value (zero if it was just made) and `delta`, reduced modulo 2^64; every
/// other child is as it was.
#[verifier::external_body]
pub(crate) fn counter_vec_add(vec: &mut CounterVec, bucket: &str, delta: u64)
    ensures
        counter_vec_values(*final(vec)) == counter_vec_values(*old(vec)).insert(
            label_slot(bucket@),
            wrapping_sum(value_at(counter_vec_values(*old(vec)), label_slot(bucket@)), delta),
        ),
        counter_vec_made(*final(vec)) == counter_vec_made(*old(vec)),
{
    vec.inner.with_label_values(&[bucket]).inc_by(delta)
}

/// `IntCounterVec::with_label_values` on the one label value `bucket`, then
/// `IntCounter::get` on the child. Assumed: it returns the value of the child
/// filed under the bucket's slot, and makes that child, holding zero, if
/// there was none.
#[verifier::external_body]
pub(crate) fn counter_vec_read(vec: &mut CounterVec, bucket: &str) -> (value: u64)
    ensures
        value == value_at(counter_vec_values(*old(vec)), label_slot(bucket@)),
        counter_vec_values(*final(vec)) == counter_vec_values(*old(vec)).insert(
            label_slot(bucket@),
            value,
        ),
        counter_vec_made(*final(vec)) == counter_vec_made(*old(vec)),
{
    vec.inner.with_label_values(&[bucket]).get()
}

/// `IntGauge::inc`. Assumed: the gauge then holds its old value plus one,
/// wrapping at the width of `i64`.
#[verifier::external_body]
pub(crate) fn gauge_add_one(gauge: &mut Gauge)
    ensures
        gauge_value(*final(gauge)) == wrapping_succ(gauge_value(*old(gauge))),
        gauge_made(*final(gauge)) == gauge_made(*old(gauge)),
{
    gauge.inner.inc()
}

/// `IntGauge::dec`. Assumed: the gauge then holds its old value minus one,
/// wrapping at the width of `i64`.
#[verifier::external_body]
pub(crate) fn gauge_sub_one(gauge: &mut Gauge)
    ensures
        gauge_value(*final(gauge)) == wrapping_pred(gauge_value(*old(gauge))),
        gauge_made(*final(gauge)) == gauge_made(*old(gauge)),
{
    gauge.inner.dec()
}

/// `IntGauge::set`. Assumed: the gauge then holds `value`.
#[verifier::external_body]
pub(crate) fn gauge_store(gauge: &mut Gauge, value: i64)
    ensures
        gauge_value(*final(gauge)) == value,
        gauge_made(*final(gauge)) == gauge_made(*old(gauge)),
{
    gauge.inner.set(value)
}

/// `IntGauge::get`. Assumed: it returns the value that the gauge holds.
#[verifier::external_body]
pub(crate) fn gauge_read(gauge: &Gauge) -> (value: i64)
    ensures
        value == gauge_value(*gauge),
{
    gauge.inner.get()
}

/// `Histogram::get_sample_count`. Assumed: it returns the number of
/// observations that the histogram holds.
#[verifier::external_body]
pub(crate) fn histogram_count(histogram: &HistogramHandle) -> (samples: u64)
    ensures
        samples == histogram_samples(*histogram),
{
    histogram.inner.get_sample_count()
}

/// Hands out the client library's histogram for the holder to record
/// observations in (`Histogram::observe`, which takes a floating-point
/// number). The handle is taken by `&mut` for as long as the histogram is
/// out, so what it holds afterwards is left open: only what it was made with
/// stays.
#[verifier::external_body]
pub(crate) fn histogram_backend(histogram: &mut HistogramHandle) -> (backend: &prometheus::Histogram)
    ensures
        histogram_made(*final(histogram)) == histogram_made(*old(histogram)),
{
    &histogram.inner
}

/// `prometheus::gather`: a snapshot of every instrument that the process has
/// registered. Nothing is assumed of it.
#[verifier::external_body]
pub(crate) fn gather_families() -> (families: Vec<prometheus::proto::MetricFamily>) {
    prometheus::gather()
}

/// `TextEncoder::encode` into a fresh buffer: the snapshot in the plaintext
/// exposition format, or the encoder's refusal. Assumed: what comes out
/// depends on the families alone, so it is the named encoding of them.
#[verifier::external_body]
pub(crate) fn encode_text(families: &Vec<prometheus::proto::MetricFamily>) -> (encoded: Result<
    Vec<u8>,
    prometheus::Error,
>)
    ensures
        encoded is Ok == text_encoding(families@) is Some,
        encoded matches Ok(body) ==> text_encoding(families@) == Some(body@),
{
    let mut buffer: Vec<u8> = Vec::new();
    prometheus::Encoder::encode(&prometheus::TextEncoder::new(), families, &mut buffer).map(|_| buffer)
}

/// `TextEncoder::format_type`. Assumed: it is the constant that the client
/// library declares for the plaintext exposition format.
#[verifier::external_body]
pub(crate) fn text_format_type() -> (format: String)
    ensures
        format@ == "text/plain; version=0.0.4"@,
{
    prometheus::Encoder::format_type(&prometheus::TextEncoder::new()).to_owned()
}

} // verus!
