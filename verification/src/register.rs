//! Building instruments and the registry of the well-known metrics.

use vstd::prelude::*;
use vstd::string::StringExecFns;
use crate::config::ConfigMetrics;
use crate::host::{local_hostname, zonename_from};
use crate::instruments::{counter_vec_with_opts, counter_with_opts, gauge_with_opts, histogram_with_opts, no_children, register_counter, register_counter_vec, register_gauge, register_histogram, valid_label_name, valid_metric_name, Description};
use crate::labels::{const_labels, const_labels_of, lemma_label_names_differ, LabelSet, SharedLabels, DATACENTER_LABEL, SERVER_LABEL, SERVICE_LABEL, ZONENAME_LABEL};
use crate::registry::{MetricValue, Metrics, MetricsMap, ASSIGNMENT_TIME, BYTES_COUNT, ERROR_COUNT, OBJECT_COUNT, REQUEST_COUNT};

verus! {

/// Why the metrics backend refused something.
pub enum MetricsError {
    /// It refused to make the instrument `name`.
    Create { name: String, cause: prometheus::Error },
    /// It refused to register the instrument `name` with the process.
    Register { name: String, cause: prometheus::Error },
    /// It failed to encode a snapshot.
    Encode { cause: prometheus::Error },
}

/// What becomes of an attempt to make the instrument `name`.
pub open spec fn created_as<T>(name: Seq<char>, made: Result<T, prometheus::Error>, outcome: Result<T, MetricsError>) -> bool {
    match made {
        Ok(instrument) => outcome == Ok::<T, MetricsError>(instrument),
        Err(cause) => outcome matches Err(MetricsError::Create { name: n, cause: c }) && n@ == name && c
            == cause,
    }
}

/// What becomes of an attempt to register the instrument `name`.
pub open spec fn registered_as(name: Seq<char>, answer: Result<(), prometheus::Error>, outcome: Result<(), MetricsError>) -> bool {
    match answer {
        Ok(_) => outcome is Ok,
        Err(cause) => outcome matches Err(MetricsError::Register { name: n, cause: c }) && n@ == name && c
            == cause,
    }
}

/// Turns the backend's answer to making the instrument `name` into this
/// library's: the instrument, or the refusal with the name.
pub fn created<T>(name: &str, made: Result<T, prometheus::Error>) -> (outcome: Result<T, MetricsError>)
    ensures
        created_as(name@, made, outcome),
{
    match made {
        Ok(instrument) => Ok(instrument),
        Err(cause) => Err(MetricsError::Create { name: String::from_str(name), cause }),
    }
}

/// Turns the backend's answer to registering the instrument `name` into this
/// library's.
pub fn registered(name: &str, answer: Result<(), prometheus::Error>) -> (outcome: Result<(), MetricsError>)
    ensures
        registered_as(name@, answer, outcome),
{
    match answer {
        Ok(_) => Ok(()),
        Err(cause) => Err(MetricsError::Register { name: String::from_str(name), cause }),
    }
}

/// The refusal, if any, is one to make the instrument `name`.
pub open spec fn fails_only_creating<T>(outcome: Result<T, MetricsError>, name: Seq<char>) -> bool {
    outcome matches Err(error) ==> error matches MetricsError::Create { name: n, .. } && n@ == name
}

/// The metrics backend accepts the name of every label of the set: a letter
/// or `_`, then letters, digits and `_`.
pub open spec fn accepts_labels(labels: Map<Seq<char>, Seq<char>>) -> bool {
    forall|name: Seq<char>| labels.contains_key(name) ==> valid_label_name(name)
}

/// The metrics backend makes an instrument of this name, help text and
/// labels: the help text is not empty, the name is a letter, `_` or `:`
/// followed by letters, digits, `_` and `:`, and it accepts every label name.
pub open spec fn makes_instrument(name: Seq<char>, help: Seq<char>, labels: Map<Seq<char>, Seq<char>>) -> bool {
    &&& help.len() > 0
    &&& valid_metric_name(name)
    &&& accepts_labels(labels)
}

/// What an instrument is made with.
pub open spec fn described(
    name: Seq<char>,
    help: Seq<char>,
    labels: Map<Seq<char>, Seq<char>>,
    bucket_label: Option<Seq<char>>,
) -> Description {
    Description { name, help, labels, bucket_label }
}

/// Makes a counter that holds zero, under `name` and with the labels as its
/// constant labels.
pub fn new_counter(name: &str, help: &str, labels: &LabelSet) -> (made: Result<Metrics, MetricsError>)
    ensures
        made is Ok == makes_instrument(name@, help@, labels@),
        made matches Ok(metric) ==> metric.value() == MetricValue::Counter(0) && metric.made()
            == described(name@, help@, labels@, None),
        fails_only_creating(made, name@),
{
    proof {
        labels.lemma_view_of_bindings();
        labels.lemma_names_of_labels();
    }
    match created(name, counter_with_opts(name, help, labels.as_vec())) {
        Ok(counter) => Ok(Metrics::MetricsCounter(counter)),
        Err(error) => Err(error),
    }
}

/// Makes a counter vector without buckets, under `name` and with the labels
/// as its constant labels. The label `bucket_label` tells its buckets apart,
/// and the backend must accept that name too.
pub fn new_counter_vec(name: &str, help: &str, bucket_label: &str, labels: &LabelSet) -> (made: Result<
    Metrics,
    MetricsError,
>)
    ensures
        made is Ok == (makes_instrument(name@, help@, labels@) && valid_label_name(bucket_label@)),
        made matches Ok(metric) ==> metric.value() == MetricValue::CounterVec(no_children())
            && metric.made() == described(name@, help@, labels@, Some(bucket_label@)),
        fails_only_creating(made, name@),
{
    proof {
        labels.lemma_view_of_bindings();
        labels.lemma_names_of_labels();
    }
    match created(name, counter_vec_with_opts(name, help, bucket_label, labels.as_vec())) {
        Ok(vec) => Ok(Metrics::MetricsCounterVec(vec)),
        Err(error) => Err(error),
    }
}

/// Makes a gauge that holds zero, under `name` and with the labels as its
/// constant labels.
pub fn new_gauge(name: &str, help: &str, labels: &LabelSet) -> (made: Result<Metrics, MetricsError>)
    ensures
        made is Ok == makes_instrument(name@, help@, labels@),
        made matches Ok(metric) ==> metric.value() == MetricValue::Gauge(0) && metric.made()
            == described(name@, help@, labels@, None),
        fails_only_creating(made, name@),
{
    proof {
        labels.lemma_view_of_bindings();
        labels.lemma_names_of_labels();
    }
    match created(name, gauge_with_opts(name, help, labels.as_vec())) {
        Ok(gauge) => Ok(Metrics::MetricsGauge(gauge)),
        Err(error) => Err(error),
    }
}

/// The name that the backend keeps for the bounds of a histogram's buckets.
/// No label of a histogram may have it.
pub const BOUND_LABEL: &'static str = "le";

/// Makes a histogram without observations, under `name`, with the labels as
/// its constant labels and the backend's default buckets.
pub fn new_histogram(name: &str, help: &str, labels: &LabelSet) -> (made: Result<Metrics, MetricsError>)
    ensures
        made is Ok == (makes_instrument(name@, help@, labels@) && !labels@.contains_key(BOUND_LABEL@)),
        made matches Ok(metric) ==> metric.value() == MetricValue::Histogram(0) && metric.made()
            == described(name@, help@, labels@, None),
        fails_only_creating(made, name@),
{
    proof {
        labels.lemma_view_of_bindings();
        labels.lemma_names_of_labels();
    }
    match created(name, histogram_with_opts(name, help, labels.as_vec())) {
        Ok(histogram) => Ok(Metrics::MetricsHistogram(histogram)),
        Err(error) => Err(error),
    }
}

/// Registers an instrument with the process, so that snapshots show it. The
/// backend decides: it refuses an instrument whose name and labels the
/// process has registered already.
pub fn register(name: &str, metric: &Metrics) -> (outcome: Result<(), MetricsError>)
    ensures
        outcome matches Err(error) ==> error matches MetricsError::Register { name: n, .. } && n@
            == name@,
{
    let answer = match metric {
        Metrics::MetricsCounterVec(vec) => register_counter_vec(vec),
        Metrics::MetricsCounter(counter) => register_counter(counter),
        Metrics::MetricsGauge(gauge) => register_gauge(gauge),
        Metrics::MetricsHistogram(histogram) => register_histogram(histogram),
    };
    registered(name, answer)
}

/// Help text of the counter vector of requests handled.
pub const REQUEST_HELP: &'static str = "Total number of requests handled.";

/// Help text of the counter vector of objects processed.
pub const OBJECT_HELP: &'static str = "Total number of objects processed.";

/// Help text of the counter vector of errors encountered.
pub const ERROR_HELP: &'static str = "Errors encountered.";

/// Help text of the counter of bytes transferred.
pub const BYTES_HELP: &'static str = "Bytes transferred.";

/// Help text of the histogram of assignment completion times.
pub const ASSIGNMENT_HELP: &'static str = "Assignment completion time";

/// The label that tells the kinds of request apart.
pub const REQUEST_BUCKETS: &'static str = "req";

/// The label that tells the kinds of object apart.
pub const OBJECT_BUCKETS: &'static str = "type";

/// The label that tells the kinds of error apart.
pub const ERROR_BUCKETS: &'static str = "error";

/// The five well-known names are five different names.
pub proof fn lemma_metric_names_differ()
    ensures
        REQUEST_COUNT@ != OBJECT_COUNT@,
        REQUEST_COUNT@ != ERROR_COUNT@,
        REQUEST_COUNT@ != BYTES_COUNT@,
        REQUEST_COUNT@ != ASSIGNMENT_TIME@,
        OBJECT_COUNT@ != ERROR_COUNT@,
        OBJECT_COUNT@ != BYTES_COUNT@,
        OBJECT_COUNT@ != ASSIGNMENT_TIME@,
        ERROR_COUNT@ != BYTES_COUNT@,
        ERROR_COUNT@ != ASSIGNMENT_TIME@,
        BYTES_COUNT@ != ASSIGNMENT_TIME@,
{
    reveal_strlit("request_count");
    reveal_strlit("object_count");
    reveal_strlit("error_count");
    reveal_strlit("bytes_count");
    reveal_strlit("assignment_time");
    assert(REQUEST_COUNT@.len() == 13);
    assert(OBJECT_COUNT@.len() == 12);
    assert(ERROR_COUNT@.len() == 11);
    assert(BYTES_COUNT@.len() == 11);
    assert(ASSIGNMENT_TIME@.len() == 15);
    assert(ERROR_COUNT@[0] == 'e');
    assert(BYTES_COUNT@[0] == 'b');
}

/// The backend accepts the well-known names, help texts and bucket labels,
/// and the names of the constant labels.
pub proof fn lemma_well_known_accepted()
    ensures
        valid_metric_name(REQUEST_COUNT@),
        valid_metric_name(OBJECT_COUNT@),
        valid_metric_name(ERROR_COUNT@),
        valid_metric_name(BYTES_COUNT@),
        valid_metric_name(ASSIGNMENT_TIME@),
        REQUEST_HELP@.len() > 0,
        OBJECT_HELP@.len() > 0,
        ERROR_HELP@.len() > 0,
        BYTES_HELP@.len() > 0,
        ASSIGNMENT_HELP@.len() > 0,
        valid_label_name(REQUEST_BUCKETS@),
        valid_label_name(OBJECT_BUCKETS@),
        valid_label_name(ERROR_BUCKETS@),
        valid_label_name(SERVICE_LABEL@),
        valid_label_name(SERVER_LABEL@),
        valid_label_name(DATACENTER_LABEL@),
        valid_label_name(ZONENAME_LABEL@),
        SERVICE_LABEL@ != BOUND_LABEL@,
        SERVER_LABEL@ != BOUND_LABEL@,
        DATACENTER_LABEL@ != BOUND_LABEL@,
        ZONENAME_LABEL@ != BOUND_LABEL@,
{
    reveal_strlit("request_count");
    reveal_strlit("object_count");
    reveal_strlit("error_count");
    reveal_strlit("bytes_count");
    reveal_strlit("assignment_time");
    reveal_strlit("Total number of requests handled.");
    reveal_strlit("Total number of objects processed.");
    reveal_strlit("Errors encountered.");
    reveal_strlit("Bytes transferred.");
    reveal_strlit("Assignment completion time");
    reveal_strlit("req");
    reveal_strlit("type");
    reveal_strlit("error");
    reveal_strlit("service");
    reveal_strlit("server");
    reveal_strlit("datacenter");
    reveal_strlit("zonename");
    reveal_strlit("le");
    assert(BOUND_LABEL@.len() == 2);
    assert(SERVICE_LABEL@.len() == 7);
    assert(SERVER_LABEL@.len() == 6);
    assert(DATACENTER_LABEL@.len() == 10);
    assert(ZONENAME_LABEL@.len() == 8);
}

/// The registry as it is right after it was built: the five well-known
/// instruments under their names, and nothing counted or observed yet.
pub open spec fn is_fresh_registry(metrics: Map<Seq<char>, MetricValue>) -> bool {
    &&& metrics.dom() == set![
        REQUEST_COUNT@,
        OBJECT_COUNT@,
        ERROR_COUNT@,
        BYTES_COUNT@,
        ASSIGNMENT_TIME@,
    ]
    &&& metrics[REQUEST_COUNT@] == MetricValue::CounterVec(no_children())
    &&& metrics[OBJECT_COUNT@] == MetricValue::CounterVec(no_children())
    &&& metrics[ERROR_COUNT@] == MetricValue::CounterVec(no_children())
    &&& metrics[BYTES_COUNT@] == MetricValue::Counter(0)
    &&& metrics[ASSIGNMENT_TIME@] == MetricValue::Histogram(0)
}

/// Each of the five well-known instruments was made under the name that it is
/// bound to, with its help text, with the labels as its constant labels and,
/// where it is a counter vector, with the label that tells its buckets apart.
pub open spec fn made_well_known(made: Map<Seq<char>, Description>, labels: Map<Seq<char>, Seq<char>>) -> bool {
    &&& made.dom() == set![
        REQUEST_COUNT@,
        OBJECT_COUNT@,
        ERROR_COUNT@,
        BYTES_COUNT@,
        ASSIGNMENT_TIME@,
    ]
    &&& made[REQUEST_COUNT@] == described(REQUEST_COUNT@, REQUEST_HELP@, labels, Some(REQUEST_BUCKETS@))
    &&& made[OBJECT_COUNT@] == described(OBJECT_COUNT@, OBJECT_HELP@, labels, Some(OBJECT_BUCKETS@))
    &&& made[ERROR_COUNT@] == described(ERROR_COUNT@, ERROR_HELP@, labels, Some(ERROR_BUCKETS@))
    &&& made[BYTES_COUNT@] == described(BYTES_COUNT@, BYTES_HELP@, labels, None)
    &&& made[ASSIGNMENT_TIME@] == described(ASSIGNMENT_TIME@, ASSIGNMENT_HELP@, labels, None)
}

/// The refusal, if any, is one to register the instrument `name`.
pub open spec fn fails_only_registering<T>(outcome: Result<T, MetricsError>, name: Seq<char>) -> bool {
    outcome matches Err(error) ==> error matches MetricsError::Register { name: n, .. } && n@ == name
}

/// Registers an instrument that was made and binds it in the registry; hands
/// on the refusal where it is not registered.
fn install(metrics: &mut MetricsMap, name: &str, made: Result<Metrics, MetricsError>) -> (done: Result<
    (),
    MetricsError,
>)
    requires
        made is Ok,
    ensures
        match done {
            Ok(_) => made matches Ok(metric) && final(metrics)@ == old(metrics)@.insert(
                name@,
                metric.value(),
            ) && final(metrics).made() == old(metrics).made().insert(name@, metric.made()),
            Err(_) => final(metrics)@ == old(metrics)@ && final(metrics).made() == old(metrics).made(),
        },
        fails_only_registering(done, name@),
{
    match made {
        Ok(metric) => match register(name, &metric) {
            Ok(_) => {
                metrics.insert(name, metric);
                Ok(())
            },
            Err(error) => Err(error),
        },
        Err(error) => Err(error),
    }
}

/// The refusal, if any, is one to register one of the five well-known
/// instruments. None of them is refused when it is made: the backend accepts
/// their names, help texts and labels.
pub open spec fn fails_only_on_well_known<T>(outcome: Result<T, MetricsError>) -> bool {
    ||| fails_only_registering(outcome, REQUEST_COUNT@)
    ||| fails_only_registering(outcome, OBJECT_COUNT@)
    ||| fails_only_registering(outcome, ERROR_COUNT@)
    ||| fails_only_registering(outcome, BYTES_COUNT@)
    ||| fails_only_registering(outcome, ASSIGNMENT_TIME@)
}

/// Builds the registry for a configuration on the host `zonename`: publishes
/// the constant labels, then makes the five well-known instruments with
/// those labels, registers each with the process and binds it under its
/// name. It stops at the first instrument that the process refuses to
/// register; the labels are published even then.
pub fn register_metrics_on(config: &ConfigMetrics, zonename: String, shared: &mut SharedLabels) -> (built:
    Result<MetricsMap, MetricsError>)
    ensures
        final(shared).published() == Some(const_labels_of(*config, zonename@)),
        built matches Ok(metrics) ==> is_fresh_registry(metrics@) && made_well_known(
            metrics.made(),
            const_labels_of(*config, zonename@),
        ),
        fails_only_on_well_known(built),
{
    let labels = const_labels(config, zonename);
    shared.publish(labels.clone());
    let mut metrics = MetricsMap::new();
    proof {
        lemma_metric_names_differ();
        lemma_label_names_differ();
        lemma_well_known_accepted();
        assert(accepts_labels(labels@));
        assert(!labels@.contains_key(BOUND_LABEL@));
    }

    let requests = new_counter_vec(REQUEST_COUNT, REQUEST_HELP, REQUEST_BUCKETS, &labels);
    if let Err(error) = install(&mut metrics, REQUEST_COUNT, requests) {
        return Err(error);
    }
    let objects = new_counter_vec(OBJECT_COUNT, OBJECT_HELP, OBJECT_BUCKETS, &labels);
    if let Err(error) = install(&mut metrics, OBJECT_COUNT, objects) {
        return Err(error);
    }
    let errors = new_counter_vec(ERROR_COUNT, ERROR_HELP, ERROR_BUCKETS, &labels);
    if let Err(error) = install(&mut metrics, ERROR_COUNT, errors) {
        return Err(error);
    }
    let bytes = new_counter(BYTES_COUNT, BYTES_HELP, &labels);
    if let Err(error) = install(&mut metrics, BYTES_COUNT, bytes) {
        return Err(error);
    }
    let times = new_histogram(ASSIGNMENT_TIME, ASSIGNMENT_HELP, &labels);
    if let Err(error) = install(&mut metrics, ASSIGNMENT_TIME, times) {
        return Err(error);
    }
    let ghost names = set![
        REQUEST_COUNT@,
        OBJECT_COUNT@,
        ERROR_COUNT@,
        BYTES_COUNT@,
        ASSIGNMENT_TIME@,
    ];
    assert(metrics@.dom() =~= names);
    assert(metrics.made().dom() =~= names);
    Ok(metrics)
}

/// Builds the registry for a configuration on this host. The zone name is
/// the local host name, or the placeholder where the host name cannot be had.
pub fn register_metrics(config: &ConfigMetrics, shared: &mut SharedLabels) -> (built: Result<
    MetricsMap,
    MetricsError,
>)
    ensures
        exists|zonename: Seq<char>|
            {
                &&& final(shared).published() == Some(#[trigger] const_labels_of(*config, zonename))
                &&& built matches Ok(metrics) ==> made_well_known(
                    metrics.made(),
                    const_labels_of(*config, zonename),
                )
            },
        built matches Ok(metrics) ==> is_fresh_registry(metrics@),
        fails_only_on_well_known(built),
{
    let zonename = zonename_from(local_hostname());
    register_metrics_on(config, zonename, shared)
}

} // verus!
