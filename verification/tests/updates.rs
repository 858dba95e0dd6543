use rebalancer_metrics::labels::LabelSet;
use rebalancer_metrics::register::{new_counter, new_counter_vec, new_gauge, new_histogram};
use rebalancer_metrics::registry::MetricsMap;
use rebalancer_metrics::update::{
    counter_get, counter_inc_by, counter_vec_get, counter_vec_inc, counter_vec_inc_by, gauge_dec,
    gauge_get, gauge_inc, gauge_set, histogram_for, histogram_get, invalid_metric,
};

fn sample_registry() -> MetricsMap {
    let labels = LabelSet::new();
    let mut metrics = MetricsMap::new();
    metrics.insert(
        "bytes_count",
        new_counter("bytes_count", "Bytes transferred.", &labels).ok().unwrap(),
    );
    metrics.insert(
        "request_count",
        new_counter_vec("request_count", "Requests handled.", "req", &labels).ok().unwrap(),
    );
    metrics.insert(
        "in_flight",
        new_gauge("in_flight", "Requests in flight.", &labels).ok().unwrap(),
    );
    metrics.insert(
        "assignment_time",
        new_histogram("assignment_time", "Assignment completion time", &labels).ok().unwrap(),
    );
    metrics
}

#[test]
fn fresh_instruments_hold_zero() {
    let mut metrics = sample_registry();
    assert_eq!(counter_get(&metrics, "bytes_count"), Some(0));
    assert_eq!(gauge_get(&metrics, "in_flight"), Some(0));
    assert_eq!(counter_vec_get(&mut metrics, "request_count", "total"), Some(0));
}

#[test]
fn counter_holds_sum_of_deltas() {
    let mut metrics = sample_registry();
    let deltas: Vec<u64> = vec![5, 0, 17, 1, 4096];
    for delta in &deltas {
        assert_eq!(counter_inc_by(&mut metrics, "bytes_count", *delta), None);
    }
    assert_eq!(counter_get(&metrics, "bytes_count"), Some(4119));
}

#[test]
fn counter_sum_does_not_depend_on_order() {
    let mut forward = sample_registry();
    let mut backward = sample_registry();
    let deltas: Vec<u64> = vec![3, 1, 4, 1, 5, 9, 2, 6];
    for delta in deltas.iter() {
        counter_inc_by(&mut forward, "bytes_count", *delta);
    }
    for delta in deltas.iter().rev() {
        counter_inc_by(&mut backward, "bytes_count", *delta);
    }
    assert_eq!(counter_get(&forward, "bytes_count"), Some(31));
    assert_eq!(counter_get(&backward, "bytes_count"), Some(31));
}

#[test]
fn counter_stops_at_the_largest_value() {
    let mut metrics = sample_registry();
    counter_inc_by(&mut metrics, "bytes_count", u64::MAX - 1);
    assert_eq!(counter_get(&metrics, "bytes_count"), Some(u64::MAX - 1));
    assert_eq!(counter_inc_by(&mut metrics, "bytes_count", 3), None);
    assert_eq!(counter_get(&metrics, "bytes_count"), Some(u64::MAX));
    assert_eq!(counter_inc_by(&mut metrics, "bytes_count", 1), None);
    assert_eq!(counter_get(&metrics, "bytes_count"), Some(u64::MAX));
    assert_eq!(counter_inc_by(&mut metrics, "bytes_count", u64::MAX), None);
    assert_eq!(counter_get(&metrics, "bytes_count"), Some(u64::MAX));
}

#[test]
fn counter_never_falls() {
    let mut metrics = sample_registry();
    let mut last = 0;
    for delta in [0, 1, u64::MAX / 2, 0, u64::MAX / 2, 1, 7, u64::MAX, 0] {
        assert_eq!(counter_inc_by(&mut metrics, "bytes_count", delta), None);
        let now = counter_get(&metrics, "bytes_count").unwrap();
        assert!(now >= last);
        assert!(now >= delta);
        last = now;
    }
    assert_eq!(last, u64::MAX);
}

#[test]
fn bucket_stops_at_the_largest_value() {
    if usize::MAX as u64 != u64::MAX {
        return;
    }
    let mut metrics = sample_registry();
    counter_vec_inc_by(&mut metrics, "request_count", Some("GET"), usize::MAX - 1);
    assert_eq!(counter_vec_get(&mut metrics, "request_count", "total"), Some(u64::MAX - 1));
    assert_eq!(counter_vec_inc_by(&mut metrics, "request_count", Some("PUT"), 5), None);
    assert_eq!(counter_vec_get(&mut metrics, "request_count", "total"), Some(u64::MAX));
    assert_eq!(counter_vec_get(&mut metrics, "request_count", "GET"), Some(u64::MAX - 1));
    assert_eq!(counter_vec_get(&mut metrics, "request_count", "PUT"), Some(5));
    assert_eq!(counter_vec_inc(&mut metrics, "request_count", Some("GET")), None);
    assert_eq!(counter_vec_inc(&mut metrics, "request_count", Some("GET")), None);
    assert_eq!(counter_vec_get(&mut metrics, "request_count", "total"), Some(u64::MAX));
    assert_eq!(counter_vec_get(&mut metrics, "request_count", "GET"), Some(u64::MAX));
}

#[test]
fn counter_increment_by_zero_changes_nothing() {
    let mut metrics = sample_registry();
    counter_inc_by(&mut metrics, "bytes_count", 12);
    assert_eq!(counter_inc_by(&mut metrics, "bytes_count", 0), None);
    assert_eq!(counter_get(&metrics, "bytes_count"), Some(12));
}

#[test]
fn counter_vec_without_bucket_counts_total_only() {
    let mut metrics = sample_registry();
    assert_eq!(counter_vec_inc_by(&mut metrics, "request_count", None, 7), None);
    assert_eq!(counter_vec_get(&mut metrics, "request_count", "total"), Some(7));
    assert_eq!(counter_vec_get(&mut metrics, "request_count", "GET"), Some(0));
}

#[test]
fn counter_vec_with_bucket_counts_total_and_bucket() {
    let mut metrics = sample_registry();
    assert_eq!(counter_vec_inc_by(&mut metrics, "request_count", Some("GET"), 7), None);
    assert_eq!(counter_vec_inc_by(&mut metrics, "request_count", Some("POST"), 2), None);
    assert_eq!(counter_vec_get(&mut metrics, "request_count", "total"), Some(9));
    assert_eq!(counter_vec_get(&mut metrics, "request_count", "GET"), Some(7));
    assert_eq!(counter_vec_get(&mut metrics, "request_count", "POST"), Some(2));
    assert_eq!(counter_vec_get(&mut metrics, "request_count", "DELETE"), Some(0));
}

#[test]
fn counter_vec_bucket_named_total_counts_twice() {
    let mut metrics = sample_registry();
    assert_eq!(counter_vec_inc_by(&mut metrics, "request_count", Some("total"), 4), None);
    assert_eq!(counter_vec_get(&mut metrics, "request_count", "total"), Some(8));
}

#[test]
fn counter_vec_inc_adds_one() {
    let mut metrics = sample_registry();
    assert_eq!(counter_vec_inc(&mut metrics, "request_count", Some("GET")), None);
    assert_eq!(counter_vec_inc(&mut metrics, "request_count", Some("GET")), None);
    assert_eq!(counter_vec_inc(&mut metrics, "request_count", None), None);
    assert_eq!(counter_vec_get(&mut metrics, "request_count", "total"), Some(3));
    assert_eq!(counter_vec_get(&mut metrics, "request_count", "GET"), Some(2));
}

#[test]
fn reading_a_bucket_does_not_change_its_value() {
    let mut metrics = sample_registry();
    counter_vec_inc_by(&mut metrics, "request_count", Some("GET"), 5);
    assert_eq!(counter_vec_get(&mut metrics, "request_count", "GET"), Some(5));
    assert_eq!(counter_vec_get(&mut metrics, "request_count", "GET"), Some(5));
    assert_eq!(counter_vec_get(&mut metrics, "request_count", "PUT"), Some(0));
    assert_eq!(counter_vec_get(&mut metrics, "request_count", "PUT"), Some(0));
    assert_eq!(counter_vec_get(&mut metrics, "request_count", "total"), Some(5));
}

#[test]
fn gauge_set_then_read_gives_the_value() {
    let mut metrics = sample_registry();
    assert_eq!(gauge_set(&mut metrics, "in_flight", 42), None);
    assert_eq!(gauge_get(&metrics, "in_flight"), Some(42));
    assert_eq!(gauge_set(&mut metrics, "in_flight", 7), None);
    assert_eq!(gauge_get(&metrics, "in_flight"), Some(7));
    assert_eq!(gauge_set(&mut metrics, "in_flight", 0), None);
    assert_eq!(gauge_get(&metrics, "in_flight"), Some(0));
}

#[test]
fn gauge_set_beyond_the_largest_value_stores_the_largest() {
    let mut metrics = sample_registry();
    assert_eq!(gauge_set(&mut metrics, "in_flight", usize::MAX), None);
    let expected = if (usize::MAX as u64) > (i64::MAX as u64) { i64::MAX } else { usize::MAX as i64 };
    assert_eq!(gauge_get(&metrics, "in_flight"), Some(expected));
}

#[test]
fn gauge_inc_and_dec_move_by_one() {
    let mut metrics = sample_registry();
    assert_eq!(gauge_inc(&mut metrics, "in_flight"), None);
    assert_eq!(gauge_inc(&mut metrics, "in_flight"), None);
    assert_eq!(gauge_inc(&mut metrics, "in_flight"), None);
    assert_eq!(gauge_get(&metrics, "in_flight"), Some(3));
    assert_eq!(gauge_dec(&mut metrics, "in_flight"), None);
    assert_eq!(gauge_get(&metrics, "in_flight"), Some(2));
}

#[test]
fn gauge_dec_goes_below_zero() {
    let mut metrics = sample_registry();
    assert_eq!(gauge_dec(&mut metrics, "in_flight"), None);
    assert_eq!(gauge_get(&metrics, "in_flight"), Some(-1));
}

#[test]
fn gauge_stops_at_the_largest_and_the_smallest_value() {
    let mut metrics = sample_registry();
    gauge_set(&mut metrics, "in_flight", i64::MAX as usize);
    assert_eq!(gauge_get(&metrics, "in_flight"), Some(i64::MAX));
    assert_eq!(gauge_inc(&mut metrics, "in_flight"), None);
    assert_eq!(gauge_get(&metrics, "in_flight"), Some(i64::MAX));
    assert_eq!(gauge_dec(&mut metrics, "in_flight"), None);
    assert_eq!(gauge_get(&metrics, "in_flight"), Some(i64::MAX - 1));

    let mut low = sample_registry();
    gauge_dec(&mut low, "in_flight");
    gauge_set(&mut low, "in_flight", 0);
    assert_eq!(gauge_get(&low, "in_flight"), Some(0));
}

#[test]
fn unbound_key_changes_nothing_and_gives_one_log_line() {
    let mut metrics = sample_registry();
    counter_inc_by(&mut metrics, "bytes_count", 3);
    gauge_set(&mut metrics, "in_flight", 9);
    counter_vec_inc_by(&mut metrics, "request_count", Some("GET"), 2);

    let line = Some(String::from("Invalid metric: no_such_metric"));
    assert_eq!(gauge_inc(&mut metrics, "no_such_metric"), line);
    assert_eq!(gauge_dec(&mut metrics, "no_such_metric"), line);
    assert_eq!(gauge_set(&mut metrics, "no_such_metric", 5), line);
    assert_eq!(counter_inc_by(&mut metrics, "no_such_metric", 5), line);
    assert_eq!(counter_vec_inc(&mut metrics, "no_such_metric", Some("GET")), line);
    assert_eq!(counter_vec_inc_by(&mut metrics, "no_such_metric", None, 5), line);
    assert!(histogram_for(&mut metrics, "no_such_metric").is_err());

    assert_eq!(counter_get(&metrics, "bytes_count"), Some(3));
    assert_eq!(gauge_get(&metrics, "in_flight"), Some(9));
    assert_eq!(counter_vec_get(&mut metrics, "request_count", "total"), Some(2));
    assert_eq!(counter_vec_get(&mut metrics, "request_count", "GET"), Some(2));
    assert_eq!(counter_get(&metrics, "no_such_metric"), None);
    assert_eq!(gauge_get(&metrics, "no_such_metric"), None);
    assert_eq!(counter_vec_get(&mut metrics, "no_such_metric", "GET"), None);
    assert!(!metrics.contains_key("no_such_metric"));
}

#[test]
fn key_of_another_kind_changes_nothing_and_gives_the_log_line() {
    let mut metrics = sample_registry();
    counter_inc_by(&mut metrics, "bytes_count", 3);

    assert_eq!(
        gauge_inc(&mut metrics, "bytes_count"),
        Some(String::from("Invalid metric: bytes_count"))
    );
    assert_eq!(
        gauge_set(&mut metrics, "request_count", 4),
        Some(String::from("Invalid metric: request_count"))
    );
    assert_eq!(
        counter_inc_by(&mut metrics, "in_flight", 4),
        Some(String::from("Invalid metric: in_flight"))
    );
    assert_eq!(
        counter_vec_inc_by(&mut metrics, "assignment_time", Some("GET"), 4),
        Some(String::from("Invalid metric: assignment_time"))
    );
    assert_eq!(
        histogram_for(&mut metrics, "bytes_count").err(),
        Some(String::from("Invalid metric: bytes_count"))
    );

    assert_eq!(counter_get(&metrics, "bytes_count"), Some(3));
    assert_eq!(gauge_get(&metrics, "in_flight"), Some(0));
    assert_eq!(counter_vec_get(&mut metrics, "request_count", "total"), Some(0));
    assert_eq!(gauge_get(&metrics, "bytes_count"), None);
    assert_eq!(counter_get(&metrics, "in_flight"), None);
}

#[test]
fn invalid_metric_line_names_the_key() {
    assert_eq!(invalid_metric("object_count"), "Invalid metric: object_count");
    assert_eq!(invalid_metric(""), "Invalid metric: ");
}

#[test]
fn histogram_is_found_for_observation() {
    let mut metrics = sample_registry();
    assert_eq!(histogram_get(&metrics, "assignment_time"), Some(0));
    {
        let found = histogram_for(&mut metrics, "assignment_time").ok().unwrap();
        found.observe(0.25);
        found.observe(1.5);
        assert_eq!(found.get_sample_count(), 2);
    }
    assert_eq!(histogram_get(&metrics, "assignment_time"), Some(2));
    let again = histogram_for(&mut metrics, "assignment_time").ok().unwrap();
    assert_eq!(again.get_sample_count(), 2);
    assert_eq!(again.get_sample_sum(), 1.75);
}

#[test]
fn finding_a_histogram_leaves_the_other_instruments() {
    let mut metrics = sample_registry();
    counter_inc_by(&mut metrics, "bytes_count", 3);
    gauge_set(&mut metrics, "in_flight", 9);
    assert!(histogram_for(&mut metrics, "assignment_time").is_ok());
    assert_eq!(counter_get(&metrics, "bytes_count"), Some(3));
    assert_eq!(gauge_get(&metrics, "in_flight"), Some(9));
    assert_eq!(histogram_get(&metrics, "bytes_count"), None);
    assert_eq!(histogram_get(&metrics, "no_such_metric"), None);
}

#[test]
fn later_binding_shadows_the_earlier() {
    let labels = LabelSet::new();
    let mut metrics = MetricsMap::new();
    assert!(!metrics.contains_key("depth"));
    metrics.insert("depth", new_counter("depth", "Depth.", &labels).ok().unwrap());
    counter_inc_by(&mut metrics, "depth", 5);
    assert_eq!(counter_get(&metrics, "depth"), Some(5));
    metrics.insert("depth", new_gauge("depth", "Depth.", &labels).ok().unwrap());
    assert!(metrics.contains_key("depth"));
    assert_eq!(counter_get(&metrics, "depth"), None);
    assert_eq!(gauge_get(&metrics, "depth"), Some(0));
    assert_eq!(gauge_set(&mut metrics, "depth", 11), None);
    assert_eq!(gauge_get(&metrics, "depth"), Some(11));
}

#[test]
fn instruments_under_different_names_are_apart() {
    let labels = LabelSet::new();
    let mut metrics = MetricsMap::new();
    metrics.insert("first", new_counter("first", "First.", &labels).ok().unwrap());
    metrics.insert("second", new_counter("second", "Second.", &labels).ok().unwrap());
    counter_inc_by(&mut metrics, "first", 10);
    counter_inc_by(&mut metrics, "second", 1);
    counter_inc_by(&mut metrics, "first", 10);
    assert_eq!(counter_get(&metrics, "first"), Some(20));
    assert_eq!(counter_get(&metrics, "second"), Some(1));
}
