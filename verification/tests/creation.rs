use rebalancer_metrics::labels::LabelSet;
use rebalancer_metrics::register::{
    created, new_counter, new_counter_vec, new_gauge, new_histogram, registered, MetricsError,
};
use rebalancer_metrics::registry::{
    Metrics, MetricsMap, ASSIGNMENT_TIME, BYTES_COUNT, ERROR_COUNT, OBJECT_COUNT, REQUEST_COUNT,
};
use rebalancer_metrics::update::histogram_for;

fn create_error_name(made: Result<Metrics, MetricsError>) -> Option<String> {
    match made {
        Err(MetricsError::Create { name, .. }) => Some(name),
        _ => None,
    }
}

#[test]
fn well_known_names() {
    assert_eq!(OBJECT_COUNT, "object_count");
    assert_eq!(ERROR_COUNT, "error_count");
    assert_eq!(REQUEST_COUNT, "request_count");
    assert_eq!(BYTES_COUNT, "bytes_count");
    assert_eq!(ASSIGNMENT_TIME, "assignment_time");
}

#[test]
fn constructors_give_the_kind_asked_for() {
    let labels = LabelSet::new();
    assert!(matches!(new_counter("a", "A.", &labels), Ok(Metrics::MetricsCounter(_))));
    assert!(matches!(new_counter_vec("b", "B.", "kind", &labels), Ok(Metrics::MetricsCounterVec(_))));
    assert!(matches!(new_gauge("c", "C.", &labels), Ok(Metrics::MetricsGauge(_))));
    assert!(matches!(new_histogram("d", "D.", &labels), Ok(Metrics::MetricsHistogram(_))));
}

#[test]
fn invalid_metric_name_is_refused_with_the_name() {
    let labels = LabelSet::new();
    assert_eq!(
        create_error_name(new_counter("9lives", "Lives.", &labels)),
        Some(String::from("9lives"))
    );
    assert_eq!(
        create_error_name(new_gauge("in-flight", "In flight.", &labels)),
        Some(String::from("in-flight"))
    );
    assert_eq!(
        create_error_name(new_counter_vec("", "Nothing.", "kind", &labels)),
        Some(String::new())
    );
    assert_eq!(
        create_error_name(new_histogram("a b", "Spaced.", &labels)),
        Some(String::from("a b"))
    );
}

#[test]
fn empty_help_is_refused() {
    let labels = LabelSet::new();
    assert_eq!(create_error_name(new_counter("lives", "", &labels)), Some(String::from("lives")));
}

#[test]
fn invalid_label_name_is_refused() {
    let mut labels = LabelSet::new();
    labels.insert(String::from("data-center"), String::from("east"));
    assert_eq!(
        create_error_name(new_counter("lives", "Lives.", &labels)),
        Some(String::from("lives"))
    );
}

#[test]
fn created_keeps_the_instrument_or_names_the_refusal() {
    let kept: Result<u32, MetricsError> = created("lives", Ok(9));
    assert!(matches!(kept, Ok(9)));
    let refused: Result<u32, MetricsError> =
        created("lives", Err(prometheus::Error::Msg(String::from("bad"))));
    match refused {
        Err(MetricsError::Create { name, cause }) => {
            assert_eq!(name, "lives");
            assert_eq!(cause.to_string(), "Error: bad");
        }
        _ => panic!("a refusal must give the create error"),
    }
}

#[test]
fn registered_keeps_success_or_names_the_refusal() {
    assert!(registered("lives", Ok(())).is_ok());
    match registered("lives", Err(prometheus::Error::AlreadyReg)) {
        Err(MetricsError::Register { name, cause }) => {
            assert_eq!(name, "lives");
            assert!(matches!(cause, prometheus::Error::AlreadyReg));
        }
        _ => panic!("a refusal must give the register error"),
    }
}

fn made_histogram(name: &str, help: &str, labels: &LabelSet) -> MetricsMap {
    let mut metrics = MetricsMap::new();
    match new_histogram(name, help, labels) {
        Ok(histogram) => metrics.insert(name, histogram),
        Err(_) => panic!("a histogram must be made"),
    }
    metrics
}

fn carried(metrics: &mut MetricsMap, name: &str) -> Vec<(String, String)> {
    let histogram = histogram_for(metrics, name).ok().unwrap();
    prometheus::core::Collector::desc(histogram)[0]
        .const_label_pairs
        .iter()
        .map(|pair| (String::from(pair.get_name()), String::from(pair.get_value())))
        .collect()
}

#[test]
fn histogram_is_made_under_its_name() {
    let labels = LabelSet::new();
    let mut first = made_histogram("assignment_time", "Assignment completion time", &labels);
    let mut second = made_histogram("wait_time", "Waiting time", &labels);
    {
        let histogram = histogram_for(&mut first, "assignment_time").ok().unwrap();
        let described = prometheus::core::Collector::desc(histogram);
        assert_eq!(described.len(), 1);
        assert_eq!(described[0].fq_name, "assignment_time");
        assert_eq!(described[0].help, "Assignment completion time");
        assert!(described[0].variable_labels.is_empty());
    }
    let histogram = histogram_for(&mut second, "wait_time").ok().unwrap();
    assert_eq!(prometheus::core::Collector::desc(histogram)[0].fq_name, "wait_time");
}

#[test]
fn instrument_carries_the_labels_with_the_later_binding_of_a_name() {
    let mut labels = LabelSet::new();
    labels.insert(String::from("service"), String::from("a"));
    labels.insert(String::from("server"), String::from("b"));
    labels.insert(String::from("service"), String::from("c"));
    let mut metrics = made_histogram("wait_time", "Waiting time", &labels);
    assert_eq!(
        carried(&mut metrics, "wait_time"),
        vec![
            (String::from("server"), String::from("b")),
            (String::from("service"), String::from("c")),
        ]
    );
}

#[test]
fn instrument_without_labels_carries_none() {
    let mut metrics = made_histogram("wait_time", "Waiting time", &LabelSet::new());
    assert!(carried(&mut metrics, "wait_time").is_empty());
}

fn one_label(name: &str) -> LabelSet {
    let mut labels = LabelSet::new();
    labels.insert(String::from(name), String::from("value"));
    labels
}

#[test]
fn metric_names_that_the_backend_accepts() {
    let labels = LabelSet::new();
    for name in ["a", "_", ":", "A9", "a_b_9_d:x_", "_9", ":9", "Zz", "request_count"] {
        assert!(new_counter(name, "Help.", &labels).is_ok());
        assert!(new_gauge(name, "Help.", &labels).is_ok());
        assert!(new_counter_vec(name, "Help.", "kind", &labels).is_ok());
        assert!(new_histogram(name, "Help.", &labels).is_ok());
    }
}

#[test]
fn metric_names_that_the_backend_refuses() {
    let labels = LabelSet::new();
    for name in ["", "9", "9a", "a-", "a b", "a.b", "\u{e9}t\u{e9}", "a\u{e9}", "@", "[", "`", "{", "/", ";"] {
        assert_eq!(create_error_name(new_counter(name, "Help.", &labels)), Some(String::from(name)));
        assert_eq!(create_error_name(new_gauge(name, "Help.", &labels)), Some(String::from(name)));
        assert_eq!(
            create_error_name(new_counter_vec(name, "Help.", "kind", &labels)),
            Some(String::from(name))
        );
        assert_eq!(create_error_name(new_histogram(name, "Help.", &labels)), Some(String::from(name)));
    }
}

#[test]
fn label_names_that_the_backend_accepts() {
    for label in ["a", "_", "A9", "a_b_9_dx_", "_9", "Zz", "zonename", "le_", "l"] {
        let labels = one_label(label);
        assert!(new_counter("lives", "Help.", &labels).is_ok());
        assert!(new_gauge("lives", "Help.", &labels).is_ok());
        assert!(new_counter_vec("lives", "Help.", label, &labels).is_ok());
        assert!(new_histogram("lives", "Help.", &labels).is_ok());
    }
}

#[test]
fn label_names_that_the_backend_refuses() {
    for label in ["", "9", "9a", "a-", ":", "a:b", "a b", "\u{e9}", "@", "[", "`", "{"] {
        let labels = one_label(label);
        assert!(new_counter("lives", "Help.", &labels).is_err());
        assert!(new_gauge("lives", "Help.", &labels).is_err());
        assert!(new_counter_vec("lives", "Help.", "kind", &labels).is_err());
        assert!(new_histogram("lives", "Help.", &labels).is_err());
        assert!(new_counter_vec("lives", "Help.", label, &LabelSet::new()).is_err());
    }
}

#[test]
fn a_shadowed_label_name_is_still_checked() {
    let mut labels = LabelSet::new();
    labels.insert(String::from("a-b"), String::from("1"));
    labels.insert(String::from("ab"), String::from("2"));
    assert!(new_counter("lives", "Help.", &labels).is_err());
    let mut rebound = LabelSet::new();
    rebound.insert(String::from("ab"), String::from("1"));
    rebound.insert(String::from("ab"), String::from("2"));
    assert!(new_counter("lives", "Help.", &rebound).is_ok());
}

#[test]
fn histogram_refuses_the_label_of_its_bounds() {
    let labels = one_label("le");
    assert_eq!(
        create_error_name(new_histogram("wait_time", "Waiting time", &labels)),
        Some(String::from("wait_time"))
    );
    assert!(new_counter("waits", "Waits.", &labels).is_ok());
    assert!(new_gauge("waiting", "Waiting.", &labels).is_ok());
    assert!(new_counter_vec("waits_by", "Waits.", "le", &labels).is_ok());
}

#[test]
fn help_text_must_not_be_empty() {
    let labels = LabelSet::new();
    assert!(new_counter("lives", "", &labels).is_err());
    assert!(new_gauge("lives", "", &labels).is_err());
    assert!(new_counter_vec("lives", "", "kind", &labels).is_err());
    assert!(new_histogram("lives", "", &labels).is_err());
    assert!(new_counter("lives", " ", &labels).is_ok());
}
