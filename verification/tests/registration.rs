use rebalancer_metrics::config::ConfigMetrics;
use rebalancer_metrics::labels::{get_const_labels, SharedLabels};
use rebalancer_metrics::register::{register_metrics, MetricsError};
use rebalancer_metrics::update::{counter_get, counter_vec_get, histogram_for, histogram_get};

#[test]
fn register_metrics_builds_the_five_instruments_once() {
    let config = ConfigMetrics::default();
    let mut shared = SharedLabels::new();
    assert!(get_const_labels(&shared).is_none());

    let mut metrics = match register_metrics(&config, &mut shared) {
        Ok(metrics) => metrics,
        Err(_) => panic!("the first registration in a process must succeed"),
    };
    for name in ["request_count", "object_count", "error_count", "bytes_count", "assignment_time"] {
        assert!(metrics.contains_key(name));
    }
    assert!(!metrics.contains_key("in_flight"));
    assert_eq!(counter_get(&metrics, "bytes_count"), Some(0));
    assert_eq!(counter_vec_get(&mut metrics, "request_count", "total"), Some(0));
    assert_eq!(counter_vec_get(&mut metrics, "object_count", "total"), Some(0));
    assert_eq!(counter_vec_get(&mut metrics, "error_count", "total"), Some(0));
    assert_eq!(histogram_get(&metrics, "assignment_time"), Some(0));
    {
        let times = histogram_for(&mut metrics, "assignment_time").ok().unwrap();
        let described = prometheus::core::Collector::desc(times);
        assert_eq!(described[0].fq_name, "assignment_time");
        assert_eq!(described[0].help, "Assignment completion time");
        let carried: Vec<&str> = described[0].const_label_pairs.iter().map(|pair| pair.get_name()).collect();
        assert_eq!(carried, vec!["datacenter", "server", "service", "zonename"]);
    }

    let published = get_const_labels(&shared).unwrap();
    assert_eq!(published.get("service").cloned(), Some(String::from("1.rebalancer.localhost")));
    assert_eq!(published.get("server").cloned(), Some(String::from("127.0.0.1")));
    assert_eq!(published.get("datacenter").cloned(), Some(String::from("development")));
    let zonename = published.get("zonename").cloned().unwrap();
    let expected = gethostname::gethostname().into_string().unwrap_or(String::from("unknown"));
    assert_eq!(zonename, expected);

    let mut again = SharedLabels::new();
    match register_metrics(&config, &mut again) {
        Err(MetricsError::Register { name, cause }) => {
            assert_eq!(name, "request_count");
            assert!(matches!(cause, prometheus::Error::AlreadyReg));
        }
        _ => panic!("a second registration in a process must be refused"),
    }
    assert!(get_const_labels(&again).is_some());
}
