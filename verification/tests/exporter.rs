use rebalancer_metrics::exporter::{
    answer_for, listen_address, respond, ScrapeResponse, STATUS_OK, TEXT_FORMAT,
};
use rebalancer_metrics::register::MetricsError;
use rebalancer_metrics::text::decimal_string;

#[test]
fn decimal_of_small_and_large_numbers() {
    assert_eq!(decimal_string(0), "0");
    assert_eq!(decimal_string(7), "7");
    assert_eq!(decimal_string(10), "10");
    assert_eq!(decimal_string(99), "99");
    assert_eq!(decimal_string(100), "100");
    assert_eq!(decimal_string(8878), "8878");
    assert_eq!(decimal_string(40302), "40302");
    assert_eq!(decimal_string(65535), "65535");
}

#[test]
fn decimal_agrees_with_the_standard_library() {
    let mut number: u16 = 0;
    loop {
        assert_eq!(decimal_string(number), number.to_string());
        if number == u16::MAX {
            break;
        }
        number += 1;
    }
}

#[test]
fn listen_address_joins_host_and_port() {
    assert_eq!(listen_address("0.0.0.0", 8878), "0.0.0.0:8878");
    assert_eq!(listen_address("127.0.0.1", 80), "127.0.0.1:80");
    assert_eq!(listen_address("localhost", 0), "localhost:0");
    assert_eq!(listen_address("", 65535), ":65535");
}

#[test]
fn respond_wraps_the_snapshot() {
    let answer = respond(Ok(vec![104, 105, 10]), String::from("text/plain; version=0.0.4"));
    match answer {
        Ok(ScrapeResponse { status, content_type, body }) => {
            assert_eq!(status, 200);
            assert_eq!(status, STATUS_OK);
            assert_eq!(content_type, "text/plain; version=0.0.4");
            assert_eq!(body, vec![104, 105, 10]);
        }
        Err(_) => panic!("an encoded snapshot must give an answer"),
    }
}

#[test]
fn respond_hands_on_the_refusal_of_the_encoder() {
    let refusal = prometheus::Error::Msg(String::from("no metrics"));
    match respond(Err(refusal), String::from("text/plain")) {
        Err(MetricsError::Encode { cause }) => {
            assert_eq!(cause.to_string(), "Error: no metrics");
        }
        _ => panic!("a refusal must give the encode error"),
    }
}

#[test]
fn answer_for_no_families_is_empty() {
    match answer_for(&Vec::new()) {
        Ok(response) => {
            assert_eq!(response.status, 200);
            assert_eq!(response.content_type, TEXT_FORMAT);
            assert_eq!(response.content_type, "text/plain; version=0.0.4");
            assert!(response.body.is_empty());
        }
        Err(_) => panic!("no families must give an empty answer"),
    }
}

#[test]
fn answer_for_a_family_is_its_exposition() {
    let counter = prometheus::IntCounter::new("lives", "Lives left.").unwrap();
    counter.inc_by(9);
    let families = prometheus::core::Collector::collect(&counter);
    match answer_for(&families) {
        Ok(response) => {
            assert_eq!(
                String::from_utf8(response.body).unwrap(),
                "# HELP lives Lives left.\n# TYPE lives counter\nlives 9\n"
            );
        }
        Err(_) => panic!("a well-formed family must give an answer"),
    }
}

#[test]
fn answer_for_a_family_without_metrics_is_the_encode_error() {
    let families = vec![prometheus::proto::MetricFamily::default()];
    assert!(matches!(answer_for(&families), Err(MetricsError::Encode { .. })));
}
