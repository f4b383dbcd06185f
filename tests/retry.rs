use metrics_agent::error::AgentError;
use metrics_agent::scraper::{ScrapeRetry, TargetScraper};
use std::time::Duration;

#[test]
fn always_failing_transport_makes_exactly_max_attempts() {
    let mut r = ScrapeRetry::new(3);
    let mut attempts = 0;
    let mut delays = Vec::new();
    let last = loop {
        attempts += 1;
        match r.record_failure(AgentError::Transport(format!("attempt {}", attempts))) {
            Ok(d) => delays.push(d),
            Err(e) => break e,
        }
    };
    assert_eq!(attempts, 3);
    assert_eq!(r.attempts(), 3);
    assert_eq!(delays, vec![100, 10000]);
    match last {
        AgentError::Transport(m) => assert_eq!(m, "attempt 3"),
        _ => panic!("the last transport error surfaces"),
    }
}

#[test]
fn backoff_grows_and_is_capped() {
    let mut r = ScrapeRetry::new(5);
    let mut delays = Vec::new();
    while let Ok(d) = r.record_failure(AgentError::Timeout) {
        delays.push(d);
    }
    assert_eq!(delays, vec![100, 10000, 10000, 10000]);
}

#[test]
fn decode_error_is_never_retried() {
    let mut r = ScrapeRetry::new(10);
    assert!(r.record_failure(AgentError::Timeout).is_ok());
    match r.record_failure(AgentError::Decode("x".to_string())) {
        Err(AgentError::Decode(m)) => assert_eq!(m, "x"),
        _ => panic!("decode failures give up at once"),
    }
}

#[test]
fn zero_attempts_still_tries_once() {
    let mut r = ScrapeRetry::new(0);
    assert!(matches!(r.record_failure(AgentError::Timeout), Err(AgentError::Timeout)));
}

#[test]
fn scraper_starts_each_scrape_fresh() {
    let s = TargetScraper::new(
        "http://127.0.0.1:9100/metrics".to_string(),
        reqwest::Client::new(),
        Duration::from_secs(5),
        2,
    );
    assert_eq!(s.target_url(), "http://127.0.0.1:9100/metrics");
    assert_eq!(s.timeout(), Duration::from_secs(5));
    let mut r = s.start_scrape();
    assert_eq!(r.attempts(), 0);
    assert!(r.record_failure(AgentError::Timeout).is_ok());
    assert!(r.record_failure(AgentError::Timeout).is_err());
}
