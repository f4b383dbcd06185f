use metrics_agent::agent::{format_stage_step, on_scrape_result, write_stage_step, TickAction};
use metrics_agent::error::AgentError;
use metrics_agent::formatter::MetricsFormatter;
use metrics_agent::labels::LabelSet;
use metrics_agent::model::{GroupKey, GroupKind, MetricGroup, MetricsMessage, SimpleMetric};
use metrics_agent::pipeline::{concat_texts, Batcher};
use metrics_agent::remote_write::write_outcome;

fn message(i: u64) -> MetricsMessage {
    let g = MetricGroup {
        name: "up".to_string(),
        metrics: GroupKind::Gauge(vec![(
            GroupKey { labels: LabelSet::new(), timestamp: None },
            SimpleMetric { value: i.to_string() },
        )]),
    };
    MetricsMessage { target_url: "http://t/metrics".to_string(), metrics: vec![g], scraped_at_ms: i }
}

#[test]
fn below_threshold_flushes_once_on_close() {
    let mut b: Batcher<u32> = Batcher::new(32);
    for i in 0..31u32 {
        assert!(b.push(i).is_none());
    }
    let batch = b.close().expect("a partial batch on close");
    assert_eq!(batch, (0..31u32).collect::<Vec<_>>());
    assert!(b.close().is_none());
    assert_eq!(b.len(), 0);
}

#[test]
fn threshold_flushes_full_batches_in_order() {
    let mut b: Batcher<u32> = Batcher::new(3);
    let mut out = Vec::new();
    for i in 0..8u32 {
        if let Some(batch) = b.push(i) {
            assert_eq!(batch.len(), 3);
            out.push(batch);
        }
    }
    assert_eq!(out, vec![vec![0, 1, 2], vec![3, 4, 5]]);
    assert_eq!(b.close(), Some(vec![6, 7]));
}

#[test]
fn close_on_empty_batcher_gives_nothing() {
    let mut b: Batcher<String> = Batcher::new(128);
    assert_eq!(b.threshold(), 128);
    assert!(b.close().is_none());
}

#[test]
fn format_stage_flushes_on_close() {
    let f = MetricsFormatter;
    let mut b = Batcher::new(32);
    for i in 0..31 {
        assert!(format_stage_step(&f, &mut b, Some(message(i))).is_none());
    }
    let text = format_stage_step(&f, &mut b, None).expect("flush on close");
    let expected: String = (0..31).map(|i| format!("up{{}} {}\n", i)).collect();
    assert_eq!(text, expected);
    assert!(format_stage_step(&f, &mut b, None).is_none());
}

#[test]
fn format_stage_flushes_at_threshold() {
    let f = MetricsFormatter;
    let mut b = Batcher::new(2);
    assert!(format_stage_step(&f, &mut b, Some(message(1))).is_none());
    assert_eq!(format_stage_step(&f, &mut b, Some(message(2))), Some("up{} 1\nup{} 2\n".to_string()));
    assert_eq!(b.len(), 0);
}

#[test]
fn write_stage_joins_without_delimiter() {
    let mut b = Batcher::new(2);
    assert!(write_stage_step(&mut b, Some("a 1\n".to_string())).is_none());
    assert_eq!(write_stage_step(&mut b, Some("b 2\n".to_string())), Some("a 1\nb 2\n".to_string()));
    assert!(write_stage_step(&mut b, Some("c 3\n".to_string())).is_none());
    assert_eq!(write_stage_step(&mut b, None), Some("c 3\n".to_string()));
    assert!(write_stage_step(&mut b, None).is_none());
}

#[test]
fn write_batches_never_exceed_threshold() {
    let mut b = Batcher::new(128);
    let mut sent = 0;
    for i in 0..300 {
        if write_stage_step(&mut b, Some(format!("{}\n", i))).is_some() {
            sent += 1;
        }
        assert!(b.len() < 128);
    }
    assert_eq!(sent, 2);
    assert_eq!(b.len(), 300 - 256);
}

#[test]
fn concat_texts_keeps_order() {
    let t = vec!["x".to_string(), String::new(), "yz".to_string()];
    assert_eq!(concat_texts(&t), "xyz");
    assert_eq!(concat_texts(&vec![]), "");
}

#[test]
fn write_status_classification() {
    assert!(write_outcome(200).is_ok());
    assert!(write_outcome(204).is_ok());
    assert!(write_outcome(299).is_ok());
    for s in [100u16, 199, 301, 400, 500, 0] {
        match write_outcome(s) {
            Err(AgentError::Write(m)) => assert_eq!(m, format!("status {}", s)),
            _ => panic!("status {} must fail", s),
        }
    }
}

#[test]
fn decode_failure_does_not_stop_schedule() {
    let first = on_scrape_result(Err(AgentError::Decode("bad line".to_string())));
    assert!(matches!(first, TickAction::LogAndContinue(AgentError::Decode(_))));
    let next = on_scrape_result(Ok(message(7)));
    match next {
        TickAction::Enqueue(m) => assert_eq!(m.scraped_at_ms, 7),
        _ => panic!("a good scrape is enqueued"),
    }
}
