use metrics_agent::formatter::MetricsFormatter;
use metrics_agent::labels::{format_labels, LabelSet};
use metrics_agent::model::{
    GroupKey, GroupKind, HistogramBucket, HistogramMetric, MetricGroup, MetricsMessage,
    SimpleMetric, SummaryMetric, SummaryQuantile,
};
use metrics_agent::remote_write::{
    format_histogram_metric, format_simple_group, format_simple_metric, format_summary_metric,
};
use metrics_agent::text::push_int;

fn labels(pairs: &[(&str, &str)]) -> LabelSet {
    let mut l = LabelSet::new();
    for (k, v) in pairs {
        l.insert(k.to_string(), v.to_string());
    }
    l
}

fn key(pairs: &[(&str, &str)], ts: Option<i64>) -> GroupKey {
    GroupKey { labels: labels(pairs), timestamp: ts }
}

fn simple(v: &str) -> SimpleMetric {
    SimpleMetric { value: v.to_string() }
}

fn summary(qs: &[(&str, &str)], sum: &str, count: &str) -> SummaryMetric {
    SummaryMetric {
        quantiles: qs
            .iter()
            .map(|(q, v)| SummaryQuantile { quantile: q.to_string(), value: v.to_string() })
            .collect(),
        sum: sum.to_string(),
        count: count.to_string(),
    }
}

fn histogram(bs: &[(&str, &str)], sum: &str, count: &str) -> HistogramMetric {
    HistogramMetric {
        buckets: bs
            .iter()
            .map(|(b, c)| HistogramBucket { bucket: b.to_string(), count: c.to_string() })
            .collect(),
        sum: sum.to_string(),
        count: count.to_string(),
    }
}

#[test]
fn labels_render_sorted_by_name() {
    let l = labels(&[("b", "2"), ("a", "1")]);
    assert_eq!(format_labels(&l), "a=\"1\",b=\"2\"");
}

#[test]
fn empty_labels_render_nothing() {
    assert_eq!(format_labels(&LabelSet::new()), "");
}

#[test]
fn single_label_has_no_comma() {
    assert_eq!(format_labels(&labels(&[("job", "node")])), "job=\"node\"");
}

#[test]
fn insert_replaces_existing_value() {
    let l = labels(&[("a", "1"), ("b", "2"), ("a", "3")]);
    assert_eq!(l.len(), 2);
    assert_eq!(format_labels(&l), "a=\"3\",b=\"2\"");
}

#[test]
fn label_order_is_by_code_point() {
    let l = labels(&[("ab", "x"), ("a", "y"), ("B", "z"), ("é", "w")]);
    assert_eq!(format_labels(&l), "B=\"z\",a=\"y\",ab=\"x\",é=\"w\"");
}

#[test]
fn gauge_lines_with_and_without_timestamp() {
    let samples = vec![
        (key(&[], None), simple("1.5")),
        (key(&[("host", "h1")], Some(1700000000000)), simple("2")),
        (key(&[("z", "9"), ("a", "0")], Some(-5)), simple("NaN")),
    ];
    assert_eq!(
        format_simple_metric("up", &samples),
        "up{} 1.5\nup{host=\"h1\"} 2 1700000000000\nup{a=\"0\",z=\"9\"} NaN -5\n"
    );
}

#[test]
fn counter_and_untyped_format_like_gauge() {
    let c = MetricGroup {
        name: "hits".to_string(),
        metrics: GroupKind::Counter(vec![(key(&[("a", "1")], None), simple("7"))]),
    };
    let u = MetricGroup {
        name: "misc".to_string(),
        metrics: GroupKind::Untyped(vec![(key(&[], Some(0)), simple("3"))]),
    };
    assert_eq!(format_simple_group(&c), "hits{a=\"1\"} 7\n");
    assert_eq!(format_simple_group(&u), "misc{} 3 0\n");
}

#[test]
fn summary_example() {
    let samples = vec![(key(&[], None), summary(&[("0.5", "10"), ("0.9", "20")], "30", "3"))];
    assert_eq!(
        format_summary_metric("req_latency", &samples),
        "req_latency{quantile=\"0.5\"} 10\nreq_latency{quantile=\"0.9\"} 20\nreq_latency_sum{} 30\nreq_latency_count{} 3\n"
    );
}

#[test]
fn summary_quantile_label_sorts_among_labels() {
    let samples = vec![(
        key(&[("z", "1"), ("a", "2")], Some(12)),
        summary(&[("0.99", "4")], "8", "2"),
    )];
    assert_eq!(
        format_summary_metric("s", &samples),
        "s{a=\"2\",quantile=\"0.99\",z=\"1\"} 4 12\ns_sum{a=\"2\",z=\"1\"} 8 12\ns_count{a=\"2\",z=\"1\"} 2 12\n"
    );
}

#[test]
fn histogram_buckets_before_sum_and_count() {
    let samples = vec![(
        key(&[], None),
        histogram(&[("0.1", "1"), ("1", "2"), ("+Inf", "3")], "1.5", "3"),
    )];
    assert_eq!(
        format_histogram_metric("rt", &samples),
        "rt_bucket{le=\"0.1\"} 1\nrt_bucket{le=\"1\"} 2\nrt_bucket{le=\"+Inf\"} 3\nrt_sum{} 1.5\nrt_count{} 3\n"
    );
}

#[test]
fn histogram_with_labels_and_timestamp() {
    let samples = vec![(key(&[("method", "get")], Some(99)), histogram(&[("5", "0")], "0", "0"))];
    assert_eq!(
        format_histogram_metric("h", &samples),
        "h_bucket{le=\"5\",method=\"get\"} 0 99\nh_sum{method=\"get\"} 0 99\nh_count{method=\"get\"} 0 99\n"
    );
}

#[test]
fn empty_group_renders_nothing() {
    assert_eq!(format_simple_metric("x", &vec![]), "");
    assert_eq!(format_summary_metric("x", &vec![]), "");
    assert_eq!(format_histogram_metric("x", &vec![]), "");
}

fn sample_batch() -> Vec<MetricsMessage> {
    let g1 = MetricGroup {
        name: "g".to_string(),
        metrics: GroupKind::Gauge(vec![(key(&[("b", "2"), ("a", "1")], None), simple("1"))]),
    };
    let g2 = MetricGroup {
        name: "h".to_string(),
        metrics: GroupKind::Histogram(vec![(key(&[], None), histogram(&[("1", "1")], "1", "1"))]),
    };
    let g3 = MetricGroup {
        name: "s".to_string(),
        metrics: GroupKind::Summary(vec![(key(&[], Some(3)), summary(&[("0.5", "2")], "2", "1"))]),
    };
    vec![
        MetricsMessage { target_url: "t".to_string(), metrics: vec![g1, g2], scraped_at_ms: 1 },
        MetricsMessage { target_url: "t".to_string(), metrics: vec![g3], scraped_at_ms: 2 },
    ]
}

#[test]
fn batch_concatenates_in_input_order() {
    let f = MetricsFormatter;
    let text = f.format_batch(&sample_batch());
    assert_eq!(
        text,
        "g{a=\"1\",b=\"2\"} 1\nh_bucket{le=\"1\"} 1\nh_sum{} 1\nh_count{} 1\ns{quantile=\"0.5\"} 2 3\ns_sum{} 2 3\ns_count{} 1 3\n"
    );
}

#[test]
fn formatting_twice_is_identical() {
    let f = MetricsFormatter;
    let batch = sample_batch();
    assert_eq!(f.format_batch(&batch), f.format_batch(&batch));
}

#[test]
fn format_single_matches_batch_of_one() {
    let f = MetricsFormatter;
    let batch = sample_batch();
    assert_eq!(f.format_single(&batch[1].metrics), "s{quantile=\"0.5\"} 2 3\ns_sum{} 2 3\ns_count{} 1 3\n");
    assert_eq!(f.format_batch(&[]), "");
}

#[test]
fn integers_render_in_decimal() {
    let mut s = String::new();
    push_int(&mut s, 0);
    s.push('|');
    push_int(&mut s, -1234);
    s.push('|');
    push_int(&mut s, i64::MIN);
    s.push('|');
    push_int(&mut s, i64::MAX);
    assert_eq!(s, format!("0|-1234|{}|{}", i64::MIN, i64::MAX));
}
