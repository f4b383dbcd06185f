//! The decoded metric model that the serializer reads. Numeric sample values
//! are held as the decimal text that the decoder's numbers render to.
use vstd::prelude::*;
use crate::labels::LabelSet;

verus! {

/// Identifies one sample of a group: its labels and an optional timestamp in
/// milliseconds since the epoch.
pub struct GroupKey {
    pub labels: LabelSet,
    pub timestamp: Option<i64>,
}

/// The value of a gauge, counter or untyped sample.
pub struct SimpleMetric {
    pub value: String,
}

/// One quantile of a summary and the value observed at it.
pub struct SummaryQuantile {
    pub quantile: String,
    pub value: String,
}

/// The value of a summary sample.
pub struct SummaryMetric {
    pub quantiles: Vec<SummaryQuantile>,
    pub sum: String,
    pub count: String,
}

/// One bucket of a histogram: its upper bound and cumulative count.
pub struct HistogramBucket {
    pub bucket: String,
    pub count: String,
}

/// The value of a histogram sample.
pub struct HistogramMetric {
    pub buckets: Vec<HistogramBucket>,
    pub sum: String,
    pub count: String,
}

/// The kind of a metric group with its samples, in decoded order.
pub enum GroupKind {
    Gauge(Vec<(GroupKey, SimpleMetric)>),
    Counter(Vec<(GroupKey, SimpleMetric)>),
    Untyped(Vec<(GroupKey, SimpleMetric)>),
    Summary(Vec<(GroupKey, SummaryMetric)>),
    Histogram(Vec<(GroupKey, HistogramMetric)>),
}

/// A named metric family.
pub struct MetricGroup {
    pub name: String,
    pub metrics: GroupKind,
}

/// One decoded scrape: its groups, the URL it came from and when it was
/// taken, in milliseconds since the epoch.
pub struct MetricsMessage {
    pub target_url: String,
    pub metrics: Vec<MetricGroup>,
    pub scraped_at_ms: u64,
}

} // verus!
