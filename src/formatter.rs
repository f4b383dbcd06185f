//! Serialization of decoded metric groups into exposition text.
use vstd::prelude::*;
use crate::labels::{format_labels, label_insert, labels_text, LabelSet, LabelView};
use crate::model::{
    GroupKey, GroupKind, HistogramMetric, MetricGroup, MetricsMessage, SimpleMetric,
    SummaryMetric,
};
use crate::text::{int_text, push_int};

verus! {

pub open spec fn quantile_name() -> Seq<char> {
    seq!['q', 'u', 'a', 'n', 't', 'i', 'l', 'e']
}

pub open spec fn le_name() -> Seq<char> {
    seq!['l', 'e']
}

pub open spec fn sum_suffix() -> Seq<char> {
    seq!['_', 's', 'u', 'm']
}

pub open spec fn count_suffix() -> Seq<char> {
    seq!['_', 'c', 'o', 'u', 'n', 't']
}

pub open spec fn bucket_suffix() -> Seq<char> {
    seq!['_', 'b', 'u', 'c', 'k', 'e', 't']
}

/// A space and the timestamp's decimal text, or nothing.
pub open spec fn timestamp_text(ts: Option<i64>) -> Seq<char> {
    match ts {
        Some(t) => seq![' '] + int_text(t as int),
        None => Seq::empty(),
    }
}

/// One exposition line: `name{labels} value[ timestamp]` and a newline.
pub open spec fn sample_line(
    name: Seq<char>,
    labels: Seq<LabelView>,
    value: Seq<char>,
    ts: Option<i64>,
) -> Seq<char> {
    name + seq!['{'] + labels_text(labels) + seq!['}', ' '] + value + timestamp_text(ts) + seq![
        '\n',
    ]
}

/// Lines of gauge, counter or untyped samples, one per sample.
pub open spec fn simple_text(name: Seq<char>, s: Seq<(GroupKey, SimpleMetric)>) -> Seq<char>
    decreases s.len(),
{
    if s.len() == 0 {
        Seq::empty()
    } else {
        simple_text(name, s.drop_last()) + sample_line(
            name,
            s.last().0.labels@,
            s.last().1.value@,
            s.last().0.timestamp,
        )
    }
}

/// The `_sum` and `_count` lines of a summary or histogram sample.
pub open spec fn sum_count_text(
    name: Seq<char>,
    key: GroupKey,
    sum: Seq<char>,
    count: Seq<char>,
) -> Seq<char> {
    sample_line(name + sum_suffix(), key.labels@, sum, key.timestamp) + sample_line(
        name + count_suffix(),
        key.labels@,
        count,
        key.timestamp,
    )
}

/// One line per quantile, the sample's labels joined by `quantile`.
pub open spec fn quantiles_text(name: Seq<char>, key: GroupKey, m: SummaryMetric, n: int) -> Seq<
    char,
>
    decreases n,
{
    if n <= 0 {
        Seq::empty()
    } else {
        let q = m.quantiles@[n - 1];
        quantiles_text(name, key, m, n - 1) + sample_line(
            name,
            label_insert(key.labels@, quantile_name(), q.quantile@),
            q.value@,
            key.timestamp,
        )
    }
}

/// One line per bucket under `name_bucket`, the sample's labels joined by `le`.
pub open spec fn buckets_text(name: Seq<char>, key: GroupKey, m: HistogramMetric, n: int) -> Seq<
    char,
>
    decreases n,
{
    if n <= 0 {
        Seq::empty()
    } else {
        let b = m.buckets@[n - 1];
        buckets_text(name, key, m, n - 1) + sample_line(
            name + bucket_suffix(),
            label_insert(key.labels@, le_name(), b.bucket@),
            b.count@,
            key.timestamp,
        )
    }
}

/// Lines of summary samples: per sample its quantiles, then `_sum`, then `_count`.
pub open spec fn summary_text(name: Seq<char>, s: Seq<(GroupKey, SummaryMetric)>) -> Seq<char>
    decreases s.len(),
{
    if s.len() == 0 {
        Seq::empty()
    } else {
        let (k, m) = s.last();
        summary_text(name, s.drop_last()) + quantiles_text(name, k, m, m.quantiles@.len() as int)
            + sum_count_text(name, k, m.sum@, m.count@)
    }
}

/// Lines of histogram samples: per sample its buckets, then `_sum`, then `_count`.
pub open spec fn histogram_text(name: Seq<char>, s: Seq<(GroupKey, HistogramMetric)>) -> Seq<
    char,
>
    decreases s.len(),
{
    if s.len() == 0 {
        Seq::empty()
    } else {
        let (k, m) = s.last();
        histogram_text(name, s.drop_last()) + buckets_text(name, k, m, m.buckets@.len() as int)
            + sum_count_text(name, k, m.sum@, m.count@)
    }
}

/// Exposition text of one metric group.
pub open spec fn group_text(g: MetricGroup) -> Seq<char> {
    match g.metrics {
        GroupKind::Gauge(v) => simple_text(g.name@, v@),
        GroupKind::Counter(v) => simple_text(g.name@, v@),
        GroupKind::Untyped(v) => simple_text(g.name@, v@),
        GroupKind::Summary(v) => summary_text(g.name@, v@),
        GroupKind::Histogram(v) => histogram_text(g.name@, v@),
    }
}

/// Exposition text of groups, concatenated in order.
pub open spec fn groups_text(gs: Seq<MetricGroup>) -> Seq<char>
    decreases gs.len(),
{
    if gs.len() == 0 {
        Seq::empty()
    } else {
        groups_text(gs.drop_last()) + group_text(gs.last())
    }
}

/// Exposition text of a batch of scrapes, concatenated in order.
pub open spec fn batch_text(ms: Seq<MetricsMessage>) -> Seq<char>
    decreases ms.len(),
{
    if ms.len() == 0 {
        Seq::empty()
    } else {
        batch_text(ms.drop_last()) + groups_text(ms.last().metrics@)
    }
}

/// Formatting is deterministic: two texts produced from the same batch are
/// identical.
pub proof fn lemma_format_deterministic(batch: Seq<MetricsMessage>, t1: Seq<char>, t2: Seq<char>)
    requires
        t1 == batch_text(batch),
        t2 == batch_text(batch),
    ensures
        t1 == t2,
{
}

fn push_line(
    out: &mut String,
    name: &str,
    suffix: &str,
    labels: &LabelSet,
    value: &str,
    ts: Option<i64>,
)
    ensures
        final(out)@ == old(out)@ + sample_line(name@ + suffix@, labels@, value@, ts),
{
    let ghost start = out@;
    out.append(name);
    out.append(suffix);
    out.append("{");
    let l = format_labels(labels);
    out.append(l.as_str());
    out.append("} ");
    out.append(value);
    let ghost mid = out@;
    match ts {
        Some(t) => {
            out.append(" ");
            push_int(out, t);
        },
        None => {},
    }
    out.append("\n");
    proof {
        reveal_strlit("{");
        reveal_strlit("} ");
        reveal_strlit(" ");
        reveal_strlit("\n");
        assert(out@ =~= start + sample_line(name@ + suffix@, labels@, value@, ts));
    }
}

fn push_sum_count(out: &mut String, name: &str, key: &GroupKey, sum: &str, count: &str)
    ensures
        final(out)@ == old(out)@ + sum_count_text(name@, *key, sum@, count@),
{
    let ghost start = out@;
    proof {
        reveal_strlit("_sum");
        reveal_strlit("_count");
    }
    push_line(out, name, "_sum", &key.labels, sum, key.timestamp);
    push_line(out, name, "_count", &key.labels, count, key.timestamp);
    assert(out@ =~= start + sum_count_text(name@, *key, sum@, count@));
}

/// Text of gauge, counter or untyped samples: `name{labels} value[ ts]` per sample.
pub fn format_simple_metric(group_name: &str, metrics: &Vec<(GroupKey, SimpleMetric)>) -> (r:
    String)
    ensures
        r@ == simple_text(group_name@, metrics@),
{
    let mut out = String::new();
    let n = metrics.len();
    let mut i: usize = 0;
    proof {
        reveal_strlit("");
        assert(metrics@.take(0) =~= Seq::<(GroupKey, SimpleMetric)>::empty());
    }
    while i < n
        invariant
            n == metrics@.len(),
            i <= n,
            out@ == simple_text(group_name@, metrics@.take(i as int)),
        decreases n - i,
    {
        let (key, metric) = &metrics[i];
        push_line(&mut out, group_name, "", &key.labels, metric.value.as_str(), key.timestamp);
        proof {
            reveal_strlit("");
            assert(group_name@ + ""@ =~= group_name@);
            assert(metrics@.take(i as int + 1).drop_last() =~= metrics@.take(i as int));
        }
        i = i + 1;
    }
    assert(metrics@.take(n as int) =~= metrics@);
    out
}

/// Text of summary samples: per sample one line per quantile with the
/// `quantile` label added, then `name_sum`, then `name_count`.
pub fn format_summary_metric(group_name: &str, metrics: &Vec<(GroupKey, SummaryMetric)>) -> (r:
    String)
    ensures
        r@ == summary_text(group_name@, metrics@),
{
    let mut out = String::new();
    let n = metrics.len();
    let mut i: usize = 0;
    assert(metrics@.take(0) =~= Seq::<(GroupKey, SummaryMetric)>::empty());
    while i < n
        invariant
            n == metrics@.len(),
            i <= n,
            out@ == summary_text(group_name@, metrics@.take(i as int)),
        decreases n - i,
    {
        let (key, metric) = &metrics[i];
        let ghost before = out@;
        let nq = metric.quantiles.len();
        let mut j: usize = 0;
        while j < nq
            invariant
                nq == metric.quantiles@.len(),
                j <= nq,
                out@ == before + quantiles_text(group_name@, *key, *metric, j as int),
            decreases nq - j,
        {
            let q = &metric.quantiles[j];
            proof {
                reveal_strlit("quantile");
                reveal_strlit("");
                assert(group_name@ + ""@ =~= group_name@);
            }
            let labels = key.labels.with_label(
                String::from_str("quantile"),
                q.quantile.clone(),
            );
            assert("quantile"@ =~= quantile_name());
            assert(labels@ == label_insert(key.labels@, quantile_name(), q.quantile@));
            push_line(&mut out, group_name, "", &labels, q.value.as_str(), key.timestamp);
            assert(*q == metric.quantiles@[j as int]);
            assert(out@ =~= before + quantiles_text(group_name@, *key, *metric, j as int + 1));
            j = j + 1;
        }
        push_sum_count(&mut out, group_name, key, metric.sum.as_str(), metric.count.as_str());
        proof {
            let t = metrics@.take(i as int + 1);
            assert(t.drop_last() =~= metrics@.take(i as int));
            assert(out@ =~= summary_text(group_name@, t));
        }
        i = i + 1;
    }
    assert(metrics@.take(n as int) =~= metrics@);
    out
}

/// Text of histogram samples: per sample one `name_bucket` line per bucket
/// with the `le` label added, then `name_sum`, then `name_count`.
pub fn format_histogram_metric(
    group_name: &str,
    metrics: &Vec<(GroupKey, HistogramMetric)>,
) -> (r: String)
    ensures
        r@ == histogram_text(group_name@, metrics@),
{
    let mut out = String::new();
    let n = metrics.len();
    let mut i: usize = 0;
    assert(metrics@.take(0) =~= Seq::<(GroupKey, HistogramMetric)>::empty());
    while i < n
        invariant
            n == metrics@.len(),
            i <= n,
            out@ == histogram_text(group_name@, metrics@.take(i as int)),
        decreases n - i,
    {
        let (key, metric) = &metrics[i];
        let ghost before = out@;
        let nb = metric.buckets.len();
        let mut j: usize = 0;
        while j < nb
            invariant
                nb == metric.buckets@.len(),
                j <= nb,
                out@ == before + buckets_text(group_name@, *key, *metric, j as int),
            decreases nb - j,
        {
            let b = &metric.buckets[j];
            proof {
                reveal_strlit("le");
                reveal_strlit("_bucket");
            }
            let labels = key.labels.with_label(String::from_str("le"), b.bucket.clone());
            assert("le"@ =~= le_name());
            assert("_bucket"@ =~= bucket_suffix());
            assert(labels@ == label_insert(key.labels@, le_name(), b.bucket@));
            push_line(&mut out, group_name, "_bucket", &labels, b.count.as_str(), key.timestamp);
            assert(*b == metric.buckets@[j as int]);
            assert(out@ =~= before + buckets_text(group_name@, *key, *metric, j as int + 1));
            j = j + 1;
        }
        push_sum_count(&mut out, group_name, key, metric.sum.as_str(), metric.count.as_str());
        proof {
            let t = metrics@.take(i as int + 1);
            assert(t.drop_last() =~= metrics@.take(i as int));
            assert(out@ =~= histogram_text(group_name@, t));
        }
        i = i + 1;
    }
    assert(metrics@.take(n as int) =~= metrics@);
    out
}

/// Exposition text of one group, by its kind.
pub fn format_simple_group(group: &MetricGroup) -> (r: String)
    ensures
        r@ == group_text(*group),
{
    match &group.metrics {
        GroupKind::Gauge(metrics) => format_simple_metric(group.name.as_str(), metrics),
        GroupKind::Counter(metrics) => format_simple_metric(group.name.as_str(), metrics),
        GroupKind::Untyped(metrics) => format_simple_metric(group.name.as_str(), metrics),
        GroupKind::Summary(metrics) => format_summary_metric(group.name.as_str(), metrics),
        GroupKind::Histogram(metrics) => format_histogram_metric(group.name.as_str(), metrics),
    }
}

/// Appends the text of each group in order.
pub fn push_groups(out: &mut String, groups: &[MetricGroup])
    ensures
        final(out)@ == old(out)@ + groups_text(groups@),
{
    let ghost start = out@;
    let n = groups.len();
    let mut i: usize = 0;
    assert(groups@.take(0) =~= Seq::<MetricGroup>::empty());
    assert(out@ =~= start + groups_text(groups@.take(0)));
    while i < n
        invariant
            n == groups@.len(),
            i <= n,
            out@ == start + groups_text(groups@.take(i as int)),
        decreases n - i,
    {
        let t = format_simple_group(&groups[i]);
        out.append(t.as_str());
        proof {
            let p = groups@.take(i as int + 1);
            assert(p.drop_last() =~= groups@.take(i as int));
            assert(out@ =~= start + groups_text(p));
        }
        i = i + 1;
    }
    assert(groups@.take(n as int) =~= groups@);
}

/// Serializes decoded scrapes into exposition text.
pub struct MetricsFormatter;

impl MetricsFormatter {
    /// The text of every group of every scrape, in input order.
    pub fn format_batch(&self, metrics_message: &[MetricsMessage]) -> (r: String)
        ensures
            r@ == batch_text(metrics_message@),
    {
        let mut out = String::new();
        let n = metrics_message.len();
        let mut i: usize = 0;
        assert(metrics_message@.take(0) =~= Seq::<MetricsMessage>::empty());
        while i < n
            invariant
                n == metrics_message@.len(),
                i <= n,
                out@ == batch_text(metrics_message@.take(i as int)),
            decreases n - i,
        {
            push_groups(&mut out, metrics_message[i].metrics.as_slice());
            proof {
                let p = metrics_message@.take(i as int + 1);
                assert(p.drop_last() =~= metrics_message@.take(i as int));
            }
            i = i + 1;
        }
        assert(metrics_message@.take(n as int) =~= metrics_message@);
        out
    }

    /// The text of the groups of one scrape, in order.
    pub fn format_single(&self, metrics_groups: &Vec<MetricGroup>) -> (r: String)
        ensures
            r@ == groups_text(metrics_groups@),
    {
        let mut out = String::new();
        push_groups(&mut out, metrics_groups.as_slice());
        assert(out@ =~= groups_text(metrics_groups@));
        out
    }
}

} // verus!
