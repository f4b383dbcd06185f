//! The agent: its configuration and the decisions of its three workers. The
//! workers themselves (timer, network, queues) run outside the library and
//! hand each event to these functions.
use vstd::prelude::*;
use crate::error::AgentError;
use crate::formatter::{batch_text, MetricsFormatter};
use crate::model::MetricsMessage;
use crate::pipeline::{concat_texts, joined, push_step, Batcher};
use crate::remote_write::RemoteWriter;
use crate::scraper::TargetScraper;
use std::time::Duration;

verus! {

/// Scrapes on a fixed interval and relays what it scrapes.
pub struct MetricsAgent {
    writer: RemoteWriter,
    scraper: TargetScraper,
    interval: Duration,
    format_threshold: usize,
    write_threshold: usize,
}

impl MetricsAgent {
    /// An agent with the given stages, scrape interval and batch thresholds:
    /// scrapes per formatted batch, and formatted batches per write.
    pub fn new(
        writer: RemoteWriter,
        scraper: TargetScraper,
        interval: Duration,
        format_threshold: usize,
        write_threshold: usize,
    ) -> (r: MetricsAgent)
        requires
            format_threshold > 0,
            write_threshold > 0,
        ensures
            r.spec_format_threshold() == format_threshold,
            r.spec_write_threshold() == write_threshold,
    {
        MetricsAgent { writer, scraper, interval, format_threshold, write_threshold }
    }

    pub closed spec fn spec_format_threshold(&self) -> usize {
        self.format_threshold
    }

    pub closed spec fn spec_write_threshold(&self) -> usize {
        self.write_threshold
    }

    pub fn writer(&self) -> &RemoteWriter {
        &self.writer
    }

    pub fn scraper(&self) -> &TargetScraper {
        &self.scraper
    }

    pub fn interval(&self) -> Duration {
        self.interval
    }

    /// An empty batcher for the scrape-to-format queue.
    pub fn format_batcher(&self) -> (r: Batcher<MetricsMessage>)
        requires
            self.spec_format_threshold() > 0,
        ensures
            r.pending() == Seq::<MetricsMessage>::empty(),
            r.limit() == self.spec_format_threshold(),
    {
        Batcher::new(self.format_threshold)
    }

    /// An empty batcher for the format-to-write queue.
    pub fn write_batcher(&self) -> (r: Batcher<String>)
        requires
            self.spec_write_threshold() > 0,
        ensures
            r.pending() == Seq::<String>::empty(),
            r.limit() == self.spec_write_threshold(),
    {
        Batcher::new(self.write_threshold)
    }
}

/// What the scheduler does with the outcome of one scrape.
pub enum TickAction {
    /// Hand the snapshot to the format queue.
    Enqueue(MetricsMessage),
    /// Log the failure; the next tick scrapes as usual.
    LogAndContinue(AgentError),
}

/// The scheduler's decision after a scrape: a snapshot is enqueued, a failure
/// of any kind is logged and the schedule goes on.
pub fn on_scrape_result(result: Result<MetricsMessage, AgentError>) -> (r: TickAction)
    ensures
        match result {
            Ok(m) => r == TickAction::Enqueue(m),
            Err(e) => r == TickAction::LogAndContinue(e),
        },
{
    match result {
        Ok(m) => TickAction::Enqueue(m),
        Err(e) => TickAction::LogAndContinue(e),
    }
}

/// The format worker on one event of its queue: `Some` is a snapshot that
/// arrived, `None` that the queue closed. Returns the text to hand to the
/// write queue when a batch was flushed.
pub fn format_stage_step(
    formatter: &MetricsFormatter,
    batcher: &mut Batcher<MetricsMessage>,
    event: Option<MetricsMessage>,
) -> (r: Option<String>)
    requires
        old(batcher).pending().len() < old(batcher).limit(),
    ensures
        final(batcher).limit() == old(batcher).limit(),
        final(batcher).pending().len() < final(batcher).limit(),
        match event {
            Some(m) => {
                let (f, q) = push_step(old(batcher).limit(), old(batcher).pending(), m);
                &&& final(batcher).pending() == q
                &&& match f {
                    Some(b) => r.is_some() && r.unwrap()@ == batch_text(b),
                    None => r.is_none(),
                }
            },
            None => {
                &&& final(batcher).pending().len() == 0
                &&& old(batcher).pending().len() == 0 ==> r.is_none()
                &&& old(batcher).pending().len() > 0 ==> r.is_some() && r.unwrap()@
                    == batch_text(old(batcher).pending())
            },
        },
{
    let flushed = match event {
        Some(m) => batcher.push(m),
        None => batcher.close(),
    };
    match flushed {
        Some(batch) => Some(formatter.format_batch(batch.as_slice())),
        None => None,
    }
}

/// The write worker on one event of its queue: `Some` is formatted text that
/// arrived, `None` that the queue closed. Returns the body of the write to
/// send when a batch was flushed.
pub fn write_stage_step(batcher: &mut Batcher<String>, event: Option<String>) -> (r: Option<
    String,
>)
    requires
        old(batcher).pending().len() < old(batcher).limit(),
    ensures
        final(batcher).limit() == old(batcher).limit(),
        final(batcher).pending().len() < final(batcher).limit(),
        match event {
            Some(t) => {
                let (f, q) = push_step(old(batcher).limit(), old(batcher).pending(), t);
                &&& final(batcher).pending() == q
                &&& match f {
                    Some(b) => r.is_some() && r.unwrap()@ == joined(b),
                    None => r.is_none(),
                }
            },
            None => {
                &&& final(batcher).pending().len() == 0
                &&& old(batcher).pending().len() == 0 ==> r.is_none()
                &&& old(batcher).pending().len() > 0 ==> r.is_some() && r.unwrap()@ == joined(
                    old(batcher).pending(),
                )
            },
        },
{
    let flushed = match event {
        Some(t) => batcher.push(t),
        None => batcher.close(),
    };
    match flushed {
        Some(batch) => Some(concat_texts(&batch)),
        None => None,
    }
}

} // verus!
