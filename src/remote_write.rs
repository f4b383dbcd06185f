//! The write stage: where the text goes, and what counts as a successful write.
use vstd::prelude::*;
use crate::error::AgentError;
use crate::formatter::{groups_text, push_groups};
use crate::model::MetricGroup;
use crate::text::{nat_text, push_nat};

pub use crate::formatter::{
    format_histogram_metric, format_simple_group, format_simple_metric, format_summary_metric,
};
pub use crate::labels::format_labels;

verus! {

/// The message of a write that the endpoint answered with `status`.
pub open spec fn status_message(status: u16) -> Seq<char> {
    seq!['s', 't', 'a', 't', 'u', 's', ' '] + nat_text(status as nat)
}

/// The outcome of a write whose response carried `status`: any 2xx is a
/// success, anything else a write failure.
pub fn write_outcome(status: u16) -> (r: Result<(), AgentError>)
    ensures
        (200 <= status < 300) ==> r is Ok,
        !(200 <= status < 300) ==> (r matches Err(AgentError::Write(m)) && m@ == status_message(
            status,
        )),
{
    if 200 <= status && status < 300 {
        Ok(())
    } else {
        let mut m = String::new();
        proof {
            reveal_strlit("status ");
        }
        m.append("status ");
        push_nat(&mut m, status as u64);
        assert(m@ =~= status_message(status));
        Err(AgentError::Write(m))
    }
}

/// Sends exposition text to a remote ingestion endpoint.
pub struct RemoteWriter {
    vm_url: String,
    client: reqwest::Client,
}

impl RemoteWriter {
    pub fn new(vm_url: String, client: reqwest::Client) -> (r: RemoteWriter)
        ensures
            r.url()@ == vm_url@,
    {
        RemoteWriter { vm_url, client }
    }

    pub closed spec fn url(&self) -> String {
        self.vm_url
    }

    pub fn endpoint(&self) -> (r: &str)
        ensures
            r@ == self.url()@,
    {
        self.vm_url.as_str()
    }

    pub fn client(&self) -> &reqwest::Client {
        &self.client
    }

    /// The exposition text of `metrics`, group after group.
    pub fn format_metrics_to_text(&self, metrics: &[MetricGroup]) -> (r: String)
        ensures
            r@ == groups_text(metrics@),
    {
        let mut out = String::new();
        push_groups(&mut out, metrics);
        assert(out@ =~= groups_text(metrics@));
        out
    }
}

} // verus!
