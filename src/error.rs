//! The failures of the pipeline.
use vstd::prelude::*;

verus! {

/// A failure of one scrape or one remote write, with the collaborator's
/// message where there is one.
pub enum AgentError {
    /// The target could not be reached or answered with a non-2xx status.
    Transport(String),
    /// The scraped body is not valid exposition text. Never retried.
    Decode(String),
    /// One scrape attempt ran past its deadline.
    Timeout,
    /// The remote endpoint could not be reached or refused the write.
    Write(String),
}

impl AgentError {
    /// Whether another attempt could succeed: transport failures and timeouts
    /// are transient, malformed text stays malformed.
    pub open spec fn spec_is_transient(&self) -> bool {
        match self {
            AgentError::Transport(_) | AgentError::Timeout => true,
            _ => false,
        }
    }

    pub fn is_transient(&self) -> (r: bool)
        ensures
            r == self.spec_is_transient(),
    {
        match self {
            AgentError::Transport(_) | AgentError::Timeout => true,
            _ => false,
        }
    }
}

} // verus!
