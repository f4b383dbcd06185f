//! The scrape stage's configuration and its retry policy: bounded attempts
//! with exponential backoff between them.
use vstd::prelude::*;
use crate::error::AgentError;
use std::time::Duration;
use tokio_retry::strategy::ExponentialBackoff;

verus! {

/// The outside HTTP client, carried through untouched.
#[verifier::external_type_specification]
#[verifier::external_body]
pub struct ExClient(reqwest::Client);

/// First backoff delay, in milliseconds.
pub const INITIAL_BACKOFF_MS: u64 = 100;

/// Largest backoff delay, in milliseconds.
pub const MAX_BACKOFF_MS: u64 = 10000;

/// `base` raised to `n` for `n >= 1`, saturating at `u64::MAX` at every step.
pub open spec fn saturating_pow(base: nat, n: nat) -> nat
    decreases n,
{
    if n <= 1 {
        base
    } else {
        let p = saturating_pow(base, (n - 1) as nat) * base;
        if p > u64::MAX {
            u64::MAX as nat
        } else {
            p
        }
    }
}

/// The delay before retry `n` (0 for the first retry): `base^(n+1)`
/// milliseconds, capped at `max_delay`.
pub open spec fn backoff_ms(base: u64, max_delay: u64, n: nat) -> nat {
    let d = saturating_pow(base as nat, n + 1);
    if d > max_delay {
        max_delay as nat
    } else {
        d
    }
}

/// Relies on tokio_retry's `ExponentialBackoff::from_millis(base)` with
/// `max_delay`: its item `n` is `base^(n+1)` ms (saturating multiplication),
/// or the cap where that exceeds it; the iterator never ends.
#[verifier::external_body]
fn exponential_delay_ms(base_ms: u64, max_delay_ms: u64, n: usize) -> (r: u64)
    ensures
        r == backoff_ms(base_ms, max_delay_ms, n as nat),
{
    ExponentialBackoff::from_millis(base_ms)
        .max_delay(Duration::from_millis(max_delay_ms))
        .nth(n)
        .map_or(max_delay_ms, |d| d.as_millis() as u64)
}

/// Attempts allowed in one scrape: the configured number, and at least one.
pub open spec fn attempt_limit(max_attempts: nat) -> nat {
    if max_attempts == 0 {
        1
    } else {
        max_attempts
    }
}

/// Whether a scrape gives up after attempt number `attempt` (from 1) failed
/// with `e`: on malformed text at once, otherwise when no attempt is left.
pub open spec fn gives_up(max_attempts: nat, attempt: nat, e: AgentError) -> bool {
    !e.spec_is_transient() || attempt >= attempt_limit(max_attempts)
}

/// With every attempt failing in transport, a scrape makes exactly
/// `attempt_limit(max_attempts)` attempts and then surfaces the last failure.
pub proof fn lemma_retry_exhaustion(max_attempts: nat, errors: Seq<AgentError>)
    requires
        errors.len() >= attempt_limit(max_attempts),
        forall|i: int| 0 <= i < errors.len() ==> (#[trigger] errors[i]) is Transport,
    ensures
        forall|k: nat|
            1 <= k < attempt_limit(max_attempts) ==> !#[trigger] gives_up(
                max_attempts,
                k,
                errors[k - 1],
            ),
        gives_up(
            max_attempts,
            attempt_limit(max_attempts),
            errors[attempt_limit(max_attempts) - 1],
        ),
{
}

/// Retry bookkeeping for one scrape.
pub struct ScrapeRetry {
    max_attempts: usize,
    attempts: usize,
}

impl ScrapeRetry {
    /// The configured bound on attempts.
    pub closed spec fn spec_max_attempts(&self) -> nat {
        self.max_attempts as nat
    }

    /// Attempts that failed so far.
    pub closed spec fn spec_attempts(&self) -> nat {
        self.attempts as nat
    }

    /// Bookkeeping before the first attempt.
    pub fn new(max_attempts: usize) -> (r: ScrapeRetry)
        ensures
            r.spec_max_attempts() == max_attempts,
            r.spec_attempts() == 0,
    {
        ScrapeRetry { max_attempts, attempts: 0 }
    }

    pub fn attempts(&self) -> (r: usize)
        ensures
            r == self.spec_attempts(),
    {
        self.attempts
    }

    /// Records that the current attempt failed with `error`. Returns the
    /// delay in milliseconds before the next attempt, or the error to surface
    /// when the scrape gives up.
    pub fn record_failure(&mut self, error: AgentError) -> (r: Result<u64, AgentError>)
        ensures
            final(self).spec_max_attempts() == old(self).spec_max_attempts(),
            final(self).spec_attempts() == if old(self).spec_attempts() < attempt_limit(
                old(self).spec_max_attempts(),
            ) {
                old(self).spec_attempts() + 1
            } else {
                old(self).spec_attempts()
            },
            gives_up(old(self).spec_max_attempts(), old(self).spec_attempts() + 1, error) ==> r
                == Err::<u64, AgentError>(error),
            !gives_up(old(self).spec_max_attempts(), old(self).spec_attempts() + 1, error) ==> r
                == Ok::<u64, AgentError>(
                backoff_ms(
                    INITIAL_BACKOFF_MS,
                    MAX_BACKOFF_MS,
                    old(self).spec_attempts(),
                ) as u64,
            ),
    {
        let limit: usize = if self.max_attempts == 0 {
            1
        } else {
            self.max_attempts
        };
        let done = self.attempts;
        if done < limit {
            self.attempts = done + 1;
        }
        if !error.is_transient() || done >= limit - 1 {
            Err(error)
        } else {
            Ok(exponential_delay_ms(INITIAL_BACKOFF_MS, MAX_BACKOFF_MS, done))
        }
    }
}

/// Where and how to scrape: the target URL, the HTTP client, the deadline of
/// one attempt and the bound on attempts.
pub struct TargetScraper {
    url: String,
    client: reqwest::Client,
    timeout: Duration,
    max_attempts: usize,
}

impl TargetScraper {
    pub fn new(url: String, client: reqwest::Client, timeout: Duration, max_attempts: usize) -> (r:
        TargetScraper)
        ensures
            r.url()@ == url@,
            r.max_attempts() == max_attempts,
    {
        TargetScraper { url, client, timeout, max_attempts }
    }

    pub closed spec fn url(&self) -> String {
        self.url
    }

    pub closed spec fn max_attempts(&self) -> usize {
        self.max_attempts
    }

    pub fn target_url(&self) -> (r: &str)
        ensures
            r@ == self.url()@,
    {
        self.url.as_str()
    }

    pub fn client(&self) -> &reqwest::Client {
        &self.client
    }

    pub fn timeout(&self) -> Duration {
        self.timeout
    }

    /// Fresh retry bookkeeping for one scrape of this target.
    pub fn start_scrape(&self) -> (r: ScrapeRetry)
        ensures
            r.spec_max_attempts() == self.max_attempts(),
            r.spec_attempts() == 0,
    {
        ScrapeRetry::new(self.max_attempts)
    }
}

} // verus!
