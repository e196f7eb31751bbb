//! The retry policy: a request that fails with `401 Unauthorized` is retried
//! with a fresh client id, at most `max_retries` times.

use vstd::prelude::*;
use crate::error::Error;

verus! {

/// How failed requests are retried.
#[derive(Debug, Clone, Copy)]
pub struct RetryConfig {
    /// The largest number of retries of one request.
    pub max_retries: u32,
    /// Whether a `401 Unauthorized` answer leads to a client-id refresh and a retry.
    pub retry_on_401: bool,
}

impl Default for RetryConfig {
    /// Three retries, on `401 Unauthorized`.
    fn default() -> (c: Self)
        ensures
            c.max_retries == 3,
            c.retry_on_401,
    {
        RetryConfig { max_retries: 3, retry_on_401: true }
    }
}

/// Whether a request that has been retried `retries` times and has now failed
/// with `status` is retried once more.
pub open spec fn should_retry(config: RetryConfig, retries: nat, status: Option<u16>) -> bool {
    &&& status == Some(401u16)
    &&& config.retry_on_401
    &&& retries < config.max_retries
}

/// The number of retries made for one request whose successive attempts
/// fail with the statuses in `failures`, having been retried `retries` times
/// already; the attempts stop at the first failure that is not retried.
pub open spec fn retries_made(config: RetryConfig, failures: Seq<Option<u16>>, retries: nat) -> nat
    decreases failures.len(),
{
    if failures.len() == 0 {
        retries
    } else if should_retry(config, retries, failures[0]) {
        retries_made(config, failures.drop_first(), retries + 1)
    } else {
        retries
    }
}

/// The retry bookkeeping of one request.
#[derive(Debug)]
pub struct RetryState {
    /// How often the request has been retried so far.
    pub retries: u32,
}

impl RetryState {
    /// The state of a request that has not been retried.
    pub fn new() -> (s: Self)
        ensures
            s.retries == 0,
    {
        RetryState { retries: 0 }
    }

    /// Records that an attempt failed with `error`; returns whether the
    /// request is to be retried after the client id is refreshed.
    pub fn on_error(&mut self, config: &RetryConfig, error: &Error) -> (retry: bool)
        ensures
            retry == should_retry(*config, old(self).retries as nat, error.status),
            final(self).retries == (if retry { old(self).retries + 1 } else { old(self).retries as int }),
            retry ==> error.status == Some(401u16) && config.retry_on_401 && old(self).retries < config.max_retries,
    {
        if error.is_status(401) && config.retry_on_401 && self.retries < config.max_retries {
            self.retries = self.retries + 1;
            true
        } else {
            false
        }
    }
}

/// A request is retried at most `max_retries` times, whatever the failures.
pub proof fn lemma_retries_bounded(config: RetryConfig, failures: Seq<Option<u16>>, retries: nat)
    requires
        retries <= config.max_retries,
    ensures
        retries <= retries_made(config, failures, retries) <= config.max_retries,
    decreases failures.len(),
{
    if failures.len() > 0 && should_retry(config, retries, failures[0]) {
        lemma_retries_bounded(config, failures.drop_first(), retries + 1);
    }
}

/// Without `retry_on_401` no request is ever retried.
pub proof fn lemma_no_retry_when_disabled(config: RetryConfig, failures: Seq<Option<u16>>)
    requires
        !config.retry_on_401,
    ensures
        retries_made(config, failures, 0) == 0,
{
}

/// Only `401 Unauthorized` is retried: a first failure with another status
/// (or none) ends the request.
pub proof fn lemma_only_unauthorized_is_retried(config: RetryConfig, failures: Seq<Option<u16>>)
    requires
        failures.len() > 0,
        failures[0] != Some(401u16),
    ensures
        retries_made(config, failures, 0) == 0,
{
}

/// Only `401 Unauthorized` is ever retried, however often the request was
/// retried before, and never beyond the budget or with retries disabled; a
/// 401 within the budget is always retried.
pub proof fn lemma_retry_needs_unauthorized(config: RetryConfig, retries: nat, status: Option<u16>)
    ensures
        should_retry(config, retries, status) ==> status == Some(401u16),
        should_retry(config, retries, status) ==> config.retry_on_401 && retries < config.max_retries,
        status == Some(401u16) && config.retry_on_401 && retries < config.max_retries
            ==> should_retry(config, retries, status),
{
}

/// A failure with a status other than 401 ends the request at any point:
/// no retry follows it, whatever was retried before.
pub proof fn lemma_other_failure_ends_request(config: RetryConfig, failures: Seq<Option<u16>>, retries: nat)
    requires
        failures.len() > 0,
        failures[0] != Some(401u16),
    ensures
        retries_made(config, failures, retries) == retries,
{
}

/// When every attempt fails with `401 Unauthorized` and retries are enabled,
/// the whole budget of `max_retries` retries is used.
pub proof fn lemma_unauthorized_uses_budget(config: RetryConfig, failures: Seq<Option<u16>>, retries: nat)
    requires
        config.retry_on_401,
        retries <= config.max_retries,
        failures.len() + retries > config.max_retries,
        forall|i: int| 0 <= i < failures.len() ==> failures[i] == Some(401u16),
    ensures
        retries_made(config, failures, retries) == config.max_retries,
    decreases failures.len(),
{
    if retries < config.max_retries {
        assert(failures[0] == Some(401u16));
        lemma_unauthorized_uses_budget(config, failures.drop_first(), retries + 1);
    }
}

} // verus!
