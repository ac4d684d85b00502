//! When a request is sent again.

use vstd::prelude::*;
use vstd::arithmetic::power2::{
    lemma2_to64, lemma2_to64_rest, lemma_pow2_strictly_increases, lemma_pow2_unfold, pow2,
};

verus! {

/// How often, and with which idempotency key, a request is sent.
#[derive(Clone, Debug)]
pub enum RequestStrategy {
    /// Send the request once.
    Once,
    /// Send the request once, under the given idempotency key.
    Idempotent(String),
    /// Send the request again up to the given number of times, under a
    /// random idempotency key.
    Retry(u32),
    /// As `Retry`, waiting before each attempt twice as long as before the
    /// one before it.
    ExponentialBackoff(u32),
}

/// What to do about the next attempt.
#[derive(PartialEq, Eq, Debug)]
pub enum Outcome {
    /// Give up.
    Stop,
    /// Send the request, after waiting the given number of seconds where
    /// one is given.
    Continue(Option<u64>),
}

/// The status code of a response.
#[derive(Clone, Copy, Debug, PartialEq, Eq)]
pub struct StatusCode(pub u16);

impl StatusCode {
    /// The code is in the range of client errors, 400 to 499.
    pub open spec fn client_error(self) -> bool {
        400 <= self.0 < 500
    }

    /// The code is in the range of successes, 200 to 299.
    pub open spec fn success(self) -> bool {
        200 <= self.0 < 300
    }

    /// Whether the code is in the range of successes, 200 to 299.
    pub fn is_success(&self) -> (r: bool)
        ensures
            r == self.success(),
    {
        200 <= self.0 && self.0 < 300
    }

    /// Whether the code is in the range of client errors, 400 to 499.
    pub fn is_client_error(&self) -> (r: bool)
        ensures
            r == self.client_error(),
    {
        400 <= self.0 && self.0 < 500
    }
}

/// The seconds to wait before attempt number `retry_count`: two to the
/// power of `retry_count`, and the largest `u64` where that does not fit.
pub open spec fn backoff_seconds(retry_count: u32) -> u64 {
    if retry_count >= 64 {
        u64::MAX
    } else {
        pow2(retry_count as nat) as u64
    }
}

/// The seconds to wait before attempt number `retry_count`.
pub fn calculate_backoff(retry_count: u32) -> (seconds: u64)
    ensures
        seconds == backoff_seconds(retry_count),
{
    if retry_count >= 64 {
        return u64::MAX;
    }
    let mut seconds: u64 = 1;
    let mut i: u32 = 0;
    proof {
        lemma2_to64();
        lemma2_to64_rest();
    }
    while i < retry_count
        invariant
            i <= retry_count < 64,
            seconds == pow2(i as nat),
            pow2(63) == 0x8000000000000000,
        decreases retry_count - i,
    {
        proof {
            lemma_pow2_unfold((i + 1) as nat);
            if i + 1 < 63 {
                lemma_pow2_strictly_increases((i + 1) as nat, 63);
            }
        }
        seconds = seconds * 2;
        i += 1;
    }
    seconds
}

/// A fresh random identifier in its hyphenated form.
///
/// Trusted: `Uuid::new_v4` of the uuid crate followed by its `to_string`.
/// The identifier is random, so nothing is said of its characters; its
/// hyphenated form has 36 of them. `new_v4` panics where the operating
/// system hands out no random bytes.
#[verifier::external_body]
fn random_key() -> (key: String)
    ensures
        key@.len() == 36,
{
    uuid::Uuid::new_v4().to_string()
}

impl RequestStrategy {
    /// What the strategy says about the next attempt, after `retry_count`
    /// attempts, the last of which ended with `status` and with the
    /// server's word `stripe_should_retry` on retrying.
    pub open spec fn test_spec(
        self,
        status: Option<StatusCode>,
        stripe_should_retry: Option<bool>,
        retry_count: u32,
    ) -> Outcome {
        if stripe_should_retry == Some(false) {
            Outcome::Stop
        } else if (self is Once || self is Idempotent) && retry_count == 0 {
            Outcome::Continue(None)
        } else if status is Some && status->0.client_error() {
            Outcome::Stop
        } else {
            match self {
                RequestStrategy::Retry(n) if retry_count < n => Outcome::Continue(None),
                RequestStrategy::ExponentialBackoff(n) if retry_count < n => Outcome::Continue(
                    Some(backoff_seconds(retry_count)),
                ),
                _ => Outcome::Stop,
            }
        }
    }

    /// Whether to go on or to stop.
    ///
    /// The server's word against retrying stops every strategy. A strategy
    /// that sends once goes on for the first attempt only. A client error
    /// stops the others; short of that they go on until their number of
    /// attempts is used up.
    pub fn test(
        &self,
        status: Option<StatusCode>,
        stripe_should_retry: Option<bool>,
        retry_count: u32,
    ) -> (outcome: Outcome)
        ensures
            outcome == self.test_spec(status, stripe_should_retry, retry_count),
    {
        match stripe_should_retry {
            Some(false) => {
                return Outcome::Stop;
            },
            _ => {},
        }
        let sends_once = match self {
            RequestStrategy::Once => true,
            RequestStrategy::Idempotent(_) => true,
            _ => false,
        };
        if sends_once && retry_count == 0 {
            return Outcome::Continue(None);
        }
        match status {
            Some(code) => {
                if code.is_client_error() {
                    return Outcome::Stop;
                }
            },
            None => {},
        }
        match self {
            RequestStrategy::Retry(n) => {
                if retry_count < *n {
                    Outcome::Continue(None)
                } else {
                    Outcome::Stop
                }
            },
            RequestStrategy::ExponentialBackoff(n) => {
                if retry_count < *n {
                    Outcome::Continue(Some(calculate_backoff(retry_count)))
                } else {
                    Outcome::Stop
                }
            },
            _ => Outcome::Stop,
        }
    }

    /// The idempotency key to send: none for `Once`, the given key for
    /// `Idempotent`, and a fresh random one for the strategies that retry.
    pub fn get_key(&self) -> (key: Option<String>)
        ensures
            match *self {
                RequestStrategy::Once => key is None,
                RequestStrategy::Idempotent(given) => key == Some(given),
                _ => key is Some && key->0@.len() == 36,
            },
    {
        match self {
            RequestStrategy::Once => None,
            RequestStrategy::Idempotent(given) => Some(given.clone()),
            _ => Some(random_key()),
        }
    }

    /// The strategy that sends once under a fresh random key.
    pub fn idempotent_with_uuid() -> (strategy: RequestStrategy)
        ensures
            strategy is Idempotent,
            strategy->Idempotent_0@.len() == 36,
    {
        RequestStrategy::Idempotent(random_key())
    }
}

/// What the attempts of one request have come to so far: the caller sends
/// the request and reports how each attempt ended, and asks before each
/// attempt whether to go on.
#[derive(Debug, Clone, Copy)]
pub struct Attempts {
    /// The number of attempts that failed.
    pub tries: u32,
    /// The status of the last response that was no success, if there was one.
    pub last_status: Option<StatusCode>,
    /// The server's word on retrying in that response, if it gave one.
    pub last_retry_header: Option<bool>,
}

impl Attempts {
    /// No attempt was made yet.
    pub fn new() -> (attempts: Attempts)
        ensures
            attempts.tries == 0,
            attempts.last_status is None,
            attempts.last_retry_header is None,
    {
        Attempts { tries: 0, last_status: None, last_retry_header: None }
    }

    /// Whether `strategy` goes on to another attempt, and after which wait.
    pub fn next(&self, strategy: &RequestStrategy) -> (outcome: Outcome)
        ensures
            outcome == strategy.test_spec(self.last_status, self.last_retry_header, self.tries),
    {
        strategy.test(self.last_status, self.last_retry_header, self.tries)
    }

    /// Notes an attempt that got no response. What is known of the last
    /// response stays.
    pub fn record_no_response(&mut self)
        requires
            old(self).tries < u32::MAX,
        ensures
            final(self).tries == old(self).tries + 1,
            final(self).last_status == old(self).last_status,
            final(self).last_retry_header == old(self).last_retry_header,
    {
        self.tries = self.tries + 1;
    }

    /// Notes an attempt that got a response with `status` and with the
    /// server's word `retry` on retrying, and tells whether the request is
    /// done. A success ends the request and changes nothing; any other status
    /// counts as a failed attempt and is kept for the next decision.
    pub fn record_response(&mut self, status: StatusCode, retry: Option<bool>) -> (done: bool)
        requires
            old(self).tries < u32::MAX,
        ensures
            done == status.success(),
            done ==> *final(self) == *old(self),
            !done ==> final(self).tries == old(self).tries + 1 && final(self).last_status == Some(
                status,
            ) && final(self).last_retry_header == retry,
    {
        if status.is_success() {
            true
        } else {
            self.tries = self.tries + 1;
            self.last_status = Some(status);
            self.last_retry_header = retry;
            false
        }
    }
}

/// A request whose strategy lets it go on is below the limit of attempts:
/// the count of failed attempts can always be raised after the strategy said
/// to continue.
pub proof fn lemma_continue_leaves_room(
    strategy: RequestStrategy,
    status: Option<StatusCode>,
    stripe_should_retry: Option<bool>,
    retry_count: u32,
)
    requires
        strategy.test_spec(status, stripe_should_retry, retry_count) is Continue,
    ensures
        retry_count < u32::MAX,
{
}

} // verus!
