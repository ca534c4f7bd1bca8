use vstd::prelude::*;

use crate::attempts::{attempts_in, ConfigValue, REQUEST_ATTEMPTS_KEY};
use crate::config_bag::ConfigBag;
use crate::context::{AttemptError, InterceptorContext};
use crate::retries::{
    backoff_spec, calculate_exponential_backoff, classify, classify_spec, RetryReason,
    RetryStrategy, ShouldAttempt, BASE_SCALE,
};

verus! {

/// The number of attempts a call makes at most, unless configured otherwise.
pub const DEFAULT_MAX_ATTEMPTS: u32 = 3;

/// The default delay before the first retry: one second, in nanoseconds.
pub const DEFAULT_INITIAL_BACKOFF: u64 = 1_000_000_000;

/// The default ceiling on any delay: twenty seconds, in nanoseconds.
pub const DEFAULT_MAX_BACKOFF: u64 = 20_000_000_000;

/// Where the jitter multiplier of a backoff comes from; a multiplier `b` stands for
/// `b / BASE_SCALE`.
#[derive(Debug, Clone, Copy, PartialEq, Eq, Structural)]
pub enum Jitter {
    /// Drawn uniformly from `[0, 1)` for each decision.
    Random,
    /// The same multiplier for every decision.
    Fixed(u64),
}

/// Draws a jitter multiplier.
///
/// Relies on fastrand::u32 over the full range of u32: any value may come back.
#[verifier::external_body]
fn random_multiplier() -> (r: u32) {
    fastrand::u32(..)
}

/// The retry decision of the standard strategy after an attempt that ended in
/// `error` (or succeeded, when it is `None`), with `attempts` attempts made so far
/// and the jitter multiplier `base`.
pub open spec fn retry_decision(
    max_attempts: u32,
    initial_backoff: u64,
    max_backoff: u64,
    error: Option<AttemptError>,
    attempts: nat,
    base: u64,
) -> ShouldAttempt {
    match error {
        None => ShouldAttempt::No,
        Some(e) => if attempts >= max_attempts {
            ShouldAttempt::No
        } else {
            match classify_spec(e) {
                None => ShouldAttempt::No,
                Some(RetryReason::Explicit(d)) => ShouldAttempt::YesAfterDelay(d),
                Some(RetryReason::Error(_)) => ShouldAttempt::YesAfterDelay(
                    backoff_spec(
                        base,
                        initial_backoff,
                        if attempts == 0 { 0 } else { (attempts - 1) as nat },
                        max_backoff,
                    ) as u64,
                ),
            }
        },
    }
}

/// Retries transient, throttling and server failures with exponential backoff and
/// jitter, up to a maximum number of attempts.
#[derive(Debug, Clone, Copy)]
pub struct StandardRetryStrategy {
    max_attempts: u32,
    initial_backoff: u64,
    max_backoff: u64,
    base: Jitter,
}

impl View for StandardRetryStrategy {
    /// The maximum number of attempts, the initial backoff, the backoff ceiling
    /// (both in nanoseconds) and the source of jitter.
    type V = (u32, u64, u64, Jitter);

    closed spec fn view(&self) -> (u32, u64, u64, Jitter) {
        (self.max_attempts, self.initial_backoff, self.max_backoff, self.base)
    }
}

impl Default for StandardRetryStrategy {
    fn default() -> (r: Self)
        ensures
            r@ == (DEFAULT_MAX_ATTEMPTS, DEFAULT_INITIAL_BACKOFF, DEFAULT_MAX_BACKOFF, Jitter::Random),
    {
        StandardRetryStrategy {
            max_attempts: DEFAULT_MAX_ATTEMPTS,
            initial_backoff: DEFAULT_INITIAL_BACKOFF,
            max_backoff: DEFAULT_MAX_BACKOFF,
            base: Jitter::Random,
        }
    }
}

impl StandardRetryStrategy {
    /// Uses `base` as the jitter source.
    pub fn with_base(self, base: Jitter) -> (r: Self)
        ensures
            r@ == (self@.0, self@.1, self@.2, base),
    {
        StandardRetryStrategy { base, ..self }
    }

    /// Sets the maximum number of attempts, the first included.
    pub fn with_max_attempts(self, max_attempts: u32) -> (r: Self)
        ensures
            r@ == (max_attempts, self@.1, self@.2, self@.3),
    {
        StandardRetryStrategy { max_attempts, ..self }
    }

    /// Sets the delay before the first retry, in nanoseconds.
    pub fn with_initial_backoff(self, initial_backoff: u64) -> (r: Self)
        ensures
            r@ == (self@.0, initial_backoff, self@.2, self@.3),
    {
        StandardRetryStrategy { initial_backoff, ..self }
    }

    /// Sets the ceiling on any computed delay, in nanoseconds.
    pub fn with_max_backoff(self, max_backoff: u64) -> (r: Self)
        ensures
            r@ == (self@.0, self@.1, max_backoff, self@.3),
    {
        StandardRetryStrategy { max_backoff, ..self }
    }

    /// The jitter multiplier for the decision on `outcome` after `attempts`
    /// attempts: a random one is drawn only when that decision computes a backoff.
    pub fn jitter_for<Out>(&self, outcome: &Result<Out, AttemptError>, attempts: u32) -> (r: u64)
        ensures
            match self@.3 {
                Jitter::Random => r < BASE_SCALE,
                Jitter::Fixed(b) => r == b,
            },
    {
        match self.base {
            Jitter::Fixed(b) => b,
            Jitter::Random => {
                let backs_off = match outcome {
                    Err(e) => attempts < self.max_attempts && matches!(classify(e), Some(RetryReason::Error(_))),
                    Ok(_) => false,
                };
                if backs_off {
                    random_multiplier() as u64
                } else {
                    0
                }
            },
        }
    }

    /// The decision after an attempt whose outcome is `outcome`, with `attempts`
    /// attempts made and the jitter multiplier `base`.
    pub fn decide_retry<Out>(&self, outcome: &Result<Out, AttemptError>, attempts: u32, base: u64) -> (r:
        ShouldAttempt)
        ensures
            r == retry_decision(
                self@.0,
                self@.1,
                self@.2,
                match outcome {
                    Ok(_) => None,
                    Err(e) => Some(*e),
                },
                attempts as nat,
                base,
            ),
    {
        let error = match outcome {
            Ok(_) => return ShouldAttempt::No,
            Err(e) => e,
        };
        if attempts >= self.max_attempts {
            return ShouldAttempt::No;
        }
        match classify(error) {
            None => ShouldAttempt::No,
            Some(RetryReason::Explicit(d)) => ShouldAttempt::YesAfterDelay(d),
            Some(RetryReason::Error(_)) => {
                let exponent: u32 = if attempts == 0 {
                    0
                } else {
                    attempts - 1
                };
                ShouldAttempt::YesAfterDelay(
                    calculate_exponential_backoff(base, self.initial_backoff, exponent, self.max_backoff),
                )
            },
        }
    }
}

impl RetryStrategy for StandardRetryStrategy {
    fn should_attempt_initial_request(&self, _cfg: &mut ConfigBag<ConfigValue>) -> (r:
        ShouldAttempt)
        ensures
            r == ShouldAttempt::Yes,
            final(_cfg)@ == old(_cfg)@,
    {
        ShouldAttempt::Yes
    }

    fn should_attempt_retry<Req, Out>(
        &self,
        ctx: &InterceptorContext<Req, Out>,
        cfg: &mut ConfigBag<ConfigValue>,
    ) -> (r: ShouldAttempt)
        ensures
            final(cfg)@ == old(cfg)@,
            exists|base: u64|
                {
                    &&& (self@.3 == Jitter::Random ==> base < BASE_SCALE)
                    &&& (self@.3 is Fixed ==> self@.3 == Jitter::Fixed(base))
                    &&& r == retry_decision(
                        self@.0,
                        self@.1,
                        self@.2,
                        match ctx.output_or_error {
                            Some(Ok(_)) => None,
                            Some(Err(e)) => Some(e),
                            None => None,
                        },
                        attempts_in(old(cfg)@),
                        base,
                    )
                },
    {
        let outcome = match ctx.output_or_error() {
            Some(o) => o,
            None => return ShouldAttempt::No,
        };
        let attempts: u32 = match cfg.get(REQUEST_ATTEMPTS_KEY) {
            Some(ConfigValue::RequestAttempts(a)) => a.attempts(),
            _ => 0,
        };
        let base = self.jitter_for(outcome, attempts);
        let r = self.decide_retry(outcome, attempts, base);
        assert(self@.3 is Fixed ==> self@.3 == Jitter::Fixed(base));
        r
    }
}

} // verus!

verus! {

/// Exhaustion: while failures are retryable, every attempt before the last one
/// allowed is followed by a retry after a delay, and the attempt that reaches the
/// maximum is followed by no further attempt.
pub proof fn lemma_retryable_failures_exhaust(
    max_attempts: u32,
    initial_backoff: u64,
    max_backoff: u64,
    error: AttemptError,
    attempts: nat,
    base: u64,
)
    requires
        classify_spec(error) is Some,
        1 <= attempts <= max_attempts,
    ensures
        attempts < max_attempts ==> retry_decision(
            max_attempts,
            initial_backoff,
            max_backoff,
            Some(error),
            attempts,
            base,
        ) is YesAfterDelay,
        attempts == max_attempts ==> retry_decision(
            max_attempts,
            initial_backoff,
            max_backoff,
            Some(error),
            attempts,
            base,
        ) == ShouldAttempt::No,
{
}

} // verus!

verus! {

/// Delay bounds: when a failed attempt is retried after a delay and the jitter
/// multiplier is at most one, the delay is at most the initial backoff doubled once
/// per attempt after the first, and at most the ceiling.
pub proof fn lemma_retry_delay_bounds(
    max_attempts: u32,
    initial_backoff: u64,
    max_backoff: u64,
    error: AttemptError,
    attempts: nat,
    base: u64,
)
    requires
        base <= BASE_SCALE,
        attempts >= 1,
        retry_decision(max_attempts, initial_backoff, max_backoff, Some(error), attempts, base) is YesAfterDelay,
    ensures
        ({
            let d = retry_decision(
                max_attempts,
                initial_backoff,
                max_backoff,
                Some(error),
                attempts,
                base,
            )->YesAfterDelay_0;
            &&& d <= initial_backoff * vstd::arithmetic::power2::pow2((attempts - 1) as nat)
            &&& d <= max_backoff
        }),
{
    crate::retries::lemma_backoff_bounds(base, initial_backoff, (attempts - 1) as nat, max_backoff);
}

} // verus!
