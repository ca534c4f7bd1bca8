use vstd::arithmetic::div_mod::{lemma_div_is_ordered, lemma_div_by_multiple};
use vstd::arithmetic::mul::{lemma_mul_inequality, lemma_mul_is_associative};
use vstd::arithmetic::power2::{lemma_pow2_adds, lemma_pow2_pos, pow2};
use vstd::prelude::*;

use aws_smithy_types::retry::ErrorKind;

use crate::attempts::ConfigValue;
use crate::config_bag::ConfigBag;
use crate::context::{AttemptError, InterceptorContext};

verus! {

/// The kinds of retryable error of aws_smithy_types::retry, read variant by variant.
#[verifier::external_type_specification]
pub struct ExErrorKind(ErrorKind);

/// The denominator of a jitter multiplier: a multiplier `b` stands for `b / BASE_SCALE`.
pub const BASE_SCALE: u64 = 4294967296;

/// The response status that asks a client to slow down.
pub const THROTTLING_STATUS_CODE: u16 = 429;

/// Response status codes that count as transient failures.
pub const TRANSIENT_ERROR_STATUS_CODES: [u16; 4] = [500, 502, 503, 504];

/// An answer to the question "should I make a request attempt?"; delays are in nanoseconds.
#[derive(Debug, Clone, Copy, PartialEq, Eq, Structural)]
pub enum ShouldAttempt {
    Yes,
    No,
    YesAfterDelay(u64),
}

/// Why a failed attempt is worth retrying.
pub enum RetryReason {
    Error(ErrorKind),
    /// A delay in nanoseconds that was asked for explicitly.
    Explicit(u64),
}

pub open spec fn is_transient_status(status: u16) -> bool {
    status == 500 || status == 502 || status == 503 || status == 504
}

/// How an attempt's error is classified; `None` means it is not retried.
pub open spec fn classify_spec(error: AttemptError) -> Option<RetryReason> {
    match error {
        AttemptError::Timeout => Some(RetryReason::Error(ErrorKind::TransientError)),
        AttemptError::DispatchFailure { timeout, io, other } => {
            if timeout || io {
                Some(RetryReason::Error(ErrorKind::TransientError))
            } else {
                match other {
                    Some(kind) => Some(RetryReason::Error(kind)),
                    None => None,
                }
            }
        },
        AttemptError::ResponseError => Some(RetryReason::Error(ErrorKind::TransientError)),
        AttemptError::ConstructionFailure => None,
        AttemptError::ServiceError { kind, status } => match kind {
            Some(k) => Some(RetryReason::Error(k)),
            None => if status == THROTTLING_STATUS_CODE {
                Some(RetryReason::Error(ErrorKind::ThrottlingError))
            } else if is_transient_status(status) {
                Some(RetryReason::Error(ErrorKind::TransientError))
            } else {
                None
            },
        },
    }
}

/// Classifies an attempt's error for retrying.
pub fn classify(error: &AttemptError) -> (r: Option<RetryReason>)
    ensures
        r == classify_spec(*error),
{
    match error {
        AttemptError::Timeout => Some(RetryReason::Error(ErrorKind::TransientError)),
        AttemptError::DispatchFailure { timeout, io, other } => {
            if *timeout || *io {
                Some(RetryReason::Error(ErrorKind::TransientError))
            } else {
                match other {
                    Some(kind) => Some(RetryReason::Error(*kind)),
                    None => None,
                }
            }
        },
        AttemptError::ResponseError => Some(RetryReason::Error(ErrorKind::TransientError)),
        AttemptError::ConstructionFailure => None,
        AttemptError::ServiceError { kind, status } => match kind {
            Some(k) => Some(RetryReason::Error(*k)),
            None if *status == THROTTLING_STATUS_CODE => Some(RetryReason::Error(ErrorKind::ThrottlingError)),
            None => {
                let mut i: usize = 0;
                let mut transient = false;
                while i < 4
                    invariant
                        i <= 4,
                        TRANSIENT_ERROR_STATUS_CODES@ == seq![500u16, 502u16, 503u16, 504u16],
                        transient == exists|j: int|
                            0 <= j < i && TRANSIENT_ERROR_STATUS_CODES@[j] == *status,
                    decreases 4 - i,
                {
                    if TRANSIENT_ERROR_STATUS_CODES[i] == *status {
                        transient = true;
                    }
                    i = i + 1;
                }
                if transient {
                    Some(RetryReason::Error(ErrorKind::TransientError))
                } else {
                    None
                }
            },
        },
    }
}

/// Exponential backoff with jitter, in nanoseconds: `base / BASE_SCALE` times
/// `initial_backoff` times two to the `retry_attempts`, rounded down and capped at
/// `max_backoff`.
pub open spec fn backoff_spec(base: u64, initial_backoff: u64, retry_attempts: nat, max_backoff: u64) -> nat {
    let d = (base * initial_backoff * pow2(retry_attempts)) as nat / (BASE_SCALE as nat);
    if d <= max_backoff {
        d
    } else {
        max_backoff as nat
    }
}

/// Computes [`backoff_spec`].
pub fn calculate_exponential_backoff(
    base: u64,
    initial_backoff: u64,
    retry_attempts: u32,
    max_backoff: u64,
) -> (r: u64)
    ensures
        r == backoff_spec(base, initial_backoff, retry_attempts as nat, max_backoff),
{
    let limit: u128 = (max_backoff as u128) * (BASE_SCALE as u128);
    assert(base * initial_backoff <= u64::MAX * u64::MAX) by (nonlinear_arith);
    let mut product: u128 = (base as u128) * (initial_backoff as u128);
    let mut i: u32 = 0;
    assert(product == base * initial_backoff * pow2(0)) by {
        vstd::arithmetic::power2::lemma2_to64();
    }
    while i < retry_attempts && product <= limit
        invariant
            i <= retry_attempts,
            limit == max_backoff * BASE_SCALE,
            limit < 0x1_0000_0000_0000_0000_0000_0000,
            product == base * initial_backoff * pow2(i as nat),
        decreases retry_attempts - i,
    {
        proof {
            lemma_pow2_adds(i as nat, 1);
            vstd::arithmetic::power2::lemma2_to64();
            lemma_mul_is_associative(base * initial_backoff, pow2(i as nat) as int, 2);
        }
        product = product * 2;
        i = i + 1;
    }
    let ghost full: int = base * initial_backoff * pow2(retry_attempts as nat);
    if product > limit {
        proof {
            lemma_pow2_adds(i as nat, (retry_attempts - i) as nat);
            lemma_pow2_pos((retry_attempts - i) as nat);
            lemma_mul_is_associative(
                base * initial_backoff,
                pow2(i as nat) as int,
                pow2((retry_attempts - i) as nat) as int,
            );
            lemma_mul_inequality(1, pow2((retry_attempts - i) as nat) as int, product as int);
            assert(full >= product);
            lemma_div_is_ordered(limit as int, full, BASE_SCALE as int);
            lemma_div_by_multiple(max_backoff as int, BASE_SCALE as int);
        }
        max_backoff
    } else {
        proof {
            lemma_div_is_ordered(product as int, limit as int, BASE_SCALE as int);
            lemma_div_by_multiple(max_backoff as int, BASE_SCALE as int);
        }
        (product / (BASE_SCALE as u128)) as u64
    }
}

/// Bounds of a backoff: with a jitter multiplier of at most one, the delay before a
/// retry is at most the initial backoff doubled once per earlier retry, and never
/// more than the ceiling.
pub proof fn lemma_backoff_bounds(base: u64, initial_backoff: u64, retry_attempts: nat, max_backoff: u64)
    requires
        base <= BASE_SCALE,
    ensures
        backoff_spec(base, initial_backoff, retry_attempts, max_backoff) <= initial_backoff * pow2(
            retry_attempts,
        ),
        backoff_spec(base, initial_backoff, retry_attempts, max_backoff) <= max_backoff,
{
    let p = pow2(retry_attempts) as int;
    lemma_pow2_pos(retry_attempts);
    let ip = initial_backoff * p;
    assert(ip >= 0) by (nonlinear_arith)
        requires
            p > 0,
            initial_backoff >= 0,
            ip == initial_backoff * p,
    ;
    lemma_mul_inequality(base as int, BASE_SCALE as int, ip);
    lemma_mul_is_associative(base as int, initial_backoff as int, p);
    lemma_div_is_ordered(base * ip, BASE_SCALE * ip, BASE_SCALE as int);
    assert(BASE_SCALE * ip == ip * BASE_SCALE) by (nonlinear_arith);
    lemma_div_by_multiple(ip, BASE_SCALE as int);
}

} // verus!

verus! {

/// Decides whether a call makes its first attempt, and whether it retries after one.
pub trait RetryStrategy {
    fn should_attempt_initial_request(&self, cfg: &mut ConfigBag<ConfigValue>) -> ShouldAttempt;

    fn should_attempt_retry<Req, Out>(
        &self,
        ctx: &InterceptorContext<Req, Out>,
        cfg: &mut ConfigBag<ConfigValue>,
    ) -> ShouldAttempt
        requires
            ctx.output_or_error is Some,
    ;
}

} // verus!
