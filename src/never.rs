use vstd::prelude::*;

use crate::attempts::ConfigValue;
use crate::config_bag::ConfigBag;
use crate::context::InterceptorContext;
use crate::retries::{RetryStrategy, ShouldAttempt};

verus! {

/// A strategy that makes the first attempt and never retries.
#[derive(Debug, Clone, Copy)]
pub struct NeverRetryStrategy {}

impl NeverRetryStrategy {
    pub fn new() -> (r: Self) {
        NeverRetryStrategy {  }
    }
}

impl RetryStrategy for NeverRetryStrategy {
    fn should_attempt_initial_request(&self, _cfg: &mut ConfigBag<ConfigValue>) -> (r:
        ShouldAttempt)
        ensures
            r == ShouldAttempt::Yes,
            final(_cfg)@ == old(_cfg)@,
    {
        ShouldAttempt::Yes
    }

    fn should_attempt_retry<Req, Out>(
        &self,
        _ctx: &InterceptorContext<Req, Out>,
        _cfg: &mut ConfigBag<ConfigValue>,
    ) -> (r: ShouldAttempt)
        ensures
            r == ShouldAttempt::No,
            final(_cfg)@ == old(_cfg)@,
    {
        ShouldAttempt::No
    }
}

} // verus!
