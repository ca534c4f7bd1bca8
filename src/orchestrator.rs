use vstd::prelude::*;

use crate::attempts::{attempts_in, ConfigValue, RequestAttemptsInterceptor};
use crate::config_bag::ConfigBag;
use crate::context::{AttemptError, InterceptorContext};
use crate::never::NeverRetryStrategy;
use crate::retries::{classify, classify_spec, RetryStrategy, ShouldAttempt, BASE_SCALE};
use crate::standard::{retry_decision, Jitter, StandardRetryStrategy};

verus! {

/// Why a call ended without a result.
#[derive(Debug, Clone, Copy, PartialEq, Eq)]
pub enum CallError {
    /// The strategy refused the first attempt.
    NotPermitted,
    /// The last attempt failed with a retryable error and no attempt was left.
    Exhausted(AttemptError),
    /// An attempt failed with an error that is not retried.
    Unretryable(AttemptError),
    /// A hook failed.
    InterceptorFailure,
    /// No usable auth scheme was found.
    AuthResolutionFailure,
    /// The call was cancelled while it waited.
    Cancelled,
}

/// Where a call stands.
#[derive(Debug, Clone, Copy, PartialEq, Eq)]
pub enum CallState {
    NotStarted,
    AttemptInFlight,
    Retrying(u64),
    Terminated(Result<(), CallError>),
}

/// What the caller of the state machine must do next.
#[derive(Debug, Clone, Copy, PartialEq, Eq, Structural)]
pub enum Action {
    /// Send the current attempt and report its outcome.
    Dispatch,
    /// Wait this many nanoseconds, then report that the delay elapsed.
    Sleep(u64),
    /// The call is over.
    Finish,
    /// The event does not apply in the current state; nothing changed.
    Ignore,
}

/// The retry strategy a call is configured with.
pub enum RetryPolicy {
    Never(NeverRetryStrategy),
    Standard(StandardRetryStrategy),
}

/// The decision `policy` makes after an attempt failed with `error`, given the
/// attempts made and a jitter multiplier.
pub open spec fn policy_decision(policy: RetryPolicy, error: AttemptError, attempts: nat, base: u64) -> ShouldAttempt {
    match policy {
        RetryPolicy::Never(_) => ShouldAttempt::No,
        RetryPolicy::Standard(s) => retry_decision(s@.0, s@.1, s@.2, Some(error), attempts, base),
    }
}

/// Whether `base` is a multiplier that `policy` may use.
pub open spec fn admissible_base(policy: RetryPolicy, base: u64) -> bool {
    match policy {
        RetryPolicy::Never(_) => true,
        RetryPolicy::Standard(s) => match s@.3 {
            Jitter::Random => base < BASE_SCALE,
            Jitter::Fixed(b) => base == b,
        },
    }
}

/// The state after a failed attempt and the strategy's decision on it.
pub open spec fn state_after_failure(error: AttemptError, decision: ShouldAttempt) -> CallState {
    match decision {
        ShouldAttempt::No => CallState::Terminated(
            Err(
                if classify_spec(error) is Some {
                    CallError::Exhausted(error)
                } else {
                    CallError::Unretryable(error)
                },
            ),
        ),
        ShouldAttempt::Yes => CallState::Retrying(0),
        ShouldAttempt::YesAfterDelay(d) => CallState::Retrying(d),
    }
}

/// The action that goes with entering `state`.
pub open spec fn action_for(state: CallState) -> Action {
    match state {
        CallState::NotStarted => Action::Ignore,
        CallState::AttemptInFlight => Action::Dispatch,
        CallState::Retrying(d) => Action::Sleep(d),
        CallState::Terminated(_) => Action::Finish,
    }
}

impl RetryPolicy {
    /// Whether a call makes its first attempt: both strategies always agree.
    pub fn should_attempt_initial_request(&self) -> (r: ShouldAttempt)
        ensures
            r == ShouldAttempt::Yes,
    {
        match self {
            RetryPolicy::Never(_) => ShouldAttempt::Yes,
            RetryPolicy::Standard(_) => ShouldAttempt::Yes,
        }
    }
}

/// One call: its state, its bag and its retry strategy.
pub struct Call {
    state: CallState,
    bag: ConfigBag<ConfigValue>,
    policy: RetryPolicy,
    counter: RequestAttemptsInterceptor,
}

impl Call {
    /// Where the call stands.
    pub closed spec fn phase(&self) -> CallState {
        self.state
    }

    /// The number of attempts made so far.
    pub closed spec fn attempts_made(&self) -> nat {
        attempts_in(self.bag@)
    }

    /// The strategy the call was configured with.
    pub closed spec fn retry_policy(&self) -> RetryPolicy {
        self.policy
    }

    /// The call-scoped layer is always there, and an attempt layer exactly while an
    /// attempt is in flight; a pending retry always has a count left to use.
    pub closed spec fn wf(&self) -> bool {
        &&& self.bag@.len() == if self.state is AttemptInFlight { 2nat } else { 1nat }
        &&& (self.state is Retrying ==> attempts_in(self.bag@) < u32::MAX)
        &&& (self.state is NotStarted ==> attempts_in(self.bag@) == 0)
        &&& (self.state is AttemptInFlight ==> self.bag@[1].len() == 0)
    }

    /// A call that has not started.
    pub fn new(policy: RetryPolicy) -> (r: Self)
        ensures
            r.wf(),
            r.phase() is NotStarted,
            r.attempts_made() == 0,
            r.retry_policy() == policy,
    {
        let bag = ConfigBag::new();
        proof {
            reveal_with_fuel(crate::config_bag::bag_lookup, 2);
        }
        Call { state: CallState::NotStarted, bag, policy, counter: RequestAttemptsInterceptor::new() }
    }

    /// The number of attempts made so far.
    pub fn attempts(&self) -> (r: u32)
        ensures
            r == self.attempts_made(),
    {
        match self.bag.get(crate::attempts::REQUEST_ATTEMPTS_KEY) {
            Some(ConfigValue::RequestAttempts(a)) => a.attempts(),
            _ => 0,
        }
    }

    /// Counts the attempt in the call's scope and opens its attempt scope.
    fn begin_attempt(&mut self)
        requires
            old(self).bag@.len() == 1,
            attempts_in(old(self).bag@) < u32::MAX,
        ensures
            final(self).bag@.len() == 2,
            attempts_in(final(self).bag@) == attempts_in(old(self).bag@) + 1,
            final(self).policy == old(self).policy,
            final(self).state is AttemptInFlight,
            final(self).bag@[1].len() == 0,
    {
        let ctx: InterceptorContext<(), ()> = InterceptorContext::new(());
        self.counter.read_before_attempt(&ctx, &mut self.bag);
        let ghost counted = self.bag@;
        self.bag.push_layer();
        assert(self.bag@[1].len() == 0);
        proof {
            crate::config_bag::lemma_scoped_layer_round_trip(
                counted,
                Seq::empty(),
                crate::attempts::REQUEST_ATTEMPTS_KEY,
            );
            assert(crate::config_bag::bag_put_all(counted.push(Seq::empty()), Seq::empty())
                == counted.push(Seq::empty()));
        }
        self.state = CallState::AttemptInFlight;
    }

    /// Asks the strategy for the first attempt and, when it agrees, starts it.
    pub fn start(&mut self) -> (r: Action)
        requires
            old(self).wf(),
        ensures
            final(self).wf(),
            final(self).retry_policy() == old(self).retry_policy(),
            !(old(self).phase() is NotStarted) ==> r is Ignore && final(self).phase() == old(
                self,
            ).phase() && final(self).attempts_made() == old(self).attempts_made(),
            old(self).phase() is NotStarted ==> r is Dispatch && final(self).phase() is AttemptInFlight
                && final(self).attempts_made() == 1,
    {
        match self.state {
            CallState::NotStarted => {},
            _ => return Action::Ignore,
        }
        let decision = self.policy.should_attempt_initial_request();
        match decision {
            ShouldAttempt::No => {
                self.state = CallState::Terminated(Err(CallError::NotPermitted));
                Action::Finish
            },
            _ => {
                self.begin_attempt();
                Action::Dispatch
            },
        }
    }

    /// Where the call stands.
    pub fn state(&self) -> (r: &CallState)
        ensures
            *r == self.phase(),
    {
        &self.state
    }

    /// Records the outcome of the attempt in flight and decides what comes next:
    /// the call ends on success or when the strategy stops, and otherwise waits
    /// for the strategy's delay before the next attempt.
    pub fn attempt_completed(&mut self, outcome: Result<(), AttemptError>) -> (r: Action)
        requires
            old(self).wf(),
        ensures
            final(self).wf(),
            final(self).retry_policy() == old(self).retry_policy(),
            final(self).attempts_made() == old(self).attempts_made(),
            !(old(self).phase() is AttemptInFlight) ==> r is Ignore && final(self).phase() == old(
                self,
            ).phase(),
            old(self).phase() is AttemptInFlight ==> r == action_for(final(self).phase()),
            old(self).phase() is AttemptInFlight && outcome is Ok ==> final(self).phase()
                == CallState::Terminated(Ok(())),
            old(self).phase() is AttemptInFlight && outcome is Err ==> exists|base: u64|
                admissible_base(old(self).retry_policy(), base) && final(self).phase()
                    == state_after_failure(
                    outcome->Err_0,
                    policy_decision(
                        old(self).retry_policy(),
                        outcome->Err_0,
                        old(self).attempts_made(),
                        base,
                    ),
                ),
    {
        match self.state {
            CallState::AttemptInFlight => {},
            _ => return Action::Ignore,
        }
        let ghost before = self.bag@;
        let _ = self.bag.pop_layer();
        proof {
            reveal_with_fuel(crate::config_bag::bag_lookup, 2);
            assert(before.last() == Seq::<(u64, ConfigValue)>::empty());
            assert(attempts_in(self.bag@) == attempts_in(before));
        }
        let error = match outcome {
            Ok(()) => {
                self.state = CallState::Terminated(Ok(()));
                return Action::Finish;
            },
            Err(e) => e,
        };
        let attempts = self.attempts();
        let (decision, base) = match &self.policy {
            RetryPolicy::Never(_) => (ShouldAttempt::No, 0u64),
            RetryPolicy::Standard(s) => {
                let failed: Result<(), AttemptError> = Err(error);
                let base = s.jitter_for(&failed, attempts);
                (s.decide_retry(&failed, attempts, base), base)
            },
        };
        assert(admissible_base(self.policy, base));
        assert(decision == policy_decision(self.policy, error, attempts as nat, base));
        match decision {
            ShouldAttempt::No => {
                let exhausted = match classify(&error) {
                    Some(_) => true,
                    None => false,
                };
                if exhausted {
                    self.state = CallState::Terminated(Err(CallError::Exhausted(error)));
                } else {
                    self.state = CallState::Terminated(Err(CallError::Unretryable(error)));
                }
                Action::Finish
            },
            ShouldAttempt::Yes => {
                self.state = CallState::Retrying(0);
                Action::Sleep(0)
            },
            ShouldAttempt::YesAfterDelay(d) => {
                self.state = CallState::Retrying(d);
                Action::Sleep(d)
            },
        }
    }

    /// Starts the next attempt once the delay before it has elapsed.
    pub fn delay_elapsed(&mut self) -> (r: Action)
        requires
            old(self).wf(),
        ensures
            final(self).wf(),
            final(self).retry_policy() == old(self).retry_policy(),
            !(old(self).phase() is Retrying) ==> r is Ignore && final(self).phase() == old(
                self,
            ).phase() && final(self).attempts_made() == old(self).attempts_made(),
            old(self).phase() is Retrying ==> r is Dispatch && final(self).phase() is AttemptInFlight
                && final(self).attempts_made() == old(self).attempts_made() + 1,
    {
        match self.state {
            CallState::Retrying(_) => {},
            _ => return Action::Ignore,
        }
        self.begin_attempt();
        Action::Dispatch
    }

    /// Ends a call that has not ended yet with `reason`: a failed hook, no usable
    /// auth scheme, or a cancellation observed while waiting.
    pub fn abort(&mut self, reason: CallError) -> (r: Action)
        requires
            old(self).wf(),
        ensures
            final(self).wf(),
            final(self).retry_policy() == old(self).retry_policy(),
            final(self).attempts_made() == old(self).attempts_made(),
            old(self).phase() is Terminated ==> r is Ignore && final(self).phase() == old(
                self,
            ).phase(),
            !(old(self).phase() is Terminated) ==> r is Finish && final(self).phase()
                == CallState::Terminated(Err(reason)),
    {
        match self.state {
            CallState::Terminated(_) => return Action::Ignore,
            CallState::AttemptInFlight => {
                let ghost before = self.bag@;
                let _ = self.bag.pop_layer();
                proof {
                    reveal_with_fuel(crate::config_bag::bag_lookup, 2);
                    assert(before.last() == Seq::<(u64, ConfigValue)>::empty());
                }
            },
            _ => {},
        }
        self.state = CallState::Terminated(Err(reason));
        Action::Finish
    }
}

} // verus!
