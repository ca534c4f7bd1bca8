use smithy_orchestrator::context::AttemptError;
use smithy_orchestrator::never::NeverRetryStrategy;
use smithy_orchestrator::orchestrator::{Action, Call, CallError, CallState, RetryPolicy};
use smithy_orchestrator::retries::BASE_SCALE;
use smithy_orchestrator::standard::{Jitter, StandardRetryStrategy};

const SECOND: u64 = 1_000_000_000;

fn standard(max: u32) -> RetryPolicy {
    RetryPolicy::Standard(
        StandardRetryStrategy::default()
            .with_max_attempts(max)
            .with_initial_backoff(SECOND)
            .with_base(Jitter::Fixed(BASE_SCALE)),
    )
}

fn run(call: &mut Call, mut outcome: impl FnMut(u32) -> Result<(), AttemptError>) -> (u32, Vec<u64>) {
    let mut dispatched = 0;
    let mut sleeps = Vec::new();
    let mut action = call.start();
    loop {
        action = match action {
            Action::Dispatch => {
                dispatched += 1;
                call.attempt_completed(outcome(dispatched))
            }
            Action::Sleep(d) => {
                sleeps.push(d);
                call.delay_elapsed()
            }
            Action::Finish => return (dispatched, sleeps),
            Action::Ignore => panic!("event ignored"),
        };
    }
}

#[test]
fn always_timing_out_call_is_exhausted_after_three_attempts() {
    let mut call = Call::new(standard(3));
    let (dispatched, sleeps) = run(&mut call, |_| Err(AttemptError::Timeout));
    assert_eq!(3, dispatched);
    assert_eq!(vec![SECOND, 2 * SECOND], sleeps);
    assert_eq!(3, call.attempts());
    assert_eq!(&CallState::Terminated(Err(CallError::Exhausted(AttemptError::Timeout))), call.state());
}

#[test]
fn call_succeeding_on_second_attempt_makes_two_attempts() {
    let mut call = Call::new(standard(3));
    let (dispatched, sleeps) =
        run(&mut call, |n| if n == 2 { Ok(()) } else { Err(AttemptError::Timeout) });
    assert_eq!(2, dispatched);
    assert_eq!(vec![SECOND], sleeps);
    assert_eq!(2, call.attempts());
    assert_eq!(&CallState::Terminated(Ok(())), call.state());
}

#[test]
fn unretryable_error_ends_the_call_at_once() {
    let mut call = Call::new(standard(3));
    let (dispatched, _) = run(&mut call, |_| Err(AttemptError::ConstructionFailure));
    assert_eq!(1, dispatched);
    assert_eq!(
        &CallState::Terminated(Err(CallError::Unretryable(AttemptError::ConstructionFailure))),
        call.state()
    );
}

#[test]
fn never_policy_makes_one_attempt() {
    let mut call = Call::new(RetryPolicy::Never(NeverRetryStrategy::new()));
    let (dispatched, sleeps) = run(&mut call, |_| Err(AttemptError::Timeout));
    assert_eq!(1, dispatched);
    assert!(sleeps.is_empty());
    assert_eq!(1, call.attempts());
}

#[test]
fn cancellation_while_waiting_ends_the_call() {
    let mut call = Call::new(standard(3));
    assert_eq!(Action::Dispatch, call.start());
    assert_eq!(Action::Sleep(SECOND), call.attempt_completed(Err(AttemptError::Timeout)));
    assert_eq!(Action::Finish, call.abort(CallError::Cancelled));
    assert_eq!(&CallState::Terminated(Err(CallError::Cancelled)), call.state());
    assert_eq!(Action::Ignore, call.delay_elapsed());
    assert_eq!(Action::Ignore, call.abort(CallError::InterceptorFailure));
    assert_eq!(1, call.attempts());
}

#[test]
fn events_out_of_order_are_ignored() {
    let mut call = Call::new(standard(3));
    assert_eq!(Action::Ignore, call.attempt_completed(Ok(())));
    assert_eq!(Action::Ignore, call.delay_elapsed());
    assert_eq!(&CallState::NotStarted, call.state());
    assert_eq!(Action::Dispatch, call.start());
    assert_eq!(Action::Ignore, call.start());
    assert_eq!(Action::Finish, call.abort(CallError::AuthResolutionFailure));
    assert_eq!(&CallState::Terminated(Err(CallError::AuthResolutionFailure)), call.state());
}
