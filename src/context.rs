use vstd::prelude::*;

use aws_smithy_types::retry::ErrorKind;

verus! {

/// What went wrong in one attempt, as far as retry classification reads it.
#[derive(Debug, Clone, Copy, PartialEq, Eq)]
pub enum AttemptError {
    /// The attempt ran out of time.
    Timeout,
    /// The transport could not dispatch the request.
    DispatchFailure { timeout: bool, io: bool, other: Option<ErrorKind> },
    /// A response came back that could not be read.
    ResponseError,
    /// The request could not be built.
    ConstructionFailure,
    /// The service answered with an error: the kind its error metadata gives, if
    /// any, and the response status.
    ServiceError { kind: Option<ErrorKind>, status: u16 },
}

/// The state of one attempt: its request, and once it has completed, its outcome.
pub struct InterceptorContext<Req, Out> {
    pub request: Req,
    pub output_or_error: Option<Result<Out, AttemptError>>,
}

impl<Req, Out> InterceptorContext<Req, Out> {
    /// A context for `request` whose attempt has not completed yet.
    pub fn new(request: Req) -> (r: Self)
        ensures
            r.request == request,
            r.output_or_error is None,
    {
        InterceptorContext { request, output_or_error: None }
    }

    /// Records the outcome of the attempt.
    pub fn set_output_or_error(&mut self, outcome: Result<Out, AttemptError>)
        ensures
            final(self).request == old(self).request,
            final(self).output_or_error == Some(outcome),
    {
        self.output_or_error = Some(outcome);
    }

    /// The outcome of the attempt, once it has completed.
    pub fn output_or_error(&self) -> (r: Option<&Result<Out, AttemptError>>)
        ensures
            match r {
                Some(o) => self.output_or_error == Some(*o),
                None => self.output_or_error is None,
            },
    {
        match &self.output_or_error {
            Some(o) => Some(o),
            None => None,
        }
    }
}

} // verus!
