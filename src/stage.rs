//! The contract that every processing stage, and the pipeline itself, meets.
use vstd::prelude::*;

use crate::message::{Request, Response};

verus! {

/// What a readiness check reports.
#[derive(Debug, Clone, PartialEq, Eq)]
pub enum Readiness<E> {
    /// The stage can take a call now.
    Ready,
    /// The stage cannot take a call yet.
    Pending,
    /// The stage has failed and will not take calls.
    Failed(E),
}

/// A request-processing stage. A stage is called only after `poll_ready`
/// reported `Ready`, once for each such report.
pub trait Stage: Sized {
    /// The body type of the responses it gives.
    type Output;
    /// The error type it fails with.
    type Fault;

    /// Holds of each report that `poll_ready` may give in this state.
    spec fn may_report(&self, readiness: Readiness<Self::Fault>) -> bool;

    /// Holds of each result that `call` may give for `request` in this state.
    spec fn may_answer(
        &self,
        request: Request,
        result: Result<Response<Self::Output>, Self::Fault>,
    ) -> bool;

    /// Holds when the stage has reported `Ready` and may take one call.
    spec fn is_ready(&self) -> bool;

    fn poll_ready(&mut self) -> (r: Readiness<Self::Fault>)
        ensures
            old(self).may_report(r),
            r is Ready ==> final(self).is_ready(),
    ;

    fn call(&mut self, request: Request) -> (r: Result<Response<Self::Output>, Self::Fault>)
        requires
            old(self).is_ready(),
        ensures
            old(self).may_answer(request, r),
    ;
}

/// Something that wraps a stage of type `S` into a new stage.
pub trait Layer<S>: Sized {
    type Service;

    /// Holds when `service` is what this layer makes of `inner`.
    spec fn wraps(&self, inner: S, service: Self::Service) -> bool;

    fn layer(&self, inner: S) -> (r: Self::Service)
        ensures
            self.wraps(inner, r),
    ;
}

} // verus!
