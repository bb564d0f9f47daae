//! Adapters that bring a stage's response body and error into the canonical
//! shapes: `IntoCotResponse` replaces the body, `IntoCotError` the error.
use vstd::prelude::*;

use crate::error::{map_err, normalized, Error, IntoFault};
use crate::message::{byte_stream, Body, Request, Response, StageBody};
use crate::stage::{Layer, Readiness, Stage};

verus! {

/// The canonical form of a body failure.
pub open spec fn lifted_failure<E: IntoFault>(failure: Option<E>) -> Option<Error> {
    match failure {
        Some(e) => Some(normalized(e.fault())),
        None => None,
    }
}

/// Holds when `b` is the canonical form of the stage body `a`: the same chunks
/// in the same order, and the failure normalized.
pub open spec fn body_mapped<E: IntoFault>(a: StageBody<E>, b: Body) -> bool {
    &&& b.chunks@ == a.chunks@
    &&& b.failure == lifted_failure(a.failure)
}

/// Holds when `b` is `a` with its body in canonical form and nothing else changed.
pub open spec fn response_mapped<E: IntoFault>(a: Response<StageBody<E>>, b: Response<Body>) -> bool {
    &&& b.status == a.status
    &&& b.headers == a.headers
    &&& b.session_id == a.session_id
    &&& b.session == a.session
    &&& body_mapped(a.body, b.body)
}

/// Holds when `r` is the inner result `x` with the response body adapted.
pub open spec fn answer_mapped<E: IntoFault, F>(
    x: Result<Response<StageBody<E>>, F>,
    r: Result<Response<Body>, F>,
) -> bool {
    match x {
        Ok(a) => r is Ok && response_mapped(a, r->Ok_0),
        Err(e) => r == Err::<Response<Body>, F>(e),
    }
}

/// The inner readiness report with its failure normalized.
pub open spec fn lifted_readiness<E: IntoFault>(x: Readiness<E>) -> Readiness<Error> {
    match x {
        Readiness::Ready => Readiness::Ready,
        Readiness::Pending => Readiness::Pending,
        Readiness::Failed(e) => Readiness::Failed(normalized(e.fault())),
    }
}

/// The inner result with its error normalized.
pub open spec fn lifted_answer<O, E: IntoFault>(x: Result<Response<O>, E>) -> Result<Response<O>, Error> {
    match x {
        Ok(v) => Ok(v),
        Err(e) => Err(normalized(e.fault())),
    }
}

/// Puts a stage body into canonical form. The chunks are moved over untouched;
/// a failure goes through `map_err`.
pub fn map_body<E: IntoFault>(body: StageBody<E>) -> (r: Body)
    ensures
        body_mapped(body, r),
{
    let failure = match body.failure {
        Some(e) => Some(map_err(e)),
        None => None,
    };
    Body { chunks: body.chunks, failure }
}

/// Puts a stage response into canonical form; status, headers and session are
/// kept.
pub fn map_response<E: IntoFault>(response: Response<StageBody<E>>) -> (r: Response<Body>)
    ensures
        response_mapped(response, r),
{
    Response {
        status: response.status,
        headers: response.headers,
        session_id: response.session_id,
        session: response.session,
        body: map_body(response.body),
    }
}

/// Layer that makes an `IntoCotResponse` of a stage.
#[derive(Debug, Copy, Clone)]
pub struct IntoCotResponseLayer;

impl IntoCotResponseLayer {
    pub fn new() -> (r: Self)
        ensures
            r == IntoCotResponseLayer,
    {
        Self {}
    }
}

impl Default for IntoCotResponseLayer {
    fn default() -> (r: Self)
        ensures
            r == IntoCotResponseLayer,
    {
        Self::new()
    }
}

impl<S> Layer<S> for IntoCotResponseLayer {
    type Service = IntoCotResponse<S>;

    open spec fn wraps(&self, inner: S, service: IntoCotResponse<S>) -> bool {
        service.inner == inner
    }

    fn layer(&self, inner: S) -> (r: IntoCotResponse<S>) {
        IntoCotResponse { inner }
    }
}

/// Stage that gives the responses of `inner` with the canonical body.
/// Readiness and errors pass through unchanged.
#[derive(Debug, Clone)]
pub struct IntoCotResponse<S> {
    /// The wrapped stage.
    pub inner: S,
}

impl<S, E> Stage for IntoCotResponse<S> where S: Stage<Output = StageBody<E>>, E: IntoFault {
    type Output = Body;

    type Fault = S::Fault;

    open spec fn may_report(&self, readiness: Readiness<S::Fault>) -> bool {
        self.inner.may_report(readiness)
    }

    open spec fn is_ready(&self) -> bool {
        self.inner.is_ready()
    }

    open spec fn may_answer(&self, request: Request, result: Result<Response<Body>, S::Fault>) -> bool {
        exists|x: Result<Response<StageBody<E>>, S::Fault>|
            #[trigger] self.inner.may_answer(request, x) && answer_mapped(x, result)
    }

    fn poll_ready(&mut self) -> (r: Readiness<S::Fault>) {
        self.inner.poll_ready()
    }

    fn call(&mut self, request: Request) -> (r: Result<Response<Body>, S::Fault>) {
        let x = self.inner.call(request);
        let r = match x {
            Ok(response) => Ok(map_response(response)),
            Err(e) => Err(e),
        };
        assert(answer_mapped(x, r));
        r
    }
}

/// Layer that makes an `IntoCotError` of a stage.
#[derive(Debug, Copy, Clone)]
pub struct IntoCotErrorLayer;

impl IntoCotErrorLayer {
    pub fn new() -> (r: Self)
        ensures
            r == IntoCotErrorLayer,
    {
        Self {}
    }
}

impl Default for IntoCotErrorLayer {
    fn default() -> (r: Self)
        ensures
            r == IntoCotErrorLayer,
    {
        Self::new()
    }
}

impl<S> Layer<S> for IntoCotErrorLayer {
    type Service = IntoCotError<S>;

    open spec fn wraps(&self, inner: S, service: IntoCotError<S>) -> bool {
        service.inner == inner
    }

    fn layer(&self, inner: S) -> (r: IntoCotError<S>) {
        IntoCotError { inner }
    }
}

/// Stage that fails with the canonical error wherever `inner` fails, from its
/// readiness check or from a call. Successes pass through unchanged.
#[derive(Debug, Clone)]
pub struct IntoCotError<S> {
    /// The wrapped stage.
    pub inner: S,
}

impl<S, E> Stage for IntoCotError<S> where S: Stage<Fault = E>, E: IntoFault {
    type Output = S::Output;

    type Fault = Error;

    open spec fn is_ready(&self) -> bool {
        self.inner.is_ready()
    }

    open spec fn may_report(&self, readiness: Readiness<Error>) -> bool {
        exists|x: Readiness<E>| #[trigger] self.inner.may_report(x) && readiness == lifted_readiness(x)
    }

    open spec fn may_answer(&self, request: Request, result: Result<Response<S::Output>, Error>) -> bool {
        exists|x: Result<Response<S::Output>, E>|
            #[trigger] self.inner.may_answer(request, x) && result == lifted_answer(x)
    }

    fn poll_ready(&mut self) -> (r: Readiness<Error>) {
        let x = self.inner.poll_ready();
        let r = match x {
            Readiness::Ready => Readiness::Ready,
            Readiness::Pending => Readiness::Pending,
            Readiness::Failed(e) => Readiness::Failed(map_err(e)),
        };
        assert(r == lifted_readiness(x));
        r
    }

    fn call(&mut self, request: Request) -> (r: Result<Response<S::Output>, Error>) {
        let x = self.inner.call(request);
        let r = match x {
            Ok(response) => Ok(response),
            Err(e) => Err(map_err(e)),
        };
        assert(r == lifted_answer(x));
        r
    }
}

/// The response adapter reports exactly what its inner stage reports.
pub proof fn lemma_response_adapter_readiness<S, E>(
    service: IntoCotResponse<S>,
    readiness: Readiness<S::Fault>,
) where S: Stage<Output = StageBody<E>>, E: IntoFault
    ensures
        service.may_report(readiness) == service.inner.may_report(readiness),
{
}

/// The error adapter is ready exactly when its inner stage is, pending exactly
/// when it is, and fails exactly when it fails, with the failure normalized.
pub proof fn lemma_error_adapter_readiness<S, E>(service: IntoCotError<S>, e: Error) where
    S: Stage<Fault = E>,
    E: IntoFault,

    ensures
        service.may_report(Readiness::Ready) == service.inner.may_report(Readiness::Ready),
        service.may_report(Readiness::Pending) == service.inner.may_report(Readiness::Pending),
        service.may_report(Readiness::Failed(e)) == exists|f: E|
            #[trigger] service.inner.may_report(Readiness::Failed(f)) && e == normalized(f.fault()),
{
    if service.inner.may_report(Readiness::Ready) {
        assert(lifted_readiness(Readiness::<E>::Ready) == Readiness::<Error>::Ready);
    }
    if service.inner.may_report(Readiness::Pending) {
        assert(lifted_readiness(Readiness::<E>::Pending) == Readiness::<Error>::Pending);
    }
    if exists|f: E| #[trigger] service.inner.may_report(Readiness::Failed(f)) && e == normalized(f.fault()) {
        let f = choose|f: E| #[trigger] service.inner.may_report(Readiness::Failed(f)) && e == normalized(f.fault());
        assert(lifted_readiness(Readiness::Failed(f)) == Readiness::<Error>::Failed(e));
    }
    if service.may_report(Readiness::Failed(e)) {
        let x = choose|x: Readiness<E>| #[trigger] service.inner.may_report(x) && Readiness::Failed(e) == lifted_readiness(x);
        let f = x->Failed_0;
        assert(service.inner.may_report(Readiness::Failed(f)));
    }
}

/// A body in canonical form yields the very bytes of the stage body, in order.
pub proof fn lemma_body_bytes_kept<E: IntoFault>(a: StageBody<E>, b: Body)
    requires
        body_mapped(a, b),
    ensures
        byte_stream(b.chunks@) == byte_stream(a.chunks@),
{
}

} // verus!
