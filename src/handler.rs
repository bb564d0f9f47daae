//! A stage that ends a pipeline with a fixed response.
use vstd::prelude::*;

use crate::error::ErrorReport;
use crate::message::{Request, Response, Session, StageBody};
use crate::stage::{Readiness, Stage};

verus! {

/// Answers every request with the same status and body. It may write data
/// into the request's session, and may hold a failure for its next readiness
/// check and another for its next call.
#[derive(Debug, Clone)]
pub struct FixedHandler {
    pub status: u16,
    pub body: Vec<u8>,
    /// Data written into the session of each request that carries one.
    pub session_data: Option<Vec<u8>>,
    /// A failure that the next readiness check reports.
    pub poll_fault: Option<ErrorReport>,
    /// A failure that the next call gives.
    pub call_fault: Option<ErrorReport>,
    /// Whether the last readiness check reported `Ready` and no call has
    /// followed it yet.
    pub ready: bool,
}

/// The session that a handler writing `data` hands back for `session`.
pub open spec fn written(session: Option<Session>, data: Option<Vec<u8>>, out: Option<Session>) -> bool {
    match (session, data) {
        (Some(s), Some(d)) => {
            &&& out is Some
            &&& out->0.id == s.id
            &&& out->0.data@ == d@
            &&& out->0.modified
        },
        _ => out == session,
    }
}

impl FixedHandler {
    /// A handler that answers `status` with `body` and touches no session.
    pub fn new(status: u16, body: Vec<u8>) -> (r: FixedHandler)
        ensures
            r.status == status,
            r.body == body,
            r.session_data is None,
            r.poll_fault is None,
            r.call_fault is None,
            !r.ready,
    {
        FixedHandler { status, body, session_data: None, poll_fault: None, call_fault: None, ready: false }
    }

    /// Holds when `response` is this handler's answer to `request`.
    pub open spec fn answers(self, request: Request, response: Response<StageBody<ErrorReport>>) -> bool {
        &&& response.status == self.status
        &&& response.headers@.len() == 0
        &&& response.session_id is None
        &&& written(request.session, self.session_data, response.session)
        &&& response.body.chunks@.len() == 1
        &&& response.body.chunks@[0]@ == self.body@
        &&& response.body.failure is None
    }
}

impl Stage for FixedHandler {
    type Output = StageBody<ErrorReport>;

    type Fault = ErrorReport;

    open spec fn may_report(&self, readiness: Readiness<ErrorReport>) -> bool {
        match self.poll_fault {
            Some(e) => readiness == Readiness::Failed(e),
            None => readiness is Ready,
        }
    }

    open spec fn is_ready(&self) -> bool {
        self.ready
    }

    open spec fn may_answer(
        &self,
        request: Request,
        result: Result<Response<StageBody<ErrorReport>>, ErrorReport>,
    ) -> bool {
        match self.call_fault {
            Some(e) => result == Err::<Response<StageBody<ErrorReport>>, ErrorReport>(e),
            None => result is Ok && self.answers(request, result->Ok_0),
        }
    }

    fn poll_ready(&mut self) -> (r: Readiness<ErrorReport>)
        ensures
            final(self).poll_fault is None,
            final(self).ready == (r is Ready),
            final(self).call_fault == old(self).call_fault,
            final(self).status == old(self).status,
            final(self).body == old(self).body,
            final(self).session_data == old(self).session_data,
    {
        match self.poll_fault.take() {
            Some(e) => {
                self.ready = false;
                Readiness::Failed(e)
            },
            None => {
                self.ready = true;
                Readiness::Ready
            },
        }
    }

    fn call(&mut self, request: Request) -> (r: Result<Response<StageBody<ErrorReport>>, ErrorReport>)
        ensures
            final(self).call_fault is None,
            !final(self).ready,
            final(self).poll_fault == old(self).poll_fault,
            final(self).status == old(self).status,
            final(self).body == old(self).body,
            final(self).session_data == old(self).session_data,
    {
        self.ready = false;
        if let Some(e) = self.call_fault.take() {
            return Err(e);
        }
        let session = match (request.session, &self.session_data) {
            (Some(s), Some(d)) => {
                let data = d.clone();
                assert(data@ =~= d@);
                Some(Session { id: s.id, data, modified: true })
            },
            (session, _) => session,
        };
        let chunk = self.body.clone();
        assert(chunk@ =~= self.body@);
        let mut chunks: Vec<Vec<u8>> = Vec::new();
        chunks.push(chunk);
        Ok(
            Response {
                status: self.status,
                headers: Vec::new(),
                session_id: None,
                session,
                body: StageBody { chunks, failure: None },
            },
        )
    }
}

} // verus!
