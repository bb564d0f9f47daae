//! Requests, responses, bodies and sessions as they flow through a pipeline.
use vstd::prelude::*;

use crate::error::Error;

verus! {

/// Per-request session state.
#[derive(Debug, Clone, PartialEq, Eq)]
pub struct Session {
    /// The identifier under which the session is stored, if it has been stored.
    pub id: Option<usize>,
    /// The session's data.
    pub data: Vec<u8>,
    /// Whether the data was changed while the request was handled.
    pub modified: bool,
}

impl Session {
    /// A fresh session that has never been stored.
    pub fn new() -> (r: Session)
        ensures
            r.id is None,
            r.data@ == Seq::<u8>::empty(),
            !r.modified,
    {
        Session { id: None, data: Vec::new(), modified: false }
    }

    /// Replaces the session's data and marks the session as modified.
    pub fn set_data(&mut self, data: Vec<u8>)
        ensures
            final(self).id == old(self).id,
            final(self).data == data,
            final(self).modified,
    {
        self.data = data;
        self.modified = true;
    }
}

/// An inbound request.
#[derive(Debug, Clone, PartialEq, Eq)]
pub struct Request {
    pub path: String,
    /// The session identifier the client presented, if any.
    pub session_id: Option<usize>,
    /// The session attached to the request, if a session stage ran.
    pub session: Option<Session>,
}

impl Request {
    /// A request for `path` with no session identifier and no session.
    pub fn new(path: String) -> (r: Request)
        ensures
            r.path == path,
            r.session_id is None,
            r.session is None,
    {
        Request { path, session_id: None, session: None }
    }
}

/// An outbound response carrying a body of type `B`.
#[derive(Debug, Clone, PartialEq, Eq)]
pub struct Response<B> {
    pub status: u16,
    /// Header names and values, in order.
    pub headers: Vec<(String, String)>,
    /// The session identifier the client is told to present from now on.
    pub session_id: Option<usize>,
    /// The session state after the request was handled.
    pub session: Option<Session>,
    pub body: B,
}

/// A response body as a stage produces it: byte chunks in order, then
/// possibly an error of the stage's own type.
#[derive(Debug, Clone, PartialEq, Eq)]
pub struct StageBody<E> {
    pub chunks: Vec<Vec<u8>>,
    pub failure: Option<E>,
}

/// The canonical response body: byte chunks in order, then possibly a
/// canonical error.
#[derive(Debug, Clone, PartialEq, Eq)]
pub struct Body {
    pub chunks: Vec<Vec<u8>>,
    pub failure: Option<Error>,
}

/// The bytes that a sequence of chunks yields, in order.
pub open spec fn byte_stream(chunks: Seq<Vec<u8>>) -> Seq<u8>
    decreases chunks.len(),
{
    if chunks.len() == 0 {
        Seq::empty()
    } else {
        byte_stream(chunks.drop_last()) + chunks.last()@
    }
}

} // verus!
