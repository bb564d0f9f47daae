//! The session stage: attaches a store-backed session to every request and
//! saves it back when the inner chain changed it.
use vstd::prelude::*;

use crate::message::{Request, Response, Session};
use crate::stage::{Layer, Readiness, Stage};

verus! {

/// An in-memory session store that lives as long as the process, for
/// pipelines of this library's stages. A session's identifier is its position
/// in the store, so identifiers are not secret: a deployment facing untrusted
/// clients drives `resolve_session` and `record_saved` with a store that issues
/// unguessable identifiers instead.
#[derive(Debug, Clone)]
pub struct MemoryStore {
    records: Vec<Vec<u8>>,
}

impl View for MemoryStore {
    type V = Seq<Seq<u8>>;

    closed spec fn view(&self) -> Seq<Seq<u8>> {
        self.records@.map_values(|r: Vec<u8>| r@)
    }
}

/// Where data saved under `id` goes: the record `id` names if it exists, else
/// a new record at the end.
pub open spec fn save_target(store: Seq<Seq<u8>>, id: Option<usize>) -> int {
    match id {
        Some(i) => if i < store.len() { i as int } else { store.len() as int },
        None => store.len() as int,
    }
}

/// The store after saving `data` under `id`.
pub open spec fn stored(store: Seq<Seq<u8>>, id: Option<usize>, data: Seq<u8>) -> Seq<Seq<u8>> {
    if save_target(store, id) < store.len() {
        store.update(save_target(store, id), data)
    } else {
        store.push(data)
    }
}

impl MemoryStore {
    /// An empty store.
    pub fn new() -> (r: MemoryStore)
        ensures
            r@ == Seq::<Seq<u8>>::empty(),
    {
        let r = MemoryStore { records: Vec::new() };
        assert(r@ =~= Seq::<Seq<u8>>::empty());
        r
    }

    /// The number of sessions stored.
    pub fn len(&self) -> (r: usize)
        ensures
            r == self@.len(),
    {
        self.records.len()
    }

    /// The data of the session stored under `id`, if there is one.
    pub fn load(&self, id: usize) -> (r: Option<Vec<u8>>)
        ensures
            r is Some <==> id < self@.len(),
            r is Some ==> r->0@ == self@[id as int],
    {
        if id < self.records.len() {
            let data = self.records[id].clone();
            assert(data@ =~= self.records@[id as int]@);
            Some(data)
        } else {
            None
        }
    }

    /// Saves `data` under `id`, or under a new identifier where `id` names no
    /// stored session. Returns the identifier it was saved under.
    pub fn save(&mut self, id: Option<usize>, data: Vec<u8>) -> (r: usize)
        ensures
            r == save_target(old(self)@, id),
            final(self)@ == stored(old(self)@, id, data@),
    {
        let ghost d = data@;
        match id {
            Some(i) => {
                if i < self.records.len() {
                    self.records.set(i, data);
                    assert(self@ =~= stored(old(self)@, id, d));
                    return i;
                }
            },
            None => {},
        }
        let n = self.records.len();
        self.records.push(data);
        assert(self@ =~= stored(old(self)@, id, d));
        n
    }
}

impl Default for MemoryStore {
    fn default() -> (r: MemoryStore)
        ensures
            r@ == Seq::<Seq<u8>>::empty(),
    {
        MemoryStore::new()
    }
}

/// Holds when `s` is the session resolved for a request that presented `id`:
/// the stored one if `id` names one, else a fresh one.
pub open spec fn resolved(store: Seq<Seq<u8>>, id: Option<usize>, s: Session) -> bool {
    &&& !s.modified
    &&& if id is Some && id->0 < store.len() {
        s.id == id && s.data@ == store[id->0 as int]
    } else {
        s.id is None && s.data@.len() == 0
    }
}

/// `request` with the session `s` attached.
pub open spec fn attached(request: Request, s: Session) -> Request {
    Request { session: Some(s), ..request }
}

/// Holds when the inner result `x` made the session stage save a session.
pub open spec fn saves_session<O, F>(x: Result<Response<O>, F>) -> bool {
    x is Ok && x->Ok_0.session is Some && x->Ok_0.session->0.modified
}

/// Holds when, from the inner result `x`, the session stage gives `r` and
/// leaves the store as `after`: a changed session is saved and the response
/// names the identifier it was saved under; anything else passes unchanged.
pub open spec fn session_finished<O, F>(
    store: Seq<Seq<u8>>,
    x: Result<Response<O>, F>,
    r: Result<Response<O>, F>,
    after: Seq<Seq<u8>>,
) -> bool {
    if saves_session(x) {
        let a = x->Ok_0;
        let s = a.session->0;
        &&& r == Ok::<Response<O>, F>(
            Response { session_id: Some(save_target(store, s.id) as usize), ..a },
        )
        &&& after == stored(store, s.id, s.data@)
    } else {
        r == x && after == store
    }
}

/// The session to attach to a request that presented `presented`, given the
/// data the store returned for it (`None` where it holds nothing under it).
pub fn resolve_session(presented: Option<usize>, loaded: Option<Vec<u8>>) -> (s: Session)
    requires
        loaded is Some ==> presented is Some,
    ensures
        !s.modified,
        match loaded {
            Some(d) => s.id == presented && s.data == d,
            None => s.id is None && s.data@.len() == 0,
        },
{
    match loaded {
        Some(data) => Session { id: presented, data, modified: false },
        None => Session::new(),
    }
}

/// The response after the session it carries was saved under `id`: it names
/// `id` as the session identifier for the client; nothing else changes.
pub fn record_saved<B>(response: Response<B>, id: usize) -> (r: Response<B>)
    ensures
        r == (Response { session_id: Some(id), ..response }),
{
    Response { session_id: Some(id), ..response }
}

/// Layer that adds session management to a stage, backed by a new in-memory
/// store.
#[derive(Debug, Copy, Clone)]
pub struct SessionMiddleware;

impl SessionMiddleware {
    pub fn new() -> (r: Self)
        ensures
            r == SessionMiddleware,
    {
        Self {}
    }
}

impl Default for SessionMiddleware {
    fn default() -> (r: Self)
        ensures
            r == SessionMiddleware,
    {
        Self::new()
    }
}

impl<S> Layer<S> for SessionMiddleware {
    type Service = SessionService<S>;

    open spec fn wraps(&self, inner: S, service: SessionService<S>) -> bool {
        service.inner == inner && service.store@ == Seq::<Seq<u8>>::empty()
    }

    fn layer(&self, inner: S) -> (r: SessionService<S>) {
        SessionService { inner, store: MemoryStore::new() }
    }
}

/// Stage made by `SessionMiddleware`.
#[derive(Debug, Clone)]
pub struct SessionService<S> {
    /// The wrapped stage.
    pub inner: S,
    /// Where sessions are kept between requests.
    pub store: MemoryStore,
}

impl<S: Stage> SessionService<S> {
    /// Holds when a call on `request` may give `result` and leave the store
    /// as `after`.
    pub open spec fn session_answer(
        self,
        request: Request,
        result: Result<Response<S::Output>, S::Fault>,
        after: Seq<Seq<u8>>,
    ) -> bool {
        exists|s: Session, x: Result<Response<S::Output>, S::Fault>|
            resolved(self.store@, request.session_id, s)
            && #[trigger] self.inner.may_answer(attached(request, s), x)
            && session_finished(self.store@, x, result, after)
    }
}

impl<S: Stage> Stage for SessionService<S> {
    type Output = S::Output;

    type Fault = S::Fault;

    open spec fn may_report(&self, readiness: Readiness<S::Fault>) -> bool {
        self.inner.may_report(readiness)
    }

    open spec fn is_ready(&self) -> bool {
        self.inner.is_ready()
    }

    open spec fn may_answer(
        &self,
        request: Request,
        result: Result<Response<S::Output>, S::Fault>,
    ) -> bool {
        exists|after: Seq<Seq<u8>>| self.session_answer(request, result, after)
    }

    fn poll_ready(&mut self) -> (r: Readiness<S::Fault>)
        ensures
            final(self).store@ == old(self).store@,
    {
        self.inner.poll_ready()
    }

    fn call(&mut self, request: Request) -> (r: Result<Response<S::Output>, S::Fault>)
        ensures
            old(self).session_answer(request, r, final(self).store@),
    {
        let ghost before = *self;
        let ghost request0 = request;
        let ghost store0 = self.store@;
        let loaded = match request.session_id {
            Some(id) => self.store.load(id),
            None => None,
        };
        let session = resolve_session(request.session_id, loaded);
        let ghost s = session;
        let inner_request = Request {
            path: request.path,
            session_id: request.session_id,
            session: Some(session),
        };
        assert(inner_request == attached(request0, s));
        let x = self.inner.call(inner_request);
        let ghost x0 = x;
        let r = match x {
            Err(e) => Err(e),
            Ok(response) => {
                let saved: Option<usize> = match &response.session {
                    Some(current) => {
                        if current.modified {
                            let data = current.data.clone();
                            assert(data@ =~= current.data@);
                            Some(self.store.save(current.id, data))
                        } else {
                            None
                        }
                    },
                    None => None,
                };
                match saved {
                    Some(id) => Ok(record_saved(response, id)),
                    None => Ok(response),
                }
            },
        };
        assert(session_finished(store0, x0, r, self.store@));
        assert(before.session_answer(request0, r, self.store@));
        r
    }
}

/// Through an empty store, a request that presents no session identifier gets
/// a fresh session attached before the inner chain runs; if the inner chain
/// changed that session, the store holds it afterwards under the identifier
/// that the response names.
pub proof fn lemma_session_attached<S: Stage>(
    service: SessionService<S>,
    request: Request,
    result: Result<Response<S::Output>, S::Fault>,
    after: Seq<Seq<u8>>,
)
    requires
        service.store@.len() == 0,
        request.session_id is None,
        service.session_answer(request, result, after),
    ensures
        exists|s: Session, x: Result<Response<S::Output>, S::Fault>|
            {
                &&& s.id is None
                &&& s.data@.len() == 0
                &&& #[trigger] service.inner.may_answer(attached(request, s), x)
                &&& saves_session(x) ==> {
                    &&& result is Ok
                    &&& result->Ok_0.session_id is Some
                    &&& after[result->Ok_0.session_id->0 as int] == x->Ok_0.session->0.data@
                }
            },
{
    let (s, x) = choose|s: Session, x: Result<Response<S::Output>, S::Fault>|
        resolved(service.store@, request.session_id, s)
        && #[trigger] service.inner.may_answer(attached(request, s), x)
        && session_finished(service.store@, x, result, after);
    assert(service.inner.may_answer(attached(request, s), x));
}

} // verus!
