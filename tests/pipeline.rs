use cot::{
    map_body, map_err, Body, ConditionalLayer, Error, ErrorReport, FixedHandler, IntoCotError,
    IntoCotErrorLayer, IntoCotResponse, IntoCotResponseLayer, Layer, MemoryStore, Readiness,
    Request, Response, Session, SessionMiddleware, Stage, StageBody, record_saved, resolve_session,
};

fn report(message: &str) -> ErrorReport {
    ErrorReport::new(message.to_string())
}

fn failing_handler(message: &str) -> FixedHandler {
    let mut h = FixedHandler::new(200, b"ok".to_vec());
    h.call_fault = Some(report(message));
    h
}

fn unready_handler(message: &str) -> FixedHandler {
    let mut h = FixedHandler::new(200, b"ok".to_vec());
    h.poll_fault = Some(report(message));
    h
}

fn ready_call<S: Stage>(stage: &mut S, request: Request) -> Result<Response<S::Output>, S::Fault> {
    assert!(matches!(stage.poll_ready(), Readiness::Ready));
    stage.call(request)
}

fn canonical(h: FixedHandler) -> IntoCotError<IntoCotResponse<FixedHandler>> {
    IntoCotErrorLayer::new().layer(IntoCotResponseLayer::new().layer(h))
}

#[test]
fn map_err_wraps_foreign_error() {
    let e = map_err(report("disk full"));
    assert_eq!(e, Error::MiddlewareWrapped { source: report("disk full") });
}

#[test]
fn wrapped_error_text_and_source() {
    let mut r = report("connection reset");
    r.causes.push("broken pipe".to_string());
    let e = map_err(r.clone());
    assert_eq!(e.to_string(), "error in middleware: connection reset");
    assert!(e.to_string().contains("connection reset"));
    assert_eq!(e.source(), Some(&r));
    assert_eq!(e.source().unwrap().causes, vec!["broken pipe".to_string()]);
}

#[test]
fn custom_error_text_and_no_source() {
    let e = Error::Custom { message: "not found".to_string() };
    assert_eq!(e.to_string(), "not found");
    assert_eq!(e.source(), None);
}

#[test]
fn canonical_error_is_not_wrapped_again() {
    let once = map_err(report("timeout"));
    let twice = map_err(once.clone());
    assert_eq!(twice, once);
    let custom = Error::Custom { message: "bad request".to_string() };
    assert_eq!(map_err(custom.clone()), custom);
}

#[test]
fn error_adapter_readiness_follows_inner() {
    let mut ready = IntoCotErrorLayer::new().layer(FixedHandler::new(200, vec![]));
    assert_eq!(ready.poll_ready(), Readiness::Ready);
    let mut failed = IntoCotErrorLayer::new().layer(unready_handler("overloaded"));
    assert_eq!(
        failed.poll_ready(),
        Readiness::Failed(Error::MiddlewareWrapped { source: report("overloaded") })
    );
}

#[test]
fn response_adapter_readiness_follows_inner() {
    let mut ready = IntoCotResponseLayer::new().layer(FixedHandler::new(200, vec![]));
    assert_eq!(ready.poll_ready(), Readiness::Ready);
    let mut failed = IntoCotResponseLayer::new().layer(unready_handler("overloaded"));
    assert_eq!(failed.poll_ready(), Readiness::Failed(report("overloaded")));
}

#[test]
fn error_adapter_wraps_call_failure() {
    let mut s = IntoCotErrorLayer::new().layer(failing_handler("boom"));
    let r = ready_call(&mut s, Request::new("/".to_string()));
    assert_eq!(r, Err(Error::MiddlewareWrapped { source: report("boom") }));
}

#[test]
fn error_adapter_keeps_success() {
    let mut s = IntoCotErrorLayer::new().layer(FixedHandler::new(201, b"made".to_vec()));
    let r = ready_call(&mut s, Request::new("/items".to_string())).unwrap();
    assert_eq!(r.status, 201);
    assert_eq!(r.body.chunks, vec![b"made".to_vec()]);
}

#[test]
fn response_adapter_keeps_bytes_and_status() {
    let mut s = IntoCotResponseLayer::new().layer(FixedHandler::new(404, b"missing".to_vec()));
    let r = ready_call(&mut s, Request::new("/x".to_string())).unwrap();
    assert_eq!(r.status, 404);
    assert_eq!(r.body, Body { chunks: vec![b"missing".to_vec()], failure: None });
}

#[test]
fn response_adapter_passes_call_failure() {
    let mut s = IntoCotResponseLayer::new().layer(failing_handler("boom"));
    assert_eq!(ready_call(&mut s, Request::new("/".to_string())), Err(report("boom")));
}

#[test]
fn body_chunks_kept_in_order() {
    let body = StageBody::<ErrorReport> {
        chunks: vec![b"ab".to_vec(), vec![], b"cde".to_vec()],
        failure: None,
    };
    let mapped = map_body(body);
    assert_eq!(mapped.chunks, vec![b"ab".to_vec(), vec![], b"cde".to_vec()]);
    assert_eq!(mapped.chunks.concat(), b"abcde".to_vec());
    assert_eq!(mapped.failure, None);
}

#[test]
fn body_failure_is_normalized() {
    let body = StageBody { chunks: vec![b"par".to_vec()], failure: Some(report("stream cut")) };
    let mapped = map_body(body);
    assert_eq!(mapped.chunks, vec![b"par".to_vec()]);
    assert_eq!(mapped.failure, Some(Error::MiddlewareWrapped { source: report("stream cut") }));
}

#[test]
fn disabled_layer_matches_next_stage() {
    let request = Request::new("/page".to_string());
    let mut direct = canonical(FixedHandler::new(200, b"page".to_vec()));
    let expected = ready_call(&mut direct, request.clone());
    let layer = ConditionalLayer::with_enabled(false, IntoCotErrorLayer::new());
    let mut built = layer.layer(canonical(FixedHandler::new(200, b"page".to_vec())));
    assert_eq!(ready_call(&mut built, request), expected);
    assert_eq!(built.poll_ready(), Readiness::Ready);
}

#[test]
fn disabled_layer_passes_failures_of_next() {
    let layer = ConditionalLayer::with_enabled(false, IntoCotErrorLayer::new());
    let mut built = layer.layer(canonical(failing_handler("down")));
    let r = ready_call(&mut built, Request::new("/".to_string()));
    assert_eq!(r, Err(Error::MiddlewareWrapped { source: report("down") }));
}

#[test]
fn enabled_layer_returns_inner_response() {
    let layer = ConditionalLayer::with_enabled(true, IntoCotErrorLayer::new());
    let mut built = layer.layer(canonical(FixedHandler::new(202, b"x".to_vec())));
    let expected = Response {
        status: 202,
        headers: vec![],
        session_id: None,
        session: None,
        body: Body { chunks: vec![b"x".to_vec()], failure: None },
    };
    assert_eq!(ready_call(&mut built, Request::new("/a".to_string())), Ok(expected.clone()));
    assert_eq!(ready_call(&mut built, Request::new("/b".to_string())), Ok(expected));
}

#[test]
fn enabled_layer_reports_inner_readiness() {
    let layer = ConditionalLayer::with_enabled(true, IntoCotErrorLayer::new());
    let mut built = layer.layer(canonical(unready_handler("busy")));
    assert_eq!(
        built.poll_ready(),
        Readiness::Failed(Error::MiddlewareWrapped { source: report("busy") })
    );
}

#[test]
fn missing_flag_disables() {
    assert!(ConditionalLayer::from_flag(None, IntoCotErrorLayer::new()).layer.is_none());
    assert!(ConditionalLayer::from_flag(Some(false), IntoCotErrorLayer::new()).layer.is_none());
    assert!(ConditionalLayer::from_flag(Some(true), IntoCotErrorLayer::new()).layer.is_some());
}

#[test]
fn session_attached_and_saved() {
    let mut h = FixedHandler::new(200, b"hi".to_vec());
    h.session_data = Some(b"user=7".to_vec());
    let mut s = SessionMiddleware::new().layer(h);
    assert_eq!(s.store.len(), 0);
    let r = ready_call(&mut s, Request::new("/login".to_string())).unwrap();
    assert_eq!(r.session_id, Some(0));
    let session = r.session.unwrap();
    assert_eq!(session.data, b"user=7".to_vec());
    assert!(session.modified);
    assert_eq!(s.store.load(0), Some(b"user=7".to_vec()));
    assert_eq!(s.store.len(), 1);
}

#[test]
fn session_fresh_when_untouched() {
    let mut s = SessionMiddleware::default().layer(FixedHandler::new(200, vec![]));
    let r = ready_call(&mut s, Request::new("/".to_string())).unwrap();
    assert_eq!(r.session, Some(Session::new()));
    assert_eq!(r.session_id, None);
    assert_eq!(s.store.len(), 0);
}

#[test]
fn session_loaded_and_rewritten_under_same_id() {
    let mut h = FixedHandler::new(200, vec![]);
    h.session_data = Some(b"v2".to_vec());
    let mut s = SessionMiddleware::new().layer(h);
    assert_eq!(s.store.save(None, b"v1".to_vec()), 0);
    let mut request = Request::new("/".to_string());
    request.session_id = Some(0);
    let r = ready_call(&mut s, request).unwrap();
    assert_eq!(r.session_id, Some(0));
    assert_eq!(r.session.unwrap().id, Some(0));
    assert_eq!(s.store.load(0), Some(b"v2".to_vec()));
    assert_eq!(s.store.len(), 1);
}

#[test]
fn session_unknown_id_gets_new_record() {
    let mut h = FixedHandler::new(200, vec![]);
    h.session_data = Some(b"d".to_vec());
    let mut s = SessionMiddleware::new().layer(h);
    let mut request = Request::new("/".to_string());
    request.session_id = Some(9);
    let r = ready_call(&mut s, request).unwrap();
    assert_eq!(r.session_id, Some(0));
    assert_eq!(s.store.load(9), None);
}

#[test]
fn session_stage_passes_failures() {
    let mut s = SessionMiddleware::new().layer(failing_handler("nope"));
    assert_eq!(ready_call(&mut s, Request::new("/".to_string())), Err(report("nope")));
    assert_eq!(s.store.len(), 0);
}

#[test]
fn memory_store_save_and_load() {
    let mut store = MemoryStore::default();
    assert_eq!(store.load(0), None);
    assert_eq!(store.save(None, b"a".to_vec()), 0);
    assert_eq!(store.save(Some(5), b"b".to_vec()), 1);
    assert_eq!(store.save(Some(0), b"c".to_vec()), 0);
    assert_eq!(store.load(0), Some(b"c".to_vec()));
    assert_eq!(store.load(1), Some(b"b".to_vec()));
    assert_eq!(store.len(), 2);
}

#[test]
fn session_set_data_marks_modified() {
    let mut session = Session::new();
    assert!(!session.modified);
    session.set_data(b"z".to_vec());
    assert!(session.modified);
    assert_eq!(session.data, b"z".to_vec());
    assert_eq!(session.id, None);
}

#[test]
fn disabled_layer_reports_next_readiness_failure() {
    let layer = ConditionalLayer::with_enabled(false, IntoCotErrorLayer::new());
    let mut built = layer.layer(canonical(unready_handler("store offline")));
    assert_eq!(
        built.poll_ready(),
        Readiness::Failed(Error::MiddlewareWrapped { source: report("store offline") })
    );
}

#[test]
fn handler_readiness_is_used_up_by_call() {
    let mut h = FixedHandler::new(200, vec![]);
    assert!(!h.ready);
    assert_eq!(h.poll_ready(), Readiness::Ready);
    assert!(h.ready);
    assert!(h.call(Request::new("/".to_string())).is_ok());
    assert!(!h.ready);
}

#[test]
fn resolve_session_uses_loaded_record() {
    let s = resolve_session(Some(3), Some(b"cart".to_vec()));
    assert_eq!(s, Session { id: Some(3), data: b"cart".to_vec(), modified: false });
    assert_eq!(resolve_session(Some(3), None), Session::new());
    assert_eq!(resolve_session(None, None), Session::new());
}

#[test]
fn record_saved_names_session_id() {
    let response = Response {
        status: 200,
        headers: vec![("content-type".to_string(), "text/plain".to_string())],
        session_id: None,
        session: None,
        body: b"b".to_vec(),
    };
    let r = record_saved(response, 4);
    assert_eq!(r.session_id, Some(4));
    assert_eq!(r.status, 200);
    assert_eq!(r.body, b"b".to_vec());
    assert_eq!(r.headers, vec![("content-type".to_string(), "text/plain".to_string())]);
}

#[test]
fn response_adapter_keeps_headers() {
    let response = Response {
        status: 301,
        headers: vec![("location".to_string(), "/new".to_string())],
        session_id: None,
        session: None,
        body: StageBody::<ErrorReport> { chunks: vec![], failure: None },
    };
    let mapped = cot::map_response(response);
    assert_eq!(mapped.status, 301);
    assert_eq!(mapped.headers, vec![("location".to_string(), "/new".to_string())]);
}
