use pasir::context::Context;
use pasir::context::ContextSender;
use pasir::coordinator::ExecutionSlot;
use pasir::error::ExecutePhpError;
use pasir::error::error_status;
use pasir::http::HttpRequest;
use pasir::http::HttpVersion;
use pasir::http::ResponseType;
use pasir::http::SocketAddress;
use pasir::http::Stream;
use pasir::resolver::FsSnapshot;
use pasir::resolver::wants_engine;
use pasir::unbound_channel::HeadReceiver;
use pasir::unbound_channel::UnboundChannel;

fn addr(ip: &str, port: u16) -> SocketAddress {
    SocketAddress { ip: ip.as_bytes().to_vec(), port }
}

fn request(method: &str, path: &str, query: Option<&str>, headers: &[(&str, &str)], body: &[u8]) -> HttpRequest {
    HttpRequest {
        method: method.as_bytes().to_vec(),
        uri_path: path.as_bytes().to_vec(),
        query: query.map(|q| q.as_bytes().to_vec()),
        version: HttpVersion::Http11,
        headers: headers
            .iter()
            .map(|(n, v)| (n.as_bytes().to_vec(), v.as_bytes().to_vec()))
            .collect(),
        body: body.to_vec(),
    }
}

fn context(
    root: &str,
    files: &[&str],
    req: HttpRequest,
) -> (HeadReceiver, UnboundChannel, Context) {
    let fs = FsSnapshot::new(files.iter().map(|p| p.as_bytes().to_vec()).collect());
    let (head_rx, body_rx, sender) = ContextSender::receiver();
    let stream = Stream::new(addr("127.0.0.1", 8080), addr("10.0.0.1", 55555));
    let ctx = Context::new(root.as_bytes().to_vec(), &fs, stream, req, sender, 7);
    (head_rx, body_rx, ctx)
}

#[test]
fn test_flush() {
    let (_head_rx, _body_rx, mut ctx) =
        context("/www", &["/index.php"], request("GET", "/", None, &[], b""));
    // flush succeeds while the request is not finished yet
    assert!(ctx.flush());
    // the first finalize succeeds
    assert!(ctx.finish_request());
    // flush reports failure once the request finished
    assert!(!ctx.flush());
}

#[test]
fn finalize_idempotent() {
    let (mut head_rx, mut body_rx, mut ctx) =
        context("/www", &["/index.php"], request("GET", "/", None, &[], b""));
    let (n, _) = ctx.ub_write(b"hello");
    assert_eq!(n, 5);
    assert!(ctx.finish_request());
    assert!(!ctx.finish_request());
    // the output was delivered exactly once
    let head = head_rx.try_recv().unwrap();
    assert!(matches!(head.kind, ResponseType::Full));
    assert_eq!(body_rx.try_next_frame(), Some(b"hello".to_vec()));
    assert_eq!(body_rx.try_next_frame(), None);
    assert!(body_rx.try_finished());
}

#[test]
fn full_delivery_without_flush() {
    let (mut head_rx, mut body_rx, mut ctx) =
        context("/www", &["/index.php"], request("GET", "/", None, &[], b""));
    ctx.ub_write(b"abc");
    ctx.ub_write(b"def");
    // nothing is observable before finalize
    assert!(head_rx.try_recv().is_none());
    assert_eq!(body_rx.try_next_frame(), None);
    assert!(ctx.finish_request());
    let head = head_rx.try_recv().unwrap();
    assert_eq!(head.status, 200);
    assert!(matches!(head.kind, ResponseType::Full));
    // exactly one frame carrying the complete body, then the end signal
    assert_eq!(body_rx.try_next_frame(), Some(b"abcdef".to_vec()));
    assert_eq!(body_rx.try_next_frame(), None);
    assert!(body_rx.try_finished());
}

#[test]
fn chunked_delivery_with_flush() {
    // the engine writes 10 bytes, flushes, writes 5 more, finalizes
    let (mut head_rx, mut body_rx, mut ctx) =
        context("/www", &["/index.php"], request("GET", "/", None, &[], b""));
    let (n, _) = ctx.ub_write(b"0123456789");
    assert_eq!(n, 10);
    assert!(ctx.flush());
    let (n, _) = ctx.ub_write(b"01234");
    assert_eq!(n, 5);
    assert!(ctx.finish_request());
    // the head (default status 200) comes first, then the two frames in
    // write order, then the end of the stream
    let head = head_rx.try_recv().unwrap();
    assert_eq!(head.status, 200);
    assert!(matches!(head.kind, ResponseType::Chunked));
    assert_eq!(body_rx.try_next_frame(), Some(b"0123456789".to_vec()));
    assert_eq!(body_rx.try_next_frame(), Some(b"01234".to_vec()));
    assert_eq!(body_rx.try_next_frame(), None);
    assert!(body_rx.try_finished());
}

#[test]
fn head_before_body_ordering() {
    let (mut head_rx, mut body_rx, mut ctx) =
        context("/www", &["/index.php"], request("GET", "/", None, &[], b""));
    ctx.ub_write(b"early");
    // before the first flush no frame is observable
    assert_eq!(body_rx.try_next_frame(), None);
    assert!(head_rx.try_recv().is_none());
    assert!(ctx.flush());
    // once a frame is observable the head already is
    let head = head_rx.try_recv();
    assert!(head.is_some());
    assert_eq!(body_rx.try_next_frame(), Some(b"early".to_vec()));
}

#[test]
fn abort_notified_exactly_once() {
    let (_head_rx, body_rx, mut ctx) =
        context("/www", &["/index.php"], request("GET", "/", None, &[], b""));
    // the client goes away: the body receiver is dropped before finalize
    drop(body_rx);
    let (n, notify) = ctx.ub_write(b"lost");
    assert_eq!(n, 0);
    assert!(notify);
    // a later write reports zero again without a second notification
    let (n, notify) = ctx.ub_write(b"lost again");
    assert_eq!(n, 0);
    assert!(!notify);
    assert!(ctx.is_aborted());
    // finalize still releases the context, reporting the failed delivery
    assert!(!ctx.finish_request());
    assert!(ctx.is_request_finished());
}

#[test]
fn headers_accumulate_and_leave_with_the_head() {
    let (mut head_rx, _body_rx, mut ctx) =
        context("/www", &["/index.php"], request("GET", "/", None, &[], b""));
    ctx.append_response_header(b"Foo".to_vec(), b"Bar".to_vec());
    ctx.append_response_header(b"Foo".to_vec(), b"Baz".to_vec());
    ctx.set_status(404);
    assert!(ctx.finish_request());
    let head = head_rx.try_recv().unwrap();
    assert_eq!(head.status, 404);
    assert_eq!(
        head.headers,
        vec![
            (b"Foo".to_vec(), b"Bar".to_vec()),
            (b"Foo".to_vec(), b"Baz".to_vec()),
        ]
    );
}

#[test]
fn out_of_range_engine_status_falls_back() {
    let (mut head_rx, _body_rx, mut ctx) =
        context("/www", &["/index.php"], request("GET", "/", None, &[], b""));
    ctx.set_status(1293);
    assert!(ctx.finish_request());
    let head = head_rx.try_recv().unwrap();
    assert_eq!(head.status, 200);
}

#[test]
fn test_read_post() {
    let (_head_rx, _body_rx, mut ctx) =
        context("/www", &["/index.php"], request("POST", "/", None, &[], b"Foo"));
    assert_eq!(ctx.read_body(1), b"F".to_vec());
    assert_eq!(ctx.read_body(2), b"oo".to_vec());
    // the body is exhausted: nothing more, whatever was declared
    assert_eq!(ctx.read_body(3), Vec::<u8>::new());
}

#[test]
fn slot_refuses_a_second_context() {
    let (_h1, _b1, ctx1) = context("/www", &["/index.php"], request("GET", "/", None, &[], b""));
    let (_h2, _b2, ctx2) = context("/www", &["/index.php"], request("GET", "/", None, &[], b""));
    let mut slot = ExecutionSlot::new();
    let id = slot.install(ctx1).ok().unwrap();
    assert_eq!(id, 7);
    assert!(slot.install(ctx2).is_err());
    assert!(slot.is_installed());
}

#[test]
fn slot_release_verifies_identity_and_forces_finalize() {
    let (mut head_rx, _body_rx, ctx) =
        context("/www", &["/index.php"], request("GET", "/", None, &[], b""));
    let mut slot = ExecutionSlot::new();
    let id = slot.install(ctx).ok().unwrap();
    slot.ub_write(b"body");
    // the script never called an explicit finish: release finalizes
    let ctx = slot.release(id).unwrap();
    assert!(ctx.is_request_finished());
    assert!(!slot.is_installed());
    assert!(head_rx.try_recv().is_some());
    // a release without an installed context is a contained error
    assert!(slot.release(id).is_err());
}

#[test]
fn slot_release_detects_foreign_context() {
    let (_h, _b, ctx) = context("/www", &["/index.php"], request("GET", "/", None, &[], b""));
    let mut slot = ExecutionSlot::new();
    let id = slot.install(ctx).ok().unwrap();
    assert!(slot.release(id + 1).is_err());
    assert!(!slot.is_installed());
}

#[test]
fn startup_failure_yields_service_unavailable_and_no_body() {
    // engine per-request startup fails: the request is answered 503 with
    // zero bytes of body, and the slot is still cleaned up
    let (mut head_rx, mut body_rx, ctx) =
        context("/www", &["/index.php"], request("GET", "/", None, &[], b""));
    let mut slot = ExecutionSlot::new();
    slot.install(ctx).ok().unwrap();
    let status = error_status(ExecutePhpError::RequestStartupFailed);
    assert_eq!(status, 503);
    // no script ran: nothing was delivered through the context's channels
    assert!(head_rx.try_recv().is_none());
    assert_eq!(body_rx.try_next_frame(), None);
    // the cleanup path still releases the slot
    assert!(slot.deactivate());
    assert!(!slot.is_installed());
}

#[test]
fn deactivate_forces_unfinished_context() {
    let (mut head_rx, _body_rx, ctx) =
        context("/www", &["/index.php"], request("GET", "/", None, &[], b""));
    let mut slot = ExecutionSlot::new();
    slot.install(ctx).ok().unwrap();
    slot.ub_write(b"partial");
    assert!(slot.deactivate());
    assert!(!slot.is_installed());
    // the forced finalize delivered the head
    assert!(head_rx.try_recv().is_some());
}

#[test]
fn test_read_cookies() {
    let (_h, _b, ctx) = context(
        "/www",
        &["/index.php"],
        request("GET", "/", None, &[("cookie", "foo=bar")], b""),
    );
    assert_eq!(pasir::sapi::read_cookies(&ctx), Some(b"foo=bar".to_vec()));
    let (_h, _b, ctx) = context("/www", &["/index.php"], request("GET", "/", None, &[], b""));
    assert_eq!(pasir::sapi::read_cookies(&ctx), None);
}

#[test]
fn engine_dispatch_by_path_shape() {
    assert!(wants_engine(b"/"));
    assert!(wants_engine(b"/foo/"));
    assert!(wants_engine(b"/foo/bar.php"));
    assert!(!wants_engine(b"/style.css"));
    assert!(!wants_engine(b"/foo"));
}

#[test]
fn full_bodies_assemble_in_order() {
    let frames = vec![b"ab".to_vec(), b"".to_vec(), b"cde".to_vec()];
    assert_eq!(pasir::http::assemble_full(frames), b"abcde".to_vec());
    assert_eq!(pasir::http::assemble_full(Vec::new()), Vec::<u8>::new());
}

#[test]
fn empty() {
    let (tx, mut body) = UnboundChannel::new();
    drop(tx);
    assert_eq!(body.try_next_frame(), None);
}

#[test]
fn can_send_data() {
    let (mut tx, mut body) = UnboundChannel::new();
    assert!(tx.send(b"Hel".to_vec()));
    assert!(tx.send(b"lo!".to_vec()));
    let mut collected = Vec::new();
    while let Some(frame) = body.try_next_frame() {
        collected.extend_from_slice(&frame);
    }
    assert_eq!(collected, b"Hello!".to_vec());
}

#[test]
fn abort_will_close() {
    let (tx, mut body) = UnboundChannel::new();
    assert!(tx.abort());
    assert_eq!(body.try_next_frame(), None);
    assert!(body.try_finished());
}
