use std::sync::Arc;

use grpc_server::call::CallOp;
use grpc_server::context::{
    Arrival, BatchContext, RequestContext, RpcContext, UnaryRequestContext, CALL_OK,
};
use grpc_server::deadline::{ClockType, Deadline, Timespec};
use grpc_server::execute::Accepted;
use grpc_server::server::{Handler, Inner, MethodType};
use grpc_server::status::{RpcStatus, RpcStatusCode};

type Srv = &'static str;
type Seen = (Vec<u8>, Vec<u8>, Vec<u8>, bool);
type CallBack = fn(RpcContext<Srv>, &[u8]) -> Seen;

fn at(tv_sec: i64, tv_nsec: i32) -> Timespec {
    Timespec { tv_sec, tv_nsec, clock_type: ClockType::Realtime }
}

fn request(method: &[u8], call: usize) -> RequestContext<Srv> {
    let mut ctx = RequestContext::new(0x1000, Arc::new("server"));
    ctx.arrive(Arrival {
        method: method.to_vec(),
        host: b"example.org".to_vec(),
        deadline: Deadline::new(at(50, 0)),
        call,
    });
    ctx
}

/// Hands back what the handler saw.
fn see(ctx: RpcContext<Srv>, payload: &[u8]) -> Seen {
    let has_call = ctx.request_ctx().has_call();
    (ctx.method().to_vec(), ctx.host().to_vec(), payload.to_vec(), has_call)
}

fn handlers() -> Inner<CallBack> {
    let mut inner: Inner<CallBack> = Inner::new();
    inner.register(b"unary".to_vec(), Handler::new(MethodType::Unary, see));
    inner.register(b"client".to_vec(), Handler::new(MethodType::ClientStreaming, see));
    inner.register(b"server".to_vec(), Handler::new(MethodType::ServerStreaming, see));
    inner.register(b"duplex".to_vec(), Handler::new(MethodType::Duplex, see));
    inner
}

#[test]
fn new_context_is_empty() {
    let mut ctx: RequestContext<Srv> = RequestContext::new(9, Arc::new("server"));
    assert_eq!(ctx.as_ptr(), 9);
    assert!(ctx.method().is_empty());
    assert!(ctx.host().is_empty());
    assert!(!ctx.has_call());
    assert!(ctx.deadline().exceeded(at(0, 0)));
    assert!(!ctx.deadline().exceeded(at(-1, 999_999_999)));
    assert!(ctx.take_call().is_none());
}

#[test]
fn inner_is_taken_once() {
    let mut ctx = request(b"unary", 5);
    assert_eq!(*ctx.take_inner().unwrap(), "server");
    assert!(ctx.take_inner().is_none());
    assert_eq!(ctx.method(), b"unary");
    assert!(ctx.has_call());
}

#[test]
fn call_is_taken_once() {
    let mut ctx = request(b"unary", 5);
    let call = ctx.take_call().unwrap();
    assert_eq!(call.raw(), 5);
    assert!(call.ops().is_empty());
    assert!(ctx.take_call().is_none());
    assert!(!ctx.has_call());
    assert_eq!(ctx.host(), b"example.org");
}

#[test]
fn streaming_requests_are_served_at_once() {
    for method in [&b"client"[..], &b"duplex"[..]] {
        match request(method, 5).handle_stream_req(&handlers()) {
            Ok(Accepted::Served(seen)) => assert_eq!(
                seen,
                (method.to_vec(), b"example.org".to_vec(), Vec::new(), true)
            ),
            _ => panic!("not served"),
        }
    }
}

#[test]
fn requests_with_one_message_are_handed_back() {
    for method in [&b"unary"[..], &b"server"[..]] {
        match request(method, 5).handle_stream_req(&handlers()) {
            Err(ctx) => {
                assert_eq!(ctx.as_ptr(), 0x1000);
                assert_eq!(ctx.method(), method);
                assert_eq!(ctx.host(), b"example.org");
                assert!(ctx.has_call());
                assert!(ctx.deadline().exceeded(at(50, 0)));
            }
            _ => panic!("not handed back"),
        }
    }
}

#[test]
fn unknown_method_is_unimplemented() {
    match request(b"nothing", 5).handle_stream_req(&handlers()) {
        Ok(Accepted::Aborted(call)) => {
            assert_eq!(call.raw(), 5);
            assert_eq!(
                call.ops(),
                &[
                    CallOp::StartServerSide,
                    CallOp::Abort { status: RpcStatus::new(RpcStatusCode::Unimplemented, None) },
                ]
            );
        }
        _ => panic!("not aborted"),
    }
}

fn put_off(method: &[u8]) -> UnaryRequestContext<Srv> {
    let ctx = request(method, 5);
    let receive = ctx.handle_unary_req(Arc::new("other"), BatchContext { ctx: 0x2000 });
    assert_eq!(receive.call, 5);
    assert_eq!(receive.batch_ctx, 0x2000);
    match receive.started(CALL_OK) {
        Ok(tag) => tag,
        Err(code) => panic!("{}", code),
    }
}

#[test]
fn message_is_fetched_before_the_handler_is_called() {
    let mut tag = put_off(b"unary");
    assert_eq!(tag.batch_ctx().as_ptr(), 0x2000);
    assert_eq!(tag.request_ctx().as_ptr(), 0x1000);
    assert!(tag.request_ctx().has_call());
    assert_eq!(*tag.take_inner().unwrap(), "other");
    assert!(tag.take_inner().is_none());
    match tag.handle(&handlers(), Some(&[7, 8])) {
        Accepted::Served(seen) => assert_eq!(
            seen,
            (b"unary".to_vec(), b"example.org".to_vec(), vec![7, 8], true)
        ),
        _ => panic!("not served"),
    }
}

#[test]
fn failure_to_start_receiving_is_reported() {
    let ctx = request(b"unary", 5);
    let receive = ctx.handle_unary_req(Arc::new("other"), BatchContext { ctx: 1 });
    assert!(matches!(receive.started(8), Err(8)));
}

#[test]
fn missing_message_is_an_internal_error() {
    match put_off(b"server").handle(&handlers(), None) {
        Accepted::Aborted(call) => {
            assert_eq!(call.raw(), 5);
            let status = RpcStatus::new(RpcStatusCode::Internal, Some("No payload".to_string()));
            assert_eq!(call.ops(), &[CallOp::Abort { status }]);
        }
        _ => panic!("not aborted"),
    }
}

#[test]
fn empty_message_is_served() {
    match put_off(b"unary").handle(&handlers(), Some(&[])) {
        Accepted::Served(seen) => assert!(seen.2.is_empty()),
        _ => panic!("not served"),
    }
}

#[test]
fn rpc_context_shows_the_request() {
    let mut ctx = RpcContext::new(request(b"unary", 5));
    assert_eq!(ctx.method(), b"unary");
    assert_eq!(ctx.host(), b"example.org");
    assert!(!ctx.deadline().exceeded(at(49, 1)));
    assert!(ctx.deadline().exceeded(at(50, 1)));
    assert_eq!(ctx.take_call().unwrap().raw(), 5);
    assert!(ctx.take_call().is_none());
}
