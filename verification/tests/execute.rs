use std::sync::Arc;

use grpc_server::call::{Call, CallOp};
use grpc_server::context::{Arrival, RequestContext, RpcContext};
use grpc_server::deadline::{ClockType, Deadline, Timespec};
use grpc_server::execute::{
    dispatch_server_streaming, dispatch_unary, execute, execute_client_streaming,
    execute_duplex_streaming, execute_server_streaming, execute_unary, execute_unimplemented,
    open_call, Accepted,
};
use grpc_server::status::{RpcStatus, RpcStatusCode};
use grpc_server::stream::RequestStream;
use grpc_server::stream_sink::{DuplexSink, ServerStreamingSink};
use grpc_server::unary_sink::{ClientStreamingSink, UnarySink};

type Ser = fn(&u16, &mut Vec<u8>);
type De = fn(&[u8]) -> Result<u16, BadLength>;

#[derive(Debug)]
struct BadLength(usize);

fn ser(message: &u16, buf: &mut Vec<u8>) {
    buf.extend_from_slice(&message.to_be_bytes());
}

fn de(bytes: &[u8]) -> Result<u16, BadLength> {
    if bytes.len() == 2 {
        Ok(u16::from_be_bytes([bytes[0], bytes[1]]))
    } else {
        Err(BadLength(bytes.len()))
    }
}

fn show(e: &BadLength) -> String {
    format!("{:?}", e)
}

fn request() -> RequestContext<u8> {
    let mut ctx = RequestContext::new(1, Arc::new(0u8));
    ctx.arrive(Arrival {
        method: b"m".to_vec(),
        host: b"h".to_vec(),
        deadline: Deadline::new(Timespec {
            tv_sec: 0,
            tv_nsec: 0,
            clock_type: ClockType::Realtime,
        }),
        call: 42,
    });
    ctx
}

fn context() -> RpcContext<u8> {
    RpcContext::new(request())
}

fn internal(text: &str) -> RpcStatus {
    RpcStatus::new(RpcStatusCode::Internal, Some(text.to_string()))
}

fn assert_undecodable(call: &Call) {
    assert_eq!(call.raw(), 42);
    assert_eq!(
        call.ops(),
        &[
            CallOp::StartServerSide,
            CallOp::Abort {
                status: internal("Failed to deserialize response message: BadLength(3)"),
            },
        ]
    );
}

#[test]
fn unary_handler_gets_request_and_sink() {
    let handler = |ctx: RpcContext<u8>, request: u16, sink: UnarySink<Ser>| {
        assert!(!ctx.request_ctx().has_call());
        assert_eq!(ctx.method(), b"m");
        assert_eq!(sink.call().raw(), 42);
        assert_eq!(sink.call().ops(), &[CallOp::StartServerSide]);
        (request, sink)
    };
    match execute_unary(context(), ser as Ser, de as De, &show, &[1, 2], &handler) {
        Accepted::Served((request, sink)) => {
            assert_eq!(request, 0x0102);
            let result = sink.success(0x0304);
            assert_eq!(
                result.call().ops(),
                &[
                    CallOp::StartServerSide,
                    CallOp::SendStatus {
                        status: RpcStatus::ok(),
                        send_metadata: true,
                        payload: Some(vec![3, 4]),
                        flags: 0,
                    },
                ]
            );
            assert_eq!(result.poll().index, 1);
        }
        _ => panic!("not served"),
    }
}

#[test]
fn undecodable_unary_request_is_refused() {
    let handler = |_: RpcContext<u8>, _: u16, _: UnarySink<Ser>| panic!("called");
    match execute_unary(context(), ser as Ser, de as De, &show, &[1, 2, 3], &handler) {
        Accepted::Aborted(call) => assert_undecodable(&call),
        Accepted::Served(()) => panic!("served"),
    }
}

#[test]
fn server_streaming_handler_gets_request_and_sink() {
    let handler = |ctx: RpcContext<u8>, request: u16, sink: ServerStreamingSink<Ser>| {
        assert!(!ctx.request_ctx().has_call());
        assert_eq!(sink.call().ops(), &[CallOp::StartServerSide]);
        assert!(!sink.is_closing());
        (request, sink.call().raw())
    };
    match execute_server_streaming(context(), ser as Ser, de as De, &show, &[0, 9], &handler) {
        Accepted::Served(seen) => assert_eq!(seen, (9, 42)),
        _ => panic!("not served"),
    }
}

#[test]
fn undecodable_server_streaming_request_is_refused() {
    let handler = |_: RpcContext<u8>, _: u16, _: ServerStreamingSink<Ser>| panic!("called");
    match execute_server_streaming(context(), ser as Ser, de as De, &show, &[1, 2, 3], &handler) {
        Accepted::Aborted(call) => assert_undecodable(&call),
        Accepted::Served(()) => panic!("served"),
    }
}

#[test]
fn client_streaming_handler_shares_the_call() {
    let handler = |ctx: RpcContext<u8>, stream: RequestStream<De>, sink: ClientStreamingSink<Ser>| {
        assert!(!ctx.request_ctx().has_call());
        assert_eq!(sink.call().ops(), &[CallOp::StartServerSide]);
        (stream.poll().call, sink.call().raw())
    };
    assert_eq!(execute_client_streaming(context(), ser as Ser, de as De, &handler), (42, 42));
}

#[test]
fn duplex_handler_shares_the_call() {
    let handler = |ctx: RpcContext<u8>, stream: RequestStream<De>, sink: DuplexSink<Ser>| {
        assert!(!ctx.request_ctx().has_call());
        assert_eq!(sink.call().ops(), &[CallOp::StartServerSide]);
        (stream.poll().call, sink.call().raw())
    };
    assert_eq!(execute_duplex_streaming(context(), ser as Ser, de as De, &handler), (42, 42));
}

#[test]
fn dispatch_of_a_decoded_message() {
    let mut ctx = context();
    let (call, close_f) = open_call(&mut ctx);
    let handler = |_: RpcContext<u8>, request: u16, _: UnarySink<Ser>| request;
    match dispatch_unary(ctx, call, close_f, ser as Ser, Ok(5), &handler) {
        Accepted::Served(request) => assert_eq!(request, 5),
        _ => panic!("not served"),
    }
}

#[test]
fn dispatch_of_an_error() {
    let mut ctx = context();
    let (call, close_f) = open_call(&mut ctx);
    assert_eq!(close_f.index, 0);
    let handler = |_: RpcContext<u8>, _: u16, _: ServerStreamingSink<Ser>| panic!("called");
    let error = Err("why".to_string());
    match dispatch_server_streaming(ctx, call, close_f, ser as Ser, error, &handler) {
        Accepted::Aborted(call) => assert_eq!(
            call.ops()[1],
            CallOp::Abort { status: internal("Failed to deserialize response message: why") }
        ),
        Accepted::Served(()) => panic!("served"),
    }
}

#[test]
fn unimplemented_call_is_opened_and_aborted() {
    let call = execute_unimplemented(request());
    assert_eq!(call.raw(), 42);
    assert_eq!(
        call.ops(),
        &[
            CallOp::StartServerSide,
            CallOp::Abort { status: RpcStatus::new(RpcStatusCode::Unimplemented, None) },
        ]
    );
}

#[test]
fn execute_calls_the_callback() {
    let cb = |ctx: RpcContext<u8>, payload: &[u8]| (ctx.host().to_vec(), payload.len());
    assert_eq!(execute(request(), &[1, 2, 3], &cb), (b"h".to_vec(), 3));
}
