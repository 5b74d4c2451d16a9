use grpc_server::call::{Call, CallOp};
use grpc_server::poll::{Async, AsyncSink, BatchFuture, Poll, Step};
use grpc_server::status::{RpcStatus, RpcStatusCode};
use grpc_server::stream_sink::{CloseAction, DuplexSink, ServerStreamingSink, SinkReport};
use grpc_server::unary_sink::{ClientStreamingSink, UnarySink};

type Ser = fn(&u8, &mut Vec<u8>);

const READY: Poll<(), &str> = Ok(Async::Ready(()));
const PENDING: Poll<(), &str> = Ok(Async::NotReady);
const FAILED: Poll<(), &str> = Err("broken");

fn ser(message: &u8, buf: &mut Vec<u8>) {
    buf.push(*message);
    buf.push(0xff);
}

fn opened() -> (Call, BatchFuture) {
    let mut call = Call::from_raw(3);
    let close_f = call.start_server_side();
    (call, close_f)
}

fn batch(index: usize) -> BatchFuture {
    BatchFuture { index }
}

fn unary() -> UnarySink<Ser> {
    let (call, close_f) = opened();
    UnarySink::new(call, close_f, ser as Ser)
}

fn streaming() -> ServerStreamingSink<Ser> {
    let (call, close_f) = opened();
    ServerStreamingSink::new(call, close_f, ser as Ser)
}

fn duplex() -> DuplexSink<Ser> {
    let (call, close_f) = opened();
    DuplexSink::new(call, close_f, ser as Ser)
}

fn not_found() -> RpcStatus {
    RpcStatus::new(RpcStatusCode::NotFound, Some("gone".to_string()))
}

fn status_op(
    status: RpcStatus,
    send_metadata: bool,
    payload: Option<Vec<u8>>,
    flags: u32,
) -> CallOp {
    CallOp::SendStatus { status, send_metadata, payload, flags }
}

fn report(flags: u32, send_metadata: bool) -> SinkReport {
    SinkReport { flags, send_metadata }
}

#[test]
fn success_sends_the_message_with_ok() {
    let result = unary().success(5);
    assert_eq!(result.call().raw(), 3);
    assert_eq!(result.call().ops()[0], CallOp::StartServerSide);
    assert_eq!(
        result.call().ops()[1],
        status_op(RpcStatus::ok(), true, Some(vec![5, 0xff]), 0)
    );
    assert_eq!(result.call().ops().len(), 2);
}

#[test]
fn failure_sends_the_status_alone() {
    let result = unary().fail(not_found());
    assert_eq!(result.call().ops()[1], status_op(not_found(), true, None, 0));
    assert_eq!(result.call().ops().len(), 2);
}

#[test]
fn complete_sends_status_and_message() {
    let result = unary().complete(not_found(), Some(1));
    assert_eq!(result.call().ops()[1], status_op(not_found(), true, Some(vec![1, 0xff]), 0));
    let result = unary().complete(not_found(), None);
    assert_eq!(result.call().ops()[1], status_op(not_found(), true, None, 0));
    let result = unary().respond(RpcStatus::ok(), Some(vec![]));
    assert_eq!(result.call().ops()[1], status_op(RpcStatus::ok(), true, Some(vec![]), 0));
}

#[test]
fn client_streaming_sink_answers_alike() {
    let (call, close_f) = opened();
    let mut result = ClientStreamingSink::new(call, close_f, ser as Ser).success(5);
    assert_eq!(
        result.call().ops()[1],
        status_op(RpcStatus::ok(), true, Some(vec![5, 0xff]), 0)
    );
    assert_eq!(result.poll(), batch(1));
    assert_eq!(result.resume(READY), Step::Poll(batch(0)));
    assert_eq!(result.resume(READY), Step::Return(READY));

    let (call, close_f) = opened();
    let sink = ClientStreamingSink::new(call, close_f, ser as Ser);
    assert_eq!(sink.call().ops(), &[CallOp::StartServerSide]);
    let result = sink.fail(not_found());
    assert_eq!(result.call().ops()[1], status_op(not_found(), true, None, 0));
    let (call, close_f) = opened();
    let result = ClientStreamingSink::new(call, close_f, ser as Ser).complete(not_found(), Some(2));
    assert_eq!(result.call().ops()[1], status_op(not_found(), true, Some(vec![2, 0xff]), 0));
}

#[test]
fn finished_status_batch_is_not_polled_again() {
    let mut result = unary().success(5);
    assert_eq!(result.poll(), batch(1));
    assert_eq!(result.resume(PENDING), Step::Return(PENDING));
    assert_eq!(result.poll(), batch(1));
    assert_eq!(result.resume(READY), Step::Poll(batch(0)));
    assert_eq!(result.resume(PENDING), Step::Return(PENDING));
    assert_eq!(result.poll(), batch(0));
    assert_eq!(result.resume(READY), Step::Return(READY));
}

#[test]
fn errors_are_passed_on() {
    let mut result = unary().success(5);
    assert_eq!(result.resume(FAILED), Step::Return(FAILED));
    assert_eq!(result.poll(), batch(1));
    let mut result = unary().success(5);
    assert_eq!(result.resume(READY), Step::Poll(batch(0)));
    assert_eq!(result.resume(FAILED), Step::Return(FAILED));
}

#[test]
fn close_sends_ok_by_default() {
    let mut sink = streaming();
    assert_eq!(sink.close(), CloseAction::Flush);
    assert_eq!(sink.resume_flush(READY, report(0, true)), Step::Poll(batch(1)));
    assert!(sink.is_closing());
    assert_eq!(sink.call().ops()[1], status_op(RpcStatus::ok(), true, None, 0));
    assert_eq!(sink.resume_poll(READY), Step::Poll(batch(0)));
    assert_eq!(sink.resume_poll(READY), Step::Return(READY));
    assert_eq!(sink.call().ops().len(), 2);
}

#[test]
fn close_goes_on_where_it_was() {
    let mut sink = streaming();
    sink.set_status(not_found());
    assert_eq!(sink.close(), CloseAction::Flush);
    assert_eq!(sink.resume_flush(PENDING, report(0, true)), Step::Return(PENDING));
    assert!(!sink.is_closing());
    assert_eq!(sink.call().ops().len(), 1);

    assert_eq!(sink.close(), CloseAction::Flush);
    assert_eq!(sink.resume_flush(READY, report(6, false)), Step::Poll(batch(1)));
    assert_eq!(sink.resume_poll(PENDING), Step::Return(PENDING));

    assert_eq!(sink.close(), CloseAction::Poll(batch(1)));
    assert_eq!(sink.resume_poll(READY), Step::Poll(batch(0)));
    assert_eq!(sink.resume_poll(PENDING), Step::Return(PENDING));

    assert_eq!(sink.close(), CloseAction::Poll(batch(0)));
    assert_eq!(sink.resume_poll(READY), Step::Return(READY));
    assert_eq!(
        sink.call().ops(),
        &[CallOp::StartServerSide, status_op(not_found(), false, None, 6)]
    );
}

#[test]
fn failed_flush_ends_the_close() {
    let mut sink = streaming();
    assert_eq!(sink.resume_flush(FAILED, report(0, true)), Step::Return(FAILED));
    assert_eq!(sink.call().ops().len(), 1);
    assert!(!sink.is_closing());
    assert_eq!(sink.resume_flush(READY, report(0, true)), Step::Poll(batch(1)));
    assert_eq!(sink.resume_poll(FAILED), Step::Return(FAILED));
    assert_eq!(sink.close(), CloseAction::Poll(batch(1)));
}

#[test]
fn the_status_set_last_is_sent() {
    let mut sink = duplex();
    sink.set_status(not_found());
    sink.set_status(RpcStatus::new(RpcStatusCode::DataLoss, None));
    let _ = sink.resume_flush(READY, report(0, true));
    assert_eq!(
        sink.call().ops()[1],
        status_op(RpcStatus::new(RpcStatusCode::DataLoss, None), true, None, 0)
    );
}

#[test]
fn items_are_taken_or_handed_back() {
    let mut sink = streaming();
    assert_eq!(sink.report(), report(0, true));
    let r: Result<AsyncSink<u8>, &str> = sink.start_send(1, Ok(true), report(0, false));
    assert_eq!(sink.report(), report(0, false));
    assert_eq!(r, Ok(AsyncSink::Ready));
    let r: Result<AsyncSink<u8>, &str> = sink.start_send(2, Ok(false), report(0, false));
    assert_eq!(r, Ok(AsyncSink::NotReady(2)));
    let r: Result<AsyncSink<u8>, &str> = sink.start_send(3, Err("broken"), report(0, false));
    assert_eq!(r, Err("broken"));
    assert_eq!(sink.call().ops().len(), 1);

    let mut buf = vec![];
    (sink.ser())(&7, &mut buf);
    assert_eq!(buf, vec![7, 0xff]);
}

#[test]
fn metadata_is_not_sent_twice() {
    let mut sink = streaming();
    let _: Result<AsyncSink<u8>, &str> = sink.start_send(1, Ok(true), report(2, false));
    assert_eq!(sink.poll_complete(PENDING, report(2, false)), PENDING);
    assert_eq!(sink.poll_complete(READY, report(2, false)), READY);
    let failure = sink.fail(not_found());
    assert_eq!(failure.call().ops()[1], status_op(not_found(), false, None, 2));
}

#[test]
fn failure_waits_for_both_batches() {
    let mut failure = streaming().fail(not_found());
    assert_eq!(failure.call().ops()[1], status_op(not_found(), true, None, 0));
    assert_eq!(failure.poll(), batch(1));
    assert_eq!(failure.resume(PENDING), Step::Return(PENDING));
    assert_eq!(failure.poll(), batch(1));
    assert_eq!(failure.resume(READY), Step::Poll(batch(0)));
    assert_eq!(failure.poll(), batch(0));
    assert_eq!(failure.resume(FAILED), Step::Return(FAILED));
    assert_eq!(failure.resume(READY), Step::Return(READY));
}

#[test]
fn duplex_sink_works_alike() {
    let mut sink = duplex();
    assert_eq!(sink.report(), report(0, true));
    assert_eq!(sink.close(), CloseAction::Flush);
    let r: Result<AsyncSink<u8>, &str> = sink.start_send(1, Ok(false), report(1, false));
    assert_eq!(r, Ok(AsyncSink::NotReady(1)));
    assert_eq!(sink.poll_complete(READY, report(1, false)), READY);
    assert_eq!(sink.resume_flush(READY, report(1, false)), Step::Poll(batch(1)));
    assert_eq!(sink.call().ops()[1], status_op(RpcStatus::ok(), false, None, 1));
    assert_eq!(sink.resume_poll(READY), Step::Poll(batch(0)));
    assert_eq!(sink.close(), CloseAction::Poll(batch(0)));
    assert_eq!(sink.resume_poll(READY), Step::Return(READY));

    let mut failure = duplex().fail(not_found());
    assert_eq!(failure.call().ops()[1], status_op(not_found(), true, None, 0));
    assert_eq!(failure.poll(), batch(1));
    assert_eq!(failure.resume(READY), Step::Poll(batch(0)));
    assert_eq!(failure.resume(READY), Step::Return(READY));
}
