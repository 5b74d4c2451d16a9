//! What becomes of a response that is one message, by the operations of its sink.
use vstd::prelude::*;

use crate::call::Call;
use crate::call::CallOpView;
use crate::poll::Async;
use crate::poll::BatchFuture;
use crate::poll::Poll;
use crate::poll::Step;
use crate::status::RpcStatus;
use crate::status::RpcStatusCode;
use crate::status::StatusView;
use crate::unary_sink::ClientStreamingSink;
use crate::unary_sink::ClientStreamingSinkResult;
use crate::unary_sink::UnarySink;
use crate::unary_sink::UnarySinkResult;

verus! {

/// A new unary sink has no write flags set.
pub proof fn new_unary_sink<S>(
    call: Call,
    close_f: BatchFuture,
    ser: S,
    sink: UnarySink<S>,
)
    requires
        call_ensures(UnarySink::<S>::new, (call, close_f, ser), sink),
    ensures
        sink@.call == call@,
        sink@.close_f == close_f,
        sink@.write_flags == 0,
        sink.serializer() == ser,
{
}

/// The call that a unary sink shows is its own.
pub proof fn unary_sink_shows_its_call<S>(sink: &UnarySink<S>, call: &Call)
    requires
        call_ensures(UnarySink::<S>::call, (sink,), call),
    ensures
        call@ == sink@.call,
{
}

/// A unary call that is answered asks for one thing more on its call: that the bytes that its
/// serializer makes of the message be sent, behind the initial metadata and with status OK. It
/// waits for that, and for the end of the call.
pub proof fn unary_success_sends_the_message<S, T>(
    sink: UnarySink<S>,
    t: T,
    r: UnarySinkResult,
) where S: Fn(&T, &mut Vec<u8>)
    requires
        call_ensures(UnarySink::<S>::success::<T>, (sink, t), r),
    ensures
        r@.call.raw == sink@.call.raw,
        exists|buf: &mut Vec<u8>|
            {
                &&& buf@.len() == 0
                &&& #[trigger] call_ensures(sink.serializer(), (&t, buf), ())
                &&& r@.call.ops == sink@.call.ops.push(
                    CallOpView::SendStatus {
                        status: StatusView { status: RpcStatusCode::OK, details: None },
                        send_metadata: true,
                        payload: Some(final(buf)@),
                        flags: sink@.write_flags,
                    },
                )
            },
        r@.wait.status == Some(BatchFuture { index: sink@.call.ops.len() as usize }),
        r@.wait.close == sink@.close_f,
{
}

/// A unary call that fails asks for one thing more on its call: that the status it was given be
/// sent, behind the initial metadata and without a message. It waits for that, and for the end of
/// the call.
pub proof fn unary_failure_sends_the_given_status<S>(
    sink: UnarySink<S>,
    status: RpcStatus,
    r: UnarySinkResult,
)
    requires
        call_ensures(UnarySink::<S>::fail, (sink, status), r),
    ensures
        r@.call.raw == sink@.call.raw,
        r@.call.ops.len() == sink@.call.ops.len() + 1,
        forall|i: int|
            0 <= i < sink@.call.ops.len() ==> #[trigger] r@.call.ops[i] == sink@.call.ops[i],
        r@.call.ops.last() is SendStatus,
        r@.call.ops.last()->SendStatus_status.status == status.status,
        r@.call.ops.last()->SendStatus_status.details is Some <==> status.details is Some,
        status.details matches Some(text) ==> r@.call.ops.last()->SendStatus_status.details->0
            == text@,
        r@.call.ops.last()->payload is None,
        r@.call.ops.last()->send_metadata,
        r@.call.ops.last()->flags == sink@.write_flags,
        r@.wait.status == Some(BatchFuture { index: sink@.call.ops.len() as usize }),
        r@.wait.close == sink@.close_f,
{
}

/// A unary call that is completed with a status, and a message or none, sends that status, and the
/// bytes that its serializer makes of the message, or none.
pub proof fn unary_completion_sends_both<S, T>(
    sink: UnarySink<S>,
    status: RpcStatus,
    t: Option<T>,
    r: UnarySinkResult,
) where S: Fn(&T, &mut Vec<u8>)
    requires
        call_ensures(UnarySink::<S>::complete::<T>, (sink, status, t), r),
    ensures
        r@.call.raw == sink@.call.raw,
        t matches Some(message) ==> exists|buf: &mut Vec<u8>|
            {
                &&& buf@.len() == 0
                &&& #[trigger] call_ensures(sink.serializer(), (&message, buf), ())
                &&& r@.call.ops == sink@.call.ops.push(
                    CallOpView::SendStatus {
                        status: status@,
                        send_metadata: true,
                        payload: Some(final(buf)@),
                        flags: sink@.write_flags,
                    },
                )
            },
        t is None ==> r@.call.ops == sink@.call.ops.push(
            CallOpView::SendStatus {
                status: status@,
                send_metadata: true,
                payload: None,
                flags: sink@.write_flags,
            },
        ),
        r@.wait.status == Some(BatchFuture { index: sink@.call.ops.len() as usize }),
        r@.wait.close == sink@.close_f,
{
}

/// A unary call that is answered with bytes sends those very bytes, or none.
pub proof fn unary_response_sends_the_bytes<S>(
    sink: UnarySink<S>,
    status: RpcStatus,
    data: Option<Vec<u8>>,
    r: UnarySinkResult,
)
    requires
        call_ensures(UnarySink::<S>::respond, (sink, status, data), r),
    ensures
        r@.call.raw == sink@.call.raw,
        r@.call.ops == sink@.call.ops.push(
            CallOpView::SendStatus {
                status: status@,
                send_metadata: true,
                payload: match data {
                    Some(bytes) => Some(bytes@),
                    None => None,
                },
                flags: sink@.write_flags,
            },
        ),
        r@.wait.status == Some(BatchFuture { index: sink@.call.ops.len() as usize }),
        r@.wait.close == sink@.close_f,
{
}

/// A unary call can be answered with every message that its serializer can be called on.
pub proof fn unary_success_asks_only_for_the_serializer<S, T>(
    sink: UnarySink<S>,
    status: RpcStatus,
    t: T,
) where S: Fn(&T, &mut Vec<u8>)
    requires
        forall|buf: &mut Vec<u8>|
            buf@.len() == 0 ==> #[trigger] call_requires(sink.serializer(), (&t, buf)),
    ensures
        call_requires(UnarySink::<S>::success::<T>, (sink, t)),
        call_requires(UnarySink::<S>::complete::<T>, (sink, status, Some(t))),
        call_requires(UnarySink::<S>::complete::<T>, (sink, status, None)),
        call_requires(UnarySink::<S>::fail, (sink, status)),
{
}

/// The answer to a unary call polls the batch that sends the status until that has finished, and
/// then the one that ends with the call.
pub proof fn unary_answer_begins_where_it_stopped(
    r: &UnarySinkResult,
    call: &Call,
    batch: BatchFuture,
)
    requires
        call_ensures(UnarySinkResult::call, (r,), call),
        call_ensures(UnarySinkResult::poll, (r,), batch),
    ensures
        call@ == r@.call,
        r@.wait.status matches Some(status) ==> batch == status,
        r@.wait.status is None ==> batch == r@.wait.close,
{
}

/// The answer to a unary call goes on to the end of the call when the status batch has finished,
/// and is complete when the call is over too. A poll that is not ready, or fails, ends the round
/// with that and changes nothing. Nothing more is asked for on the call.
pub proof fn unary_answer_awaits_both_batches<E>()
    ensures
        forall|r: &mut UnarySinkResult, outcome: Poll<(), E>, step: Step<E>| #[trigger]
            call_ensures(UnarySinkResult::resume::<E>, (r, outcome), step) ==> {
                &&& final(r)@.call == r@.call
                &&& final(r)@.wait.close == r@.wait.close
                &&& (outcome matches Ok(Async::Ready(_))) ==> {
                    &&& final(r)@.wait.status is None
                    &&& step == if r@.wait.status is Some {
                        Step::<E>::Poll(r@.wait.close)
                    } else {
                        Step::<E>::Return(Ok(Async::Ready(())))
                    }
                }
                &&& !(outcome matches Ok(Async::Ready(_))) ==> {
                    &&& final(r)@.wait.status == r@.wait.status
                    &&& step == Step::<E>::Return(outcome)
                }
            },
{
}

/// A new client streaming sink has no write flags set.
pub proof fn new_client_streaming_sink<S>(
    call: Call,
    close_f: BatchFuture,
    ser: S,
    sink: ClientStreamingSink<S>,
)
    requires
        call_ensures(ClientStreamingSink::<S>::new, (call, close_f, ser), sink),
    ensures
        sink@.call == call@,
        sink@.close_f == close_f,
        sink@.write_flags == 0,
        sink.serializer() == ser,
{
}

/// The call that a client streaming sink shows is its own.
pub proof fn client_streaming_sink_shows_its_call<S>(sink: &ClientStreamingSink<S>, call: &Call)
    requires
        call_ensures(ClientStreamingSink::<S>::call, (sink,), call),
    ensures
        call@ == sink@.call,
{
}

/// A client streaming call that is answered asks for one thing more on its call: that the bytes
/// that its serializer makes of the message be sent, behind the initial metadata and with status
/// OK. It waits for that, and for the end of the call.
pub proof fn client_streaming_success_sends_the_message<S, T>(
    sink: ClientStreamingSink<S>,
    t: T,
    r: ClientStreamingSinkResult,
) where S: Fn(&T, &mut Vec<u8>)
    requires
        call_ensures(ClientStreamingSink::<S>::success::<T>, (sink, t), r),
    ensures
        r@.call.raw == sink@.call.raw,
        exists|buf: &mut Vec<u8>|
            {
                &&& buf@.len() == 0
                &&& #[trigger] call_ensures(sink.serializer(), (&t, buf), ())
                &&& r@.call.ops == sink@.call.ops.push(
                    CallOpView::SendStatus {
                        status: StatusView { status: RpcStatusCode::OK, details: None },
                        send_metadata: true,
                        payload: Some(final(buf)@),
                        flags: sink@.write_flags,
                    },
                )
            },
        r@.wait.status == Some(BatchFuture { index: sink@.call.ops.len() as usize }),
        r@.wait.close == sink@.close_f,
{
}

/// A client streaming call that fails asks for one thing more on its call: that the status it was
/// given be sent, behind the initial metadata and without a message. It waits for that, and for the
/// end of the call.
pub proof fn client_streaming_failure_sends_the_given_status<S>(
    sink: ClientStreamingSink<S>,
    status: RpcStatus,
    r: ClientStreamingSinkResult,
)
    requires
        call_ensures(ClientStreamingSink::<S>::fail, (sink, status), r),
    ensures
        r@.call.raw == sink@.call.raw,
        r@.call.ops.len() == sink@.call.ops.len() + 1,
        forall|i: int|
            0 <= i < sink@.call.ops.len() ==> #[trigger] r@.call.ops[i] == sink@.call.ops[i],
        r@.call.ops.last() is SendStatus,
        r@.call.ops.last()->SendStatus_status.status == status.status,
        r@.call.ops.last()->SendStatus_status.details is Some <==> status.details is Some,
        status.details matches Some(text) ==> r@.call.ops.last()->SendStatus_status.details->0
            == text@,
        r@.call.ops.last()->payload is None,
        r@.call.ops.last()->send_metadata,
        r@.call.ops.last()->flags == sink@.write_flags,
        r@.wait.status == Some(BatchFuture { index: sink@.call.ops.len() as usize }),
        r@.wait.close == sink@.close_f,
{
}

/// A client streaming call that is completed with a status, and a message or none, sends that
/// status, and the bytes that its serializer makes of the message, or none.
pub proof fn client_streaming_completion_sends_both<S, T>(
    sink: ClientStreamingSink<S>,
    status: RpcStatus,
    t: Option<T>,
    r: ClientStreamingSinkResult,
) where S: Fn(&T, &mut Vec<u8>)
    requires
        call_ensures(ClientStreamingSink::<S>::complete::<T>, (sink, status, t), r),
    ensures
        r@.call.raw == sink@.call.raw,
        t matches Some(message) ==> exists|buf: &mut Vec<u8>|
            {
                &&& buf@.len() == 0
                &&& #[trigger] call_ensures(sink.serializer(), (&message, buf), ())
                &&& r@.call.ops == sink@.call.ops.push(
                    CallOpView::SendStatus {
                        status: status@,
                        send_metadata: true,
                        payload: Some(final(buf)@),
                        flags: sink@.write_flags,
                    },
                )
            },
        t is None ==> r@.call.ops == sink@.call.ops.push(
            CallOpView::SendStatus {
                status: status@,
                send_metadata: true,
                payload: None,
                flags: sink@.write_flags,
            },
        ),
        r@.wait.status == Some(BatchFuture { index: sink@.call.ops.len() as usize }),
        r@.wait.close == sink@.close_f,
{
}

/// A client streaming call that is answered with bytes sends those very bytes, or none.
pub proof fn client_streaming_response_sends_the_bytes<S>(
    sink: ClientStreamingSink<S>,
    status: RpcStatus,
    data: Option<Vec<u8>>,
    r: ClientStreamingSinkResult,
)
    requires
        call_ensures(ClientStreamingSink::<S>::respond, (sink, status, data), r),
    ensures
        r@.call.raw == sink@.call.raw,
        r@.call.ops == sink@.call.ops.push(
            CallOpView::SendStatus {
                status: status@,
                send_metadata: true,
                payload: match data {
                    Some(bytes) => Some(bytes@),
                    None => None,
                },
                flags: sink@.write_flags,
            },
        ),
        r@.wait.status == Some(BatchFuture { index: sink@.call.ops.len() as usize }),
        r@.wait.close == sink@.close_f,
{
}

/// A client streaming call can be answered with every message that its serializer can be called on.
pub proof fn client_streaming_success_asks_only_for_the_serializer<S, T>(
    sink: ClientStreamingSink<S>,
    status: RpcStatus,
    t: T,
) where S: Fn(&T, &mut Vec<u8>)
    requires
        forall|buf: &mut Vec<u8>|
            buf@.len() == 0 ==> #[trigger] call_requires(sink.serializer(), (&t, buf)),
    ensures
        call_requires(ClientStreamingSink::<S>::success::<T>, (sink, t)),
        call_requires(ClientStreamingSink::<S>::complete::<T>, (sink, status, Some(t))),
        call_requires(ClientStreamingSink::<S>::complete::<T>, (sink, status, None)),
        call_requires(ClientStreamingSink::<S>::fail, (sink, status)),
{
}

/// The answer to a client streaming call polls the batch that sends the status until that has
/// finished, and then the one that ends with the call.
pub proof fn client_streaming_answer_begins_where_it_stopped(
    r: &ClientStreamingSinkResult,
    call: &Call,
    batch: BatchFuture,
)
    requires
        call_ensures(ClientStreamingSinkResult::call, (r,), call),
        call_ensures(ClientStreamingSinkResult::poll, (r,), batch),
    ensures
        call@ == r@.call,
        r@.wait.status matches Some(status) ==> batch == status,
        r@.wait.status is None ==> batch == r@.wait.close,
{
}

/// The answer to a client streaming call goes on to the end of the call when the status batch has
/// finished, and is complete when the call is over too. A poll that is not ready, or fails, ends
/// the round with that and changes nothing. Nothing more is asked for on the call.
pub proof fn client_streaming_answer_awaits_both_batches<E>()
    ensures
        forall|r: &mut ClientStreamingSinkResult, outcome: Poll<(), E>, step: Step<E>| #[trigger]
            call_ensures(ClientStreamingSinkResult::resume::<E>, (r, outcome), step) ==> {
                &&& final(r)@.call == r@.call
                &&& final(r)@.wait.close == r@.wait.close
                &&& (outcome matches Ok(Async::Ready(_))) ==> {
                    &&& final(r)@.wait.status is None
                    &&& step == if r@.wait.status is Some {
                        Step::<E>::Poll(r@.wait.close)
                    } else {
                        Step::<E>::Return(Ok(Async::Ready(())))
                    }
                }
                &&& !(outcome matches Ok(Async::Ready(_))) ==> {
                    &&& final(r)@.wait.status == r@.wait.status
                    &&& step == Step::<E>::Return(outcome)
                }
            },
{
}

} // verus!
