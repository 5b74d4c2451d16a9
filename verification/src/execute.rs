//! Calling handlers.
use vstd::prelude::*;

use crate::call::Call;
use crate::call::CallOpView;
use crate::call::CallView;
use crate::codec::can_decode;
use crate::codec::can_show;
use crate::codec::decode;
use crate::codec::decodes;
use crate::codec::fails_with;
use crate::context::RequestContext;
use crate::context::RpcContext;
use crate::context::RpcView;
use crate::poll::BatchFuture;
use crate::status::undecodable_status;
use crate::status::unimplemented_status;
use crate::status::RpcStatus;
use crate::status::RpcStatusCode;
use crate::stream::RequestStream;
use crate::stream::RequestStreamView;
use crate::stream_sink::DuplexSink;
use crate::stream_sink::ServerStreamingSink;
use crate::stream_sink::StreamSinkView;
use crate::unary_sink::ClientStreamingSink;
use crate::unary_sink::ReplySinkView;
use crate::unary_sink::UnarySink;

verus! {

/// What became of a request.
pub enum Accepted<R> {
    /// A handler has taken it over; this is what the handler returned.
    Served(R),
    /// No handler was called. The call has been ended with an error; its operations are still to
    /// be performed.
    Aborted(Call),
}

/// Whether the function that serves a method may be called on this request and message.
pub open spec fn can_serve<I, C, R>(cb: C, ctx: RpcView<I>, payload: Seq<u8>) -> bool where
    C: Fn(RpcContext<I>, &[u8]) -> R,
 {
    forall|c: RpcContext<I>, bytes: &[u8]|
        c@ == ctx && bytes@ == payload ==> #[trigger] call_requires(cb, (c, bytes))
}

/// Whether the function that serves a method, called on this request and message, can return
/// `out`.
pub open spec fn serves<I, C, R>(cb: C, ctx: RpcView<I>, payload: Seq<u8>, out: R) -> bool where
    C: Fn(RpcContext<I>, &[u8]) -> R,
 {
    exists|c: RpcContext<I>, bytes: &[u8]|
        c@ == ctx && bytes@ == payload && #[trigger] call_ensures(cb, (c, bytes), out)
}

/// Takes the call of a request over: the batch that finishes when the call is over is the first
/// thing asked for on it.
pub fn open_call<I>(ctx: &mut RpcContext<I>) -> (r: (Call, BatchFuture))
    requires
        old(ctx)@.ctx.call != 0,
    ensures
        final(ctx)@ == old(ctx)@.without_call(),
        r.0@ == CallView::opened(old(ctx)@.ctx.call),
        r.1 == CallView::fresh(old(ctx)@.ctx.call).next_batch(),
{
    let mut call = ctx.take_call().unwrap();
    let close_f = call.start_server_side();
    (call, close_f)
}

/// Whether the handler of a unary call may be called with this request and sink.
pub open spec fn can_handle_unary<I, P, S, F, R>(
    f: F,
    ctx: RpcView<I>,
    request: P,
    sink: ReplySinkView,
    ser: S,
) -> bool where F: Fn(RpcContext<I>, P, UnarySink<S>) -> R {
    forall|c: RpcContext<I>, s: UnarySink<S>|
        c@ == ctx && s@ == sink && s.serializer() == ser ==> #[trigger] call_requires(
            f,
            (c, request, s),
        )
}

/// Whether the handler of a unary call, called with this request and sink, can return `out`.
pub open spec fn handles_unary<I, P, S, F, R>(
    f: F,
    ctx: RpcView<I>,
    request: P,
    sink: ReplySinkView,
    ser: S,
    out: R,
) -> bool where F: Fn(RpcContext<I>, P, UnarySink<S>) -> R {
    exists|c: RpcContext<I>, s: UnarySink<S>|
        c@ == ctx && s@ == sink && s.serializer() == ser && #[trigger] call_ensures(
            f,
            (c, request, s),
            out,
        )
}

/// Goes on with a unary call that has been opened, once its message has been decoded or
/// not: hands it to the handler, or ends the call with an internal error.
pub fn dispatch_unary<I, P, S, F, R>(
    ctx: RpcContext<I>,
    call: Call,
    close_f: BatchFuture,
    ser: S,
    decoded: Result<P, String>,
    f: &F,
) -> (r: Accepted<R>) where F: Fn(RpcContext<I>, P, UnarySink<S>) -> R
    requires
        decoded matches Ok(request) ==> can_handle_unary(
            *f,
            ctx@,
            request,
            ReplySinkView::fresh(call@, close_f),
            ser,
        ),
    ensures
        match r {
            Accepted::Served(out) => decoded matches Ok(request) && handles_unary(
                *f,
                ctx@,
                request,
                ReplySinkView::fresh(call@, close_f),
                ser,
                out,
            ),
            Accepted::Aborted(aborted) => decoded matches Err(text) && aborted@ == call@.with(
                CallOpView::Abort { status: undecodable_status(text@) },
            ),
        },
{
    let request = match decoded {
        Ok(request) => request,
        Err(text) => {
            let status = RpcStatus::undecodable(text);
            return Accepted::Aborted(call.abort(status));
        },
    };
    let sink = UnarySink::new(call, close_f, ser);
    Accepted::Served(f(ctx, request, sink))
}

/// Whether this can become of a unary call with this message: the handler is called on what
/// the deserializer makes of the message, or the call is ended with its error in words.
pub open spec fn executes_unary<I, P, E, S, D, G, F, R>(
    ctx: RpcView<I>,
    ser: S,
    de: D,
    show: G,
    payload: Seq<u8>,
    f: F,
    r: Accepted<R>,
) -> bool where
    D: Fn(&[u8]) -> Result<P, E>,
    G: Fn(&E) -> String,
    F: Fn(RpcContext<I>, P, UnarySink<S>) -> R,
 {
    match r {
        Accepted::Served(out) => exists|request: P| #[trigger]
            decodes(de, payload, Ok::<P, E>(request)) && handles_unary(
                f,
                ctx.without_call(),
                request,
                ReplySinkView::opened(ctx.ctx.call),
                ser,
                out,
            ),
        Accepted::Aborted(call) => exists|text: Seq<char>| #[trigger]
            fails_with(de, show, payload, text) && call@ == CallView::opened(
                ctx.ctx.call,
            ).with(CallOpView::Abort { status: undecodable_status(text) }),
    }
}

/// Calls the handler of a unary call: opens the call, decodes the message, and hands the
/// request and the sink of the call to the handler. A message that cannot be decoded ends the
/// call with an internal error, which holds the error in the words of `show`.
pub fn execute_unary<I, P, E, S, D, G, F, R>(
    ctx: RpcContext<I>,
    ser: S,
    de: D,
    show: &G,
    payload: &[u8],
    f: &F,
) -> (r: Accepted<R>) where
    D: Fn(&[u8]) -> Result<P, E>,
    G: Fn(&E) -> String,
    F: Fn(RpcContext<I>, P, UnarySink<S>) -> R,

    requires
        ctx@.ctx.call != 0,
        can_decode(de, payload@),
        can_show(de, *show, payload@),
        forall|request: P| #[trigger]
            decodes(de, payload@, Ok::<P, E>(request)) ==> can_handle_unary(
                *f,
                ctx@.without_call(),
                request,
                ReplySinkView::opened(ctx@.ctx.call),
                ser,
            ),
    ensures
        executes_unary(ctx@, ser, de, *show, payload@, *f, r),
{
    let mut ctx = ctx;
    let (call, close_f) = open_call(&mut ctx);
    let decoded = decode(&de, show, payload);
    dispatch_unary(ctx, call, close_f, ser, decoded, f)
}

/// Whether the handler of a client streaming call may be called with this request and sink.
pub open spec fn can_handle_client_streaming<I, D, S, F, R>(
    f: F,
    ctx: RpcView<I>,
    requests: RequestStreamView<D>,
    sink: ReplySinkView,
    ser: S,
) -> bool where F: Fn(RpcContext<I>, RequestStream<D>, ClientStreamingSink<S>) -> R {
    forall|c: RpcContext<I>, stream: RequestStream<D>, s: ClientStreamingSink<S>|
        c@ == ctx && stream@ == requests && s@ == sink && s.serializer() == ser
            ==> #[trigger] call_requires(
            f,
            (c, stream, s),
        )
}

/// Whether the handler of a client streaming call, called with this request and sink, can return
/// `out`.
pub open spec fn handles_client_streaming<I, D, S, F, R>(
    f: F,
    ctx: RpcView<I>,
    requests: RequestStreamView<D>,
    sink: ReplySinkView,
    ser: S,
    out: R,
) -> bool where F: Fn(RpcContext<I>, RequestStream<D>, ClientStreamingSink<S>) -> R {
    exists|c: RpcContext<I>, stream: RequestStream<D>, s: ClientStreamingSink<S>|
        c@ == ctx && stream@ == requests && s@ == sink && s.serializer() == ser
            && #[trigger] call_ensures(
            f,
            (c, stream, s),
            out,
        )
}

/// Calls the handler of a client streaming call: opens the call, and hands the stream of its
/// requests and its sink, which share the call, to the handler.
pub fn execute_client_streaming<I, D, S, F, R>(
    ctx: RpcContext<I>,
    ser: S,
    de: D,
    f: &F,
) -> (out: R) where F: Fn(RpcContext<I>, RequestStream<D>, ClientStreamingSink<S>) -> R
    requires
        ctx@.ctx.call != 0,
        can_handle_client_streaming(
            *f,
            ctx@.without_call(),
            RequestStreamView::fresh(ctx@.ctx.call, de),
            ReplySinkView::opened(ctx@.ctx.call),
            ser,
        ),
    ensures
        handles_client_streaming(
            *f,
            ctx@.without_call(),
            RequestStreamView::fresh(ctx@.ctx.call, de),
            ReplySinkView::opened(ctx@.ctx.call),
            ser,
            out,
        ),
{
    let mut ctx = ctx;
    let (call, close_f) = open_call(&mut ctx);
    let req_s = RequestStream::new(call.raw(), de);
    let sink = ClientStreamingSink::new(call, close_f, ser);
    f(ctx, req_s, sink)
}

/// Whether the handler of a server streaming call may be called with this request and sink.
pub open spec fn can_handle_server_streaming<I, P, S, F, R>(
    f: F,
    ctx: RpcView<I>,
    request: P,
    sink: StreamSinkView,
    ser: S,
) -> bool where F: Fn(RpcContext<I>, P, ServerStreamingSink<S>) -> R {
    forall|c: RpcContext<I>, s: ServerStreamingSink<S>|
        c@ == ctx && s@ == sink && s.serializer() == ser ==> #[trigger] call_requires(
            f,
            (c, request, s),
        )
}

/// Whether the handler of a server streaming call, called with this request and sink, can return
/// `out`.
pub open spec fn handles_server_streaming<I, P, S, F, R>(
    f: F,
    ctx: RpcView<I>,
    request: P,
    sink: StreamSinkView,
    ser: S,
    out: R,
) -> bool where F: Fn(RpcContext<I>, P, ServerStreamingSink<S>) -> R {
    exists|c: RpcContext<I>, s: ServerStreamingSink<S>|
        c@ == ctx && s@ == sink && s.serializer() == ser && #[trigger] call_ensures(
            f,
            (c, request, s),
            out,
        )
}

/// Goes on with a server streaming call that has been opened, once its message has been decoded or
/// not: hands it to the handler, or ends the call with an internal error.
pub fn dispatch_server_streaming<I, P, S, F, R>(
    ctx: RpcContext<I>,
    call: Call,
    close_f: BatchFuture,
    ser: S,
    decoded: Result<P, String>,
    f: &F,
) -> (r: Accepted<R>) where F: Fn(RpcContext<I>, P, ServerStreamingSink<S>) -> R
    requires
        decoded matches Ok(request) ==> can_handle_server_streaming(
            *f,
            ctx@,
            request,
            StreamSinkView::fresh(call@, close_f),
            ser,
        ),
    ensures
        match r {
            Accepted::Served(out) => decoded matches Ok(request) && handles_server_streaming(
                *f,
                ctx@,
                request,
                StreamSinkView::fresh(call@, close_f),
                ser,
                out,
            ),
            Accepted::Aborted(aborted) => decoded matches Err(text) && aborted@ == call@.with(
                CallOpView::Abort { status: undecodable_status(text@) },
            ),
        },
{
    let request = match decoded {
        Ok(request) => request,
        Err(text) => {
            let status = RpcStatus::undecodable(text);
            return Accepted::Aborted(call.abort(status));
        },
    };
    let sink = ServerStreamingSink::new(call, close_f, ser);
    Accepted::Served(f(ctx, request, sink))
}

/// Whether this can become of a server streaming call with this message: the handler is called on
/// what the deserializer makes of the message, or the call is ended with its error in words.
pub open spec fn executes_server_streaming<I, P, E, S, D, G, F, R>(
    ctx: RpcView<I>,
    ser: S,
    de: D,
    show: G,
    payload: Seq<u8>,
    f: F,
    r: Accepted<R>,
) -> bool where
    D: Fn(&[u8]) -> Result<P, E>,
    G: Fn(&E) -> String,
    F: Fn(RpcContext<I>, P, ServerStreamingSink<S>) -> R,
 {
    match r {
        Accepted::Served(out) => exists|request: P| #[trigger]
            decodes(de, payload, Ok::<P, E>(request)) && handles_server_streaming(
                f,
                ctx.without_call(),
                request,
                StreamSinkView::opened(ctx.ctx.call),
                ser,
                out,
            ),
        Accepted::Aborted(call) => exists|text: Seq<char>| #[trigger]
            fails_with(de, show, payload, text) && call@ == CallView::opened(
                ctx.ctx.call,
            ).with(CallOpView::Abort { status: undecodable_status(text) }),
    }
}

/// Calls the handler of a server streaming call: opens the call, decodes the message, and hands the
/// request and the sink of the call to the handler. A message that cannot be decoded ends the
/// call with an internal error, which holds the error in the words of `show`.
pub fn execute_server_streaming<I, P, E, S, D, G, F, R>(
    ctx: RpcContext<I>,
    ser: S,
    de: D,
    show: &G,
    payload: &[u8],
    f: &F,
) -> (r: Accepted<R>) where
    D: Fn(&[u8]) -> Result<P, E>,
    G: Fn(&E) -> String,
    F: Fn(RpcContext<I>, P, ServerStreamingSink<S>) -> R,

    requires
        ctx@.ctx.call != 0,
        can_decode(de, payload@),
        can_show(de, *show, payload@),
        forall|request: P| #[trigger]
            decodes(de, payload@, Ok::<P, E>(request)) ==> can_handle_server_streaming(
                *f,
                ctx@.without_call(),
                request,
                StreamSinkView::opened(ctx@.ctx.call),
                ser,
            ),
    ensures
        executes_server_streaming(ctx@, ser, de, *show, payload@, *f, r),
{
    let mut ctx = ctx;
    let (call, close_f) = open_call(&mut ctx);
    let decoded = decode(&de, show, payload);
    dispatch_server_streaming(ctx, call, close_f, ser, decoded, f)
}

/// Whether the handler of a duplex call may be called with this request and sink.
pub open spec fn can_handle_duplex_streaming<I, D, S, F, R>(
    f: F,
    ctx: RpcView<I>,
    requests: RequestStreamView<D>,
    sink: StreamSinkView,
    ser: S,
) -> bool where F: Fn(RpcContext<I>, RequestStream<D>, DuplexSink<S>) -> R {
    forall|c: RpcContext<I>, stream: RequestStream<D>, s: DuplexSink<S>|
        c@ == ctx && stream@ == requests && s@ == sink && s.serializer() == ser
            ==> #[trigger] call_requires(
            f,
            (c, stream, s),
        )
}

/// Whether the handler of a duplex call, called with this request and sink, can return `out`.
pub open spec fn handles_duplex_streaming<I, D, S, F, R>(
    f: F,
    ctx: RpcView<I>,
    requests: RequestStreamView<D>,
    sink: StreamSinkView,
    ser: S,
    out: R,
) -> bool where F: Fn(RpcContext<I>, RequestStream<D>, DuplexSink<S>) -> R {
    exists|c: RpcContext<I>, stream: RequestStream<D>, s: DuplexSink<S>|
        c@ == ctx && stream@ == requests && s@ == sink && s.serializer() == ser
            && #[trigger] call_ensures(
            f,
            (c, stream, s),
            out,
        )
}

/// Calls the handler of a duplex call: opens the call, and hands the stream of its requests
/// and its sink, which share the call, to the handler.
pub fn execute_duplex_streaming<I, D, S, F, R>(
    ctx: RpcContext<I>,
    ser: S,
    de: D,
    f: &F,
) -> (out: R) where F: Fn(RpcContext<I>, RequestStream<D>, DuplexSink<S>) -> R
    requires
        ctx@.ctx.call != 0,
        can_handle_duplex_streaming(
            *f,
            ctx@.without_call(),
            RequestStreamView::fresh(ctx@.ctx.call, de),
            StreamSinkView::opened(ctx@.ctx.call),
            ser,
        ),
    ensures
        handles_duplex_streaming(
            *f,
            ctx@.without_call(),
            RequestStreamView::fresh(ctx@.ctx.call, de),
            StreamSinkView::opened(ctx@.ctx.call),
            ser,
            out,
        ),
{
    let mut ctx = ctx;
    let (call, close_f) = open_call(&mut ctx);
    let req_s = RequestStream::new(call.raw(), de);
    let sink = DuplexSink::new(call, close_f, ser);
    f(ctx, req_s, sink)
}

/// Answers a request that no handler is registered for.
pub fn execute_unimplemented<I>(ctx: RequestContext<I>) -> (r: Call)
    requires
        ctx@.call != 0,
    ensures
        r@ == CallView::opened(ctx@.call).with(
            CallOpView::Abort { status: unimplemented_status() },
        ),
{
    let mut ctx = ctx;
    let mut call = ctx.take_call().unwrap();
    let _ = call.start_server_side();
    call.abort(RpcStatus::new(RpcStatusCode::Unimplemented, None))
}

/// Calls the function that serves the method of a request.
///
/// Invoked after a request is ready to be handled.
pub fn execute<I, C, R>(ctx: RequestContext<I>, payload: &[u8], f: &C) -> (out: R) where
    C: Fn(RpcContext<I>, &[u8]) -> R,

    requires
        can_serve(*f, RpcView::of(ctx@), payload@),
    ensures
        serves(*f, RpcView::of(ctx@), payload@, out),
{
    let rpc_ctx = RpcContext::new(ctx);
    f(rpc_ctx, payload)
}

} // verus!
