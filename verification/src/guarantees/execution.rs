//! What a handler is given, and when it is called.
use vstd::prelude::*;

use crate::call::Call;
use crate::call::CallOpView;
use crate::context::RequestContext;
use crate::context::RpcContext;
use crate::execute::dispatch_server_streaming;
use crate::execute::dispatch_unary;
use crate::execute::execute;
use crate::execute::execute_client_streaming;
use crate::execute::execute_duplex_streaming;
use crate::execute::execute_server_streaming;
use crate::execute::execute_unary;
use crate::execute::execute_unimplemented;
use crate::execute::open_call;
use crate::execute::Accepted;
use crate::poll::BatchFuture;
use crate::stream::RequestStream;
use crate::stream_sink::DuplexSink;
use crate::stream_sink::ServerStreamingSink;
use crate::unary_sink::ClientStreamingSink;
use crate::unary_sink::UnarySink;

verus! {

/// To open a call takes it out of its context, which stays as it was otherwise, and asks for the
/// batch that ends with the call as the first thing.
pub proof fn opened_call_is_taken<I>()
    ensures
        forall|ctx: &mut RpcContext<I>, r: (Call, BatchFuture)| #[trigger]
            call_ensures(open_call::<I>, (ctx,), r) ==> {
                &&& r.0@.raw == ctx@.ctx.call
                &&& r.0@.ops == seq![CallOpView::StartServerSide]
                &&& r.1.index == 0
                &&& final(ctx)@.ctx.call == 0
                &&& final(ctx)@.ctx.ctx == ctx@.ctx.ctx
                &&& final(ctx)@.ctx.inner == ctx@.ctx.inner
                &&& final(ctx)@.ctx.method == ctx@.ctx.method
                &&& final(ctx)@.ctx.host == ctx@.ctx.host
                &&& final(ctx)@.ctx.deadline == ctx@.ctx.deadline
                &&& final(ctx)@.deadline == ctx@.deadline
            },
{
}

/// A request for a method without a handler has its call opened and ended with the status that says
/// so.
pub proof fn unimplemented_call_is_refused<I>(ctx: RequestContext<I>, call: Call)
    requires
        call_ensures(execute_unimplemented::<I>, (ctx,), call),
    ensures
        call@.raw == ctx@.call,
        call@.ops.len() == 2,
        call@.ops[0] is StartServerSide,
        call@.ops[1] is Abort,
        call@.ops[1]->Abort_status.status is Unimplemented,
        call@.ops[1]->Abort_status.details is None,
{
}

/// A call that is there can be opened, and refused; and a request can be served by every function
/// that can be called on it.
pub proof fn execution_asks_only_for_the_call<I, C, R>(
    request: RequestContext<I>,
    payload: &[u8],
    f: &C,
) where C: Fn(RpcContext<I>, &[u8]) -> R
    requires
        forall|c: RpcContext<I>, bytes: &[u8]|
            c@.ctx == request@ && c@.deadline == request@.deadline && bytes@ == payload@
                ==> #[trigger] call_requires(*f, (c, bytes)),
    ensures
        request@.call != 0 ==> call_requires(execute_unimplemented::<I>, (request,)),
        call_requires(execute::<I, C, R>, (request, payload, f)),
        forall|ctx: &mut RpcContext<I>|
            ctx@.ctx.call != 0 ==> #[trigger] call_requires(open_call::<I>, (ctx,)),
{
}

/// The function that serves a method is called on the request as it is and on the bytes that came
/// with it.
pub proof fn served_request_is_handed_on<I, C, R>(
    ctx: RequestContext<I>,
    payload: &[u8],
    f: &C,
    out: R,
) where C: Fn(RpcContext<I>, &[u8]) -> R
    requires
        call_ensures(execute::<I, C, R>, (ctx, payload, f), out),
    ensures
        exists|c: RpcContext<I>, bytes: &[u8]|
            {
                &&& #[trigger] call_ensures(*f, (c, bytes), out)
                &&& bytes@ == payload@
                &&& c@.ctx == ctx@
                &&& c@.deadline == ctx@.deadline
            },
{
}

/// A unary call hands its handler the request that the deserializer makes of the message, a sink on
/// the call that has been opened and nothing more, and the context without the call. Only an error
/// of the deserializer for that very message, of whatever length, keeps the handler from being
/// called: the call is then ended with an internal error that has the error in its words.
pub proof fn unary_call_is_served_if_decoded<I, P, E, S, D, G, F, R>(
    ctx: RpcContext<I>,
    ser: S,
    de: D,
    show: &G,
    payload: &[u8],
    f: &F,
    r: Accepted<R>,
) where
    D: Fn(&[u8]) -> Result<P, E>,
    G: Fn(&E) -> String,
    F: Fn(RpcContext<I>, P, UnarySink<S>) -> R,

    requires
        call_ensures(
            execute_unary::<I, P, E, S, D, G, F, R>,
            (ctx, ser, de, show, payload, f),
            r,
        ),
    ensures
        r matches Accepted::Served(out) ==> exists|
            slice: &[u8],
            request: P,
            c: RpcContext<I>,
            s: UnarySink<S>,
        |
            {
                &&& slice@ == payload@
                &&& #[trigger] call_ensures(de, (slice,), Ok::<P, E>(request))
                &&& #[trigger] call_ensures(*f, (c, request, s), out)
                &&& c@.ctx.call == 0
                &&& c@.ctx.ctx == ctx@.ctx.ctx
                &&& c@.ctx.inner == ctx@.ctx.inner
                &&& c@.ctx.method == ctx@.ctx.method
                &&& c@.ctx.host == ctx@.ctx.host
                &&& c@.ctx.deadline == ctx@.ctx.deadline
                &&& c@.deadline == ctx@.deadline
                &&& s@.call.raw == ctx@.ctx.call
                &&& s@.call.ops == seq![CallOpView::StartServerSide]
                &&& s@.close_f.index == 0
                &&& s@.write_flags == 0
                &&& s.serializer() == ser
            },
        r matches Accepted::Aborted(call) ==> exists|slice: &[u8], e: E, shown: String|
            {
                &&& slice@ == payload@
                &&& #[trigger] call_ensures(de, (slice,), Err::<P, E>(e))
                &&& #[trigger] call_ensures(*show, (&e,), shown)
                &&& call@.raw == ctx@.ctx.call
                &&& call@.ops.len() == 2
                &&& call@.ops[0] is StartServerSide
                &&& call@.ops[1] is Abort
                &&& call@.ops[1]->Abort_status.status is Internal
                &&& call@.ops[1]->Abort_status.details == Some(
                    "Failed to deserialize response message: "@ + shown@,
                )
            },
{
}

/// A unary call whose message the deserializer accepts is served, and one whose message it refuses
/// is not.
pub proof fn unary_call_follows_the_deserializer<I, P, E, S, D, G, F, R>(
    ctx: RpcContext<I>,
    ser: S,
    de: D,
    show: &G,
    payload: &[u8],
    f: &F,
    r: Accepted<R>,
) where
    D: Fn(&[u8]) -> Result<P, E>,
    G: Fn(&E) -> String,
    F: Fn(RpcContext<I>, P, UnarySink<S>) -> R,

    requires
        call_ensures(
            execute_unary::<I, P, E, S, D, G, F, R>,
            (ctx, ser, de, show, payload, f),
            r,
        ),
    ensures
        (forall|slice: &[u8], decoded: Result<P, E>|
            slice@ == payload@ && #[trigger] call_ensures(de, (slice,), decoded) ==> decoded is Ok)
            ==> r is Served,
        (forall|slice: &[u8], decoded: Result<P, E>|
            slice@ == payload@ && #[trigger] call_ensures(de, (slice,), decoded) ==> decoded is Err)
            ==> r is Aborted,
{
    unary_call_is_served_if_decoded(ctx, ser, de, show, payload, f, r);
}

/// A unary call that is there can be executed on every message that its deserializer can be called
/// on, if its errors can be put in words and its handler called on what it can make of the message.
pub proof fn unary_call_asks_only_for_the_functions<I, P, E, S, D, G, F, R>(
    ctx: RpcContext<I>,
    ser: S,
    de: D,
    show: &G,
    payload: &[u8],
    f: &F,
) where
    D: Fn(&[u8]) -> Result<P, E>,
    G: Fn(&E) -> String,
    F: Fn(RpcContext<I>, P, UnarySink<S>) -> R,

    requires
        ctx@.ctx.call != 0,
        forall|slice: &[u8]| slice@ == payload@ ==> #[trigger] call_requires(de, (slice,)),
        forall|slice: &[u8], e: E|
            slice@ == payload@ && #[trigger] call_ensures(de, (slice,), Err::<P, E>(e))
                ==> call_requires(*show, (&e,)),
        forall|slice: &[u8], c: RpcContext<I>, request: P, s: UnarySink<S>|
            slice@ == payload@ && #[trigger] call_ensures(de, (slice,), Ok::<P, E>(request))
                && c@.ctx.call == 0 && c@.ctx.ctx == ctx@.ctx.ctx && c@.ctx.inner == ctx@.ctx.inner
                && c@.ctx.method == ctx@.ctx.method && c@.ctx.host == ctx@.ctx.host
                && c@.ctx.deadline == ctx@.ctx.deadline && c@.deadline == ctx@.deadline
                && s@.call.raw == ctx@.ctx.call && s@.call.ops == seq![CallOpView::StartServerSide]
                && s@.close_f.index == 0 && s.serializer() == ser
                ==> #[trigger] call_requires(*f, (c, request, s)),
    ensures
        call_requires(
            execute_unary::<I, P, E, S, D, G, F, R>,
            (ctx, ser, de, show, payload, f),
        ),
{
}

/// A unary call that has been opened can go on if its handler can be called on the request, or if
/// there is none.
pub proof fn opened_unary_call_asks_only_for_the_handler<I, P, S, F, R>(
    ctx: RpcContext<I>,
    call: Call,
    close_f: BatchFuture,
    ser: S,
    decoded: Result<P, String>,
    f: &F,
) where F: Fn(RpcContext<I>, P, UnarySink<S>) -> R
    requires
        decoded is Ok ==> forall|c: RpcContext<I>, s: UnarySink<S>|
            c@ == ctx@ && s@.call == call@ && s@.close_f == close_f && s.serializer() == ser
                ==> #[trigger] call_requires(*f, (c, decoded->Ok_0, s)),
    ensures
        call_requires(
            dispatch_unary::<I, P, S, F, R>,
            (ctx, call, close_f, ser, decoded, f),
        ),
{
}

/// A unary call that has been opened goes to its handler exactly if its message was decoded, with
/// that request and a sink on the call as it is. Else it is ended with an internal error that has
/// the error in its words.
pub proof fn opened_unary_call_goes_to_its_handler<I, P, S, F, R>(
    ctx: RpcContext<I>,
    call: Call,
    close_f: BatchFuture,
    ser: S,
    decoded: Result<P, String>,
    f: &F,
    r: Accepted<R>,
) where F: Fn(RpcContext<I>, P, UnarySink<S>) -> R
    requires
        call_ensures(
            dispatch_unary::<I, P, S, F, R>,
            (ctx, call, close_f, ser, decoded, f),
            r,
        ),
    ensures
        r is Served <==> decoded is Ok,
        r matches Accepted::Served(out) ==> exists|
            c: RpcContext<I>,
            request: P,
            s: UnarySink<S>,
        |
            {
                &&& #[trigger] call_ensures(*f, (c, request, s), out)
                &&& decoded == Ok::<P, String>(request)
                &&& c@ == ctx@
                &&& s@.call == call@
                &&& s@.close_f == close_f
                &&& s@.write_flags == 0
                &&& s.serializer() == ser
            },
        r matches Accepted::Aborted(aborted) ==> {
            &&& aborted@.raw == call@.raw
            &&& aborted@.ops.len() == call@.ops.len() + 1
            &&& forall|i: int|
                0 <= i < call@.ops.len() ==> #[trigger] aborted@.ops[i] == call@.ops[i]
            &&& aborted@.ops.last() is Abort
            &&& aborted@.ops.last()->Abort_status.status is Internal
            &&& decoded matches Err(text) && aborted@.ops.last()->Abort_status.details == Some(
                "Failed to deserialize response message: "@ + text@,
            )
        },
{
}

/// A server streaming call hands its handler the request that the deserializer makes of the
/// message, a sink on the call that has been opened and nothing more, and the context without the
/// call. Only an error of the deserializer for that very message, of whatever length, keeps the
/// handler from being called: the call is then ended with an internal error that has the error in
/// its words.
pub proof fn server_streaming_call_is_served_if_decoded<I, P, E, S, D, G, F, R>(
    ctx: RpcContext<I>,
    ser: S,
    de: D,
    show: &G,
    payload: &[u8],
    f: &F,
    r: Accepted<R>,
) where
    D: Fn(&[u8]) -> Result<P, E>,
    G: Fn(&E) -> String,
    F: Fn(RpcContext<I>, P, ServerStreamingSink<S>) -> R,

    requires
        call_ensures(
            execute_server_streaming::<I, P, E, S, D, G, F, R>,
            (ctx, ser, de, show, payload, f),
            r,
        ),
    ensures
        r matches Accepted::Served(out) ==> exists|
            slice: &[u8],
            request: P,
            c: RpcContext<I>,
            s: ServerStreamingSink<S>,
        |
            {
                &&& slice@ == payload@
                &&& #[trigger] call_ensures(de, (slice,), Ok::<P, E>(request))
                &&& #[trigger] call_ensures(*f, (c, request, s), out)
                &&& c@.ctx.call == 0
                &&& c@.ctx.ctx == ctx@.ctx.ctx
                &&& c@.ctx.inner == ctx@.ctx.inner
                &&& c@.ctx.method == ctx@.ctx.method
                &&& c@.ctx.host == ctx@.ctx.host
                &&& c@.ctx.deadline == ctx@.ctx.deadline
                &&& c@.deadline == ctx@.deadline
                &&& s@.call.raw == ctx@.ctx.call
                &&& s@.call.ops == seq![CallOpView::StartServerSide]
                &&& s@.close_f.index == 0
                &&& s@.base.report.flags == 0
                &&& s@.base.report.send_metadata
                &&& s@.base.close_f is None
                &&& s@.status.status is OK
                &&& s@.status.details is None
                &&& !s@.flushed
                &&& s.serializer() == ser
            },
        r matches Accepted::Aborted(call) ==> exists|slice: &[u8], e: E, shown: String|
            {
                &&& slice@ == payload@
                &&& #[trigger] call_ensures(de, (slice,), Err::<P, E>(e))
                &&& #[trigger] call_ensures(*show, (&e,), shown)
                &&& call@.raw == ctx@.ctx.call
                &&& call@.ops.len() == 2
                &&& call@.ops[0] is StartServerSide
                &&& call@.ops[1] is Abort
                &&& call@.ops[1]->Abort_status.status is Internal
                &&& call@.ops[1]->Abort_status.details == Some(
                    "Failed to deserialize response message: "@ + shown@,
                )
            },
{
}

/// A server streaming call whose message the deserializer accepts is served, and one whose message
/// it refuses is not.
pub proof fn server_streaming_call_follows_the_deserializer<I, P, E, S, D, G, F, R>(
    ctx: RpcContext<I>,
    ser: S,
    de: D,
    show: &G,
    payload: &[u8],
    f: &F,
    r: Accepted<R>,
) where
    D: Fn(&[u8]) -> Result<P, E>,
    G: Fn(&E) -> String,
    F: Fn(RpcContext<I>, P, ServerStreamingSink<S>) -> R,

    requires
        call_ensures(
            execute_server_streaming::<I, P, E, S, D, G, F, R>,
            (ctx, ser, de, show, payload, f),
            r,
        ),
    ensures
        (forall|slice: &[u8], decoded: Result<P, E>|
            slice@ == payload@ && #[trigger] call_ensures(de, (slice,), decoded) ==> decoded is Ok)
            ==> r is Served,
        (forall|slice: &[u8], decoded: Result<P, E>|
            slice@ == payload@ && #[trigger] call_ensures(de, (slice,), decoded) ==> decoded is Err)
            ==> r is Aborted,
{
    server_streaming_call_is_served_if_decoded(ctx, ser, de, show, payload, f, r);
}

/// A server streaming call that is there can be executed on every message that its deserializer can
/// be called on, if its errors can be put in words and its handler called on what it can make of
/// the message.
pub proof fn server_streaming_call_asks_only_for_the_functions<I, P, E, S, D, G, F, R>(
    ctx: RpcContext<I>,
    ser: S,
    de: D,
    show: &G,
    payload: &[u8],
    f: &F,
) where
    D: Fn(&[u8]) -> Result<P, E>,
    G: Fn(&E) -> String,
    F: Fn(RpcContext<I>, P, ServerStreamingSink<S>) -> R,

    requires
        ctx@.ctx.call != 0,
        forall|slice: &[u8]| slice@ == payload@ ==> #[trigger] call_requires(de, (slice,)),
        forall|slice: &[u8], e: E|
            slice@ == payload@ && #[trigger] call_ensures(de, (slice,), Err::<P, E>(e))
                ==> call_requires(*show, (&e,)),
        forall|slice: &[u8], c: RpcContext<I>, request: P, s: ServerStreamingSink<S>|
            slice@ == payload@ && #[trigger] call_ensures(de, (slice,), Ok::<P, E>(request))
                && c@.ctx.call == 0 && c@.ctx.ctx == ctx@.ctx.ctx && c@.ctx.inner == ctx@.ctx.inner
                && c@.ctx.method == ctx@.ctx.method && c@.ctx.host == ctx@.ctx.host
                && c@.ctx.deadline == ctx@.ctx.deadline && c@.deadline == ctx@.deadline
                && s@.call.raw == ctx@.ctx.call && s@.call.ops == seq![CallOpView::StartServerSide]
                && s@.close_f.index == 0 && s.serializer() == ser
                ==> #[trigger] call_requires(*f, (c, request, s)),
    ensures
        call_requires(
            execute_server_streaming::<I, P, E, S, D, G, F, R>,
            (ctx, ser, de, show, payload, f),
        ),
{
}

/// A server streaming call that has been opened can go on if its handler can be called on the
/// request, or if there is none.
pub proof fn opened_server_streaming_call_asks_only_for_the_handler<I, P, S, F, R>(
    ctx: RpcContext<I>,
    call: Call,
    close_f: BatchFuture,
    ser: S,
    decoded: Result<P, String>,
    f: &F,
) where F: Fn(RpcContext<I>, P, ServerStreamingSink<S>) -> R
    requires
        decoded is Ok ==> forall|c: RpcContext<I>, s: ServerStreamingSink<S>|
            c@ == ctx@ && s@.call == call@ && s@.close_f == close_f && s.serializer() == ser
                ==> #[trigger] call_requires(*f, (c, decoded->Ok_0, s)),
    ensures
        call_requires(
            dispatch_server_streaming::<I, P, S, F, R>,
            (ctx, call, close_f, ser, decoded, f),
        ),
{
}

/// A server streaming call that has been opened goes to its handler exactly if its message was
/// decoded, with that request and a sink on the call as it is. Else it is ended with an internal
/// error that has the error in its words.
pub proof fn opened_server_streaming_call_goes_to_its_handler<I, P, S, F, R>(
    ctx: RpcContext<I>,
    call: Call,
    close_f: BatchFuture,
    ser: S,
    decoded: Result<P, String>,
    f: &F,
    r: Accepted<R>,
) where F: Fn(RpcContext<I>, P, ServerStreamingSink<S>) -> R
    requires
        call_ensures(
            dispatch_server_streaming::<I, P, S, F, R>,
            (ctx, call, close_f, ser, decoded, f),
            r,
        ),
    ensures
        r is Served <==> decoded is Ok,
        r matches Accepted::Served(out) ==> exists|
            c: RpcContext<I>,
            request: P,
            s: ServerStreamingSink<S>,
        |
            {
                &&& #[trigger] call_ensures(*f, (c, request, s), out)
                &&& decoded == Ok::<P, String>(request)
                &&& c@ == ctx@
                &&& s@.call == call@
                &&& s@.close_f == close_f
                &&& s@.base.report.flags == 0
                &&& s@.base.report.send_metadata
                &&& s@.base.close_f is None
                &&& s@.status.status is OK
                &&& s@.status.details is None
                &&& !s@.flushed
                &&& s.serializer() == ser
            },
        r matches Accepted::Aborted(aborted) ==> {
            &&& aborted@.raw == call@.raw
            &&& aborted@.ops.len() == call@.ops.len() + 1
            &&& forall|i: int|
                0 <= i < call@.ops.len() ==> #[trigger] aborted@.ops[i] == call@.ops[i]
            &&& aborted@.ops.last() is Abort
            &&& aborted@.ops.last()->Abort_status.status is Internal
            &&& decoded matches Err(text) && aborted@.ops.last()->Abort_status.details == Some(
                "Failed to deserialize response message: "@ + text@,
            )
        },
{
}

/// A client streaming call hands its handler the stream of the requests on its call, a sink on the
/// call that has been opened and nothing more, and the context without the call.
pub proof fn client_streaming_call_is_served<I, D, S, F, R>(
    ctx: RpcContext<I>,
    ser: S,
    de: D,
    f: &F,
    out: R,
) where F: Fn(RpcContext<I>, RequestStream<D>, ClientStreamingSink<S>) -> R
    requires
        call_ensures(execute_client_streaming::<I, D, S, F, R>, (ctx, ser, de, f), out),
    ensures
        exists|c: RpcContext<I>, stream: RequestStream<D>, s: ClientStreamingSink<S>|
            {
                &&& #[trigger] call_ensures(*f, (c, stream, s), out)
                &&& c@.ctx.call == 0
                &&& c@.ctx.ctx == ctx@.ctx.ctx
                &&& c@.ctx.inner == ctx@.ctx.inner
                &&& c@.ctx.method == ctx@.ctx.method
                &&& c@.ctx.host == ctx@.ctx.host
                &&& c@.ctx.deadline == ctx@.ctx.deadline
                &&& c@.deadline == ctx@.deadline
                &&& stream@.call == ctx@.ctx.call
                &&& stream@.base.close_f is None
                &&& stream@.de == de
                &&& s@.call.raw == ctx@.ctx.call
                &&& s@.call.ops == seq![CallOpView::StartServerSide]
                &&& s@.close_f.index == 0
                &&& s@.write_flags == 0
                &&& s.serializer() == ser
            },
{
}

/// A client streaming call that is there can be executed if its handler can be called.
pub proof fn client_streaming_call_asks_only_for_the_handler<I, D, S, F, R>(
    ctx: RpcContext<I>,
    ser: S,
    de: D,
    f: &F,
) where F: Fn(RpcContext<I>, RequestStream<D>, ClientStreamingSink<S>) -> R
    requires
        ctx@.ctx.call != 0,
        forall|c: RpcContext<I>, stream: RequestStream<D>, s: ClientStreamingSink<S>|
            c@.ctx.call == 0 && c@.ctx.ctx == ctx@.ctx.ctx && c@.ctx.inner == ctx@.ctx.inner
                && c@.ctx.method == ctx@.ctx.method && c@.ctx.host == ctx@.ctx.host
                && c@.ctx.deadline == ctx@.ctx.deadline && c@.deadline == ctx@.deadline
                && stream@.call == ctx@.ctx.call && stream@.base.close_f is None && stream@.de == de
                && s@.call.raw == ctx@.ctx.call && s@.call.ops == seq![CallOpView::StartServerSide]
                && s@.close_f.index == 0 && s.serializer() == ser
                ==> #[trigger] call_requires(*f, (c, stream, s)),
    ensures
        call_requires(execute_client_streaming::<I, D, S, F, R>, (ctx, ser, de, f)),
{
}

/// A duplex call hands its handler the stream of the requests on its call, a sink on the call that
/// has been opened and nothing more, and the context without the call.
pub proof fn duplex_call_is_served<I, D, S, F, R>(
    ctx: RpcContext<I>,
    ser: S,
    de: D,
    f: &F,
    out: R,
) where F: Fn(RpcContext<I>, RequestStream<D>, DuplexSink<S>) -> R
    requires
        call_ensures(execute_duplex_streaming::<I, D, S, F, R>, (ctx, ser, de, f), out),
    ensures
        exists|c: RpcContext<I>, stream: RequestStream<D>, s: DuplexSink<S>|
            {
                &&& #[trigger] call_ensures(*f, (c, stream, s), out)
                &&& c@.ctx.call == 0
                &&& c@.ctx.ctx == ctx@.ctx.ctx
                &&& c@.ctx.inner == ctx@.ctx.inner
                &&& c@.ctx.method == ctx@.ctx.method
                &&& c@.ctx.host == ctx@.ctx.host
                &&& c@.ctx.deadline == ctx@.ctx.deadline
                &&& c@.deadline == ctx@.deadline
                &&& stream@.call == ctx@.ctx.call
                &&& stream@.base.close_f is None
                &&& stream@.de == de
                &&& s@.call.raw == ctx@.ctx.call
                &&& s@.call.ops == seq![CallOpView::StartServerSide]
                &&& s@.close_f.index == 0
                &&& s@.base.report.flags == 0
                &&& s@.base.report.send_metadata
                &&& s@.base.close_f is None
                &&& s@.status.status is OK
                &&& s@.status.details is None
                &&& !s@.flushed
                &&& s.serializer() == ser
            },
{
}

/// A duplex call that is there can be executed if its handler can be called.
pub proof fn duplex_call_asks_only_for_the_handler<I, D, S, F, R>(
    ctx: RpcContext<I>,
    ser: S,
    de: D,
    f: &F,
) where F: Fn(RpcContext<I>, RequestStream<D>, DuplexSink<S>) -> R
    requires
        ctx@.ctx.call != 0,
        forall|c: RpcContext<I>, stream: RequestStream<D>, s: DuplexSink<S>|
            c@.ctx.call == 0 && c@.ctx.ctx == ctx@.ctx.ctx && c@.ctx.inner == ctx@.ctx.inner
                && c@.ctx.method == ctx@.ctx.method && c@.ctx.host == ctx@.ctx.host
                && c@.ctx.deadline == ctx@.ctx.deadline && c@.deadline == ctx@.deadline
                && stream@.call == ctx@.ctx.call && stream@.base.close_f is None && stream@.de == de
                && s@.call.raw == ctx@.ctx.call && s@.call.ops == seq![CallOpView::StartServerSide]
                && s@.close_f.index == 0 && s.serializer() == ser
                ==> #[trigger] call_requires(*f, (c, stream, s)),
    ensures
        call_requires(execute_duplex_streaming::<I, D, S, F, R>, (ctx, ser, de, f)),
{
}

} // verus!
