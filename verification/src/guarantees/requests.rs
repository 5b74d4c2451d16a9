//! What becomes of a request, from its arrival to its handler.
use std::sync::Arc;
use vstd::prelude::*;

use crate::call::Call;
use crate::context::Arrival;
use crate::context::BatchContext;
use crate::context::ReceiveMessage;
use crate::context::RequestContext;
use crate::context::RpcContext;
use crate::context::UnaryRequestContext;
use crate::deadline::Deadline;
use crate::execute::Accepted;
use crate::server::Inner;

verus! {

/// A context for a request that is yet to come has its server and no call.
pub proof fn new_request_has_no_call<I>(ctx: usize, inner: Arc<I>, r: RequestContext<I>)
    requires
        call_ensures(RequestContext::<I>::new, (ctx, inner), r),
    ensures
        r@.ctx == ctx,
        r@.inner == Some(inner),
        r@.method.len() == 0,
        r@.host.len() == 0,
        r@.call == 0,
        r@.deadline.tv_sec == 0,
        r@.deadline.tv_nsec == 0,
        r@.deadline.clock_type is Realtime,
{
}

/// A request is what the core reported of it last, in the context it was made with.
pub proof fn request_is_what_arrived<I>()
    ensures
        forall|request: &mut RequestContext<I>, arrival: Arrival| #[trigger]
            call_ensures(RequestContext::<I>::arrive, (request, arrival), ()) ==> {
                &&& final(request)@.ctx == request@.ctx
                &&& final(request)@.inner == request@.inner
                &&& final(request)@.method == arrival.method@
                &&& final(request)@.host == arrival.host@
                &&& final(request)@.deadline == arrival.deadline.at()
                &&& final(request)@.call == arrival.call
            },
{
}

/// What a request says of itself is how it is.
pub proof fn request_shows_its_state<I>(
    request: &RequestContext<I>,
    ctx: usize,
    has_call: bool,
    method: &[u8],
    host: &[u8],
    deadline: Deadline,
)
    requires
        call_ensures(RequestContext::<I>::as_ptr, (request,), ctx),
        call_ensures(RequestContext::<I>::has_call, (request,), has_call),
        call_ensures(RequestContext::<I>::method, (request,), method),
        call_ensures(RequestContext::<I>::host, (request,), host),
        call_ensures(RequestContext::<I>::deadline, (request,), deadline),
    ensures
        ctx == request@.ctx,
        has_call <==> request@.call != 0,
        method@ == request@.method,
        host@ == request@.host,
        deadline.at() == request@.deadline,
        deadline.at().clock_type is Realtime,
{
}

/// The call of a request is given away once, with nothing asked for on it, and the server that it
/// is kept with too. Neither changes anything else.
pub proof fn request_gives_its_call_away_once<I>()
    ensures
        forall|request: &mut RequestContext<I>, r: Option<Call>| #[trigger]
            call_ensures(RequestContext::<I>::take_call, (request,), r) ==> {
                &&& r is Some <==> request@.call != 0
                &&& r matches Some(call) ==> call@.raw == request@.call && call@.ops.len() == 0
                &&& final(request)@.call == 0
                &&& final(request)@.ctx == request@.ctx
                &&& final(request)@.inner == request@.inner
                &&& final(request)@.method == request@.method
                &&& final(request)@.host == request@.host
                &&& final(request)@.deadline == request@.deadline
            },
        forall|request: &mut RequestContext<I>, r: Option<Arc<I>>| #[trigger]
            call_ensures(RequestContext::<I>::take_inner, (request,), r) ==> {
                &&& r == request@.inner
                &&& final(request)@.inner is None
                &&& final(request)@.ctx == request@.ctx
                &&& final(request)@.method == request@.method
                &&& final(request)@.host == request@.host
                &&& final(request)@.deadline == request@.deadline
                &&& final(request)@.call == request@.call
            },
{
}

/// A request is put off, as it is, exactly if its method has a handler that takes one message. One
/// for a method whose handler takes a stream is served at once, by that handler, with no bytes.
/// One for a method without a handler has its call opened and ended with the status that says so.
pub proof fn request_is_sorted_by_its_method<I, C, R>(
    request: RequestContext<I>,
    inner: &Inner<C>,
    r: Result<Accepted<R>, RequestContext<I>>,
) where C: Fn(RpcContext<I>, &[u8]) -> R
    requires
        call_ensures(RequestContext::<I>::handle_stream_req::<C, R>, (request, inner), r),
    ensures
        r is Err <==> inner@.contains_key(request@.method) && (
        inner@[request@.method].spec_method_type() is Unary
            || inner@[request@.method].spec_method_type() is ServerStreaming),
        r matches Err(back) ==> back@ == request@,
        (r matches Ok(Accepted::Served(_))) <==> inner@.contains_key(request@.method) && (
        inner@[request@.method].spec_method_type() is ClientStreaming
            || inner@[request@.method].spec_method_type() is Duplex),
        r matches Ok(Accepted::Served(out)) ==> exists|c: RpcContext<I>, bytes: &[u8]|
            {
                &&& #[trigger] call_ensures(
                    inner@[request@.method].callback(),
                    (c, bytes),
                    out,
                )
                &&& bytes@.len() == 0
                &&& c@.ctx == request@
                &&& c@.deadline == request@.deadline
            },
        (r matches Ok(Accepted::Aborted(_))) <==> !inner@.contains_key(request@.method),
        r matches Ok(Accepted::Aborted(call)) ==> {
            &&& call@.raw == request@.call
            &&& call@.ops.len() == 2
            &&& call@.ops[0] is StartServerSide
            &&& call@.ops[1] is Abort
            &&& call@.ops[1]->Abort_status.status is Unimplemented
            &&& call@.ops[1]->Abort_status.details is None
        },
{
}

/// A request can be sorted if its handler can be called on it, or, where it has none, if it came
/// with a call.
pub proof fn sorting_asks_only_for_the_handler<I, C, R>(
    request: RequestContext<I>,
    inner: &Inner<C>,
) where C: Fn(RpcContext<I>, &[u8]) -> R
    requires
        inner@.contains_key(request@.method) || request@.call != 0,
        inner@.contains_key(request@.method) ==> forall|c: RpcContext<I>, bytes: &[u8]|
            c@.ctx == request@ && c@.deadline == request@.deadline && bytes@.len() == 0
                ==> #[trigger] call_requires(
                inner@[request@.method].callback(),
                (c, bytes),
            ),
    ensures
        call_requires(RequestContext::<I>::handle_stream_req::<C, R>, (request, inner)),
{
}

/// A request that is put off has its message received on its own call, into the batch context that
/// was given for it, and is kept as it is, with its server.
pub proof fn put_off_request_is_kept<I>(
    request: RequestContext<I>,
    inner: Arc<I>,
    batch: BatchContext,
    receive: ReceiveMessage<I>,
)
    requires
        call_ensures(RequestContext::<I>::handle_unary_req, (request, inner, batch), receive),
    ensures
        receive.call == request@.call,
        receive.batch_ctx == batch.ctx,
        receive.tag@.request == request@,
        receive.tag@.inner == Some(inner),
        receive.tag@.batch == batch,
{
}

/// A request that came with a call can be put off.
pub proof fn putting_off_asks_only_for_the_call<I>(
    request: RequestContext<I>,
    inner: Arc<I>,
    batch: BatchContext,
)
    requires
        request@.call != 0,
    ensures
        call_requires(RequestContext::<I>::handle_unary_req, (request, inner, batch)),
{
}

/// The request whose message is being received is kept exactly if the core answers that all is
/// well, which is 0. Any other answer is passed on.
pub proof fn receiving_starts_unless_refused<I>(
    receive: ReceiveMessage<I>,
    code: u32,
    r: Result<UnaryRequestContext<I>, u32>,
)
    requires
        call_ensures(ReceiveMessage::<I>::started, (receive, code), r),
    ensures
        r is Ok <==> code == 0,
        r matches Ok(tag) ==> tag == receive.tag,
        r matches Err(answer) ==> answer == code,
{
}

/// A request whose message is awaited has what it was made of, and shows it.
pub proof fn awaiting_request_is_what_it_was_made_of<I>(
    ctx: RequestContext<I>,
    inner: Arc<I>,
    batch: BatchContext,
    tag: UnaryRequestContext<I>,
    shown_batch: &BatchContext,
    address: usize,
    shown_request: &RequestContext<I>,
)
    requires
        call_ensures(UnaryRequestContext::<I>::new, (ctx, inner, batch), tag),
        call_ensures(UnaryRequestContext::<I>::batch_ctx, (&tag,), shown_batch),
        call_ensures(BatchContext::as_ptr, (shown_batch,), address),
        call_ensures(UnaryRequestContext::<I>::request_ctx, (&tag,), shown_request),
    ensures
        tag@.request == ctx@,
        tag@.inner == Some(inner),
        tag@.batch == batch,
        *shown_batch == batch,
        address == batch.ctx,
        shown_request@ == ctx@,
{
}

/// The server that a request is kept with is given away once; nothing else changes.
pub proof fn awaiting_request_gives_its_server_away_once<I>()
    ensures
        forall|tag: &mut UnaryRequestContext<I>, r: Option<Arc<I>>| #[trigger]
            call_ensures(UnaryRequestContext::<I>::take_inner, (tag,), r) ==> {
                &&& r == tag@.inner
                &&& final(tag)@.inner is None
                &&& final(tag)@.request == tag@.request
                &&& final(tag)@.batch == tag@.batch
            },
{
}

/// A request whose message came, of whatever length, is served with these very bytes by the
/// handler of its method. Only if none came is it not served: its call is then ended with an
/// internal error that says so.
pub proof fn awaiting_request_is_served_if_its_message_came<I, C, R>(
    tag: UnaryRequestContext<I>,
    inner: &Inner<C>,
    data: Option<&[u8]>,
    r: Accepted<R>,
) where C: Fn(RpcContext<I>, &[u8]) -> R
    requires
        call_ensures(UnaryRequestContext::<I>::handle::<C, R>, (tag, inner, data), r),
    ensures
        r is Served <==> data is Some,
        r matches Accepted::Served(out) ==> exists|c: RpcContext<I>, bytes: &[u8]|
            {
                &&& #[trigger] call_ensures(
                    inner@[tag@.request.method].callback(),
                    (c, bytes),
                    out,
                )
                &&& data is Some
                &&& bytes@ == data->0@
                &&& c@.ctx == tag@.request
                &&& c@.deadline == tag@.request.deadline
            },
        r matches Accepted::Aborted(call) ==> {
            &&& call@.raw == tag@.request.call
            &&& call@.ops.len() == 1
            &&& call@.ops[0] is Abort
            &&& call@.ops[0]->Abort_status.status is Internal
            &&& call@.ops[0]->Abort_status.details == Some("No payload"@)
        },
{
}

/// A request for a method with a handler can be handled with every message that the handler can be
/// called on, and without one if its call is still there.
pub proof fn handling_asks_only_for_the_handler<I, C, R>(
    tag: UnaryRequestContext<I>,
    inner: &Inner<C>,
    data: Option<&[u8]>,
) where C: Fn(RpcContext<I>, &[u8]) -> R
    requires
        inner@.contains_key(tag@.request.method),
        data is None ==> tag@.request.call != 0,
        forall|c: RpcContext<I>, bytes: &[u8]|
            c@.ctx == tag@.request && c@.deadline == tag@.request.deadline && data is Some
                && bytes@ == data->0@ ==> #[trigger] call_requires(
                inner@[tag@.request.method].callback(),
                (c, bytes),
            ),
    ensures
        call_requires(UnaryRequestContext::<I>::handle::<C, R>, (tag, inner, data)),
{
}

/// A handler sees the request as it came: its method, its host and its deadline.
pub proof fn handler_sees_what_arrived<I>(
    request: RequestContext<I>,
    c: RpcContext<I>,
    shown: &RequestContext<I>,
    method: &[u8],
    host: &[u8],
    deadline: &Deadline,
)
    requires
        call_ensures(RpcContext::<I>::new, (request,), c),
        call_ensures(RpcContext::<I>::request_ctx, (&c,), shown),
        call_ensures(RpcContext::<I>::method, (&c,), method),
        call_ensures(RpcContext::<I>::host, (&c,), host),
        call_ensures(RpcContext::<I>::deadline, (&c,), deadline),
    ensures
        c@.ctx == request@,
        c@.deadline == request@.deadline,
        shown@ == request@,
        method@ == request@.method,
        host@ == request@.host,
        deadline.at() == request@.deadline,
        deadline.at().clock_type is Realtime,
{
}

/// What a context for handling says of itself is how it is, also after its call was taken.
pub proof fn rpc_context_shows_its_state<I>(
    c: &RpcContext<I>,
    shown: &RequestContext<I>,
    method: &[u8],
    host: &[u8],
    deadline: &Deadline,
)
    requires
        call_ensures(RpcContext::<I>::request_ctx, (c,), shown),
        call_ensures(RpcContext::<I>::method, (c,), method),
        call_ensures(RpcContext::<I>::host, (c,), host),
        call_ensures(RpcContext::<I>::deadline, (c,), deadline),
    ensures
        shown@ == c@.ctx,
        method@ == c@.ctx.method,
        host@ == c@.ctx.host,
        deadline.at() == c@.deadline,
        deadline.at().clock_type is Realtime,
{
}

/// A context for handling gives its call away once, with nothing asked for on it, and stays as it
/// was otherwise.
pub proof fn rpc_context_gives_its_call_away_once<I>()
    ensures
        forall|c: &mut RpcContext<I>, r: Option<Call>| #[trigger]
            call_ensures(RpcContext::<I>::take_call, (c,), r) ==> {
                &&& r is Some <==> c@.ctx.call != 0
                &&& r matches Some(call) ==> call@.raw == c@.ctx.call && call@.ops.len() == 0
                &&& final(c)@.ctx.call == 0
                &&& final(c)@.ctx.ctx == c@.ctx.ctx
                &&& final(c)@.ctx.inner == c@.ctx.inner
                &&& final(c)@.ctx.method == c@.ctx.method
                &&& final(c)@.ctx.host == c@.ctx.host
                &&& final(c)@.ctx.deadline == c@.ctx.deadline
                &&& final(c)@.deadline == c@.deadline
            },
{
}

} // verus!
