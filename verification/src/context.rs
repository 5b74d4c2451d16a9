//! Requests, from the moment the core reports them to the moment a handler takes them over.
use std::sync::Arc;
use vstd::prelude::*;

use crate::call::Call;
use crate::call::CallOpView;
use crate::call::CallView;
use crate::deadline::ClockType;
use crate::deadline::Deadline;
use crate::deadline::Timespec;
use crate::execute::can_serve;
use crate::execute::execute;
use crate::execute::execute_unimplemented;
use crate::execute::serves;
use crate::execute::Accepted;
use crate::server::Handler;
use crate::server::Inner;
use crate::server::MethodType;
use crate::status::no_payload_status;
use crate::status::unimplemented_status;
use crate::status::RpcStatus;
use crate::status::RpcStatusCode;

verus! {

/// What the core reports of a request.
#[derive(Debug)]
pub struct Arrival {
    /// The path of the method that is called.
    pub method: Vec<u8>,
    /// The host that the client addressed.
    pub host: Vec<u8>,
    /// The time by which the client wants the answer.
    pub deadline: Deadline,
    /// The address of the call in the core; 0 if there is none.
    pub call: usize,
}

/// The zero of the real-time clock.
pub open spec fn epoch() -> Timespec {
    Timespec { tv_sec: 0, tv_nsec: 0, clock_type: ClockType::Realtime }
}

/// Context for accepting a request. It keeps the server, of type `I`, alive until it is taken out.
pub struct RequestContext<I> {
    ctx: usize,
    inner: Option<Arc<I>>,
    arrival: Arrival,
}

/// A request: the address of its context in the core, the server it is kept with, and what the
/// core reported of it.
pub struct RequestView<I> {
    pub ctx: usize,
    pub inner: Option<Arc<I>>,
    pub method: Seq<u8>,
    pub host: Seq<u8>,
    pub deadline: Timespec,
    pub call: usize,
}

impl<I> RequestView<I> {
    /// The request after its call has been taken.
    pub open spec fn without_call(self) -> RequestView<I> {
        RequestView { call: 0, ..self }
    }

    /// Whether a server with these handlers has one for the request.
    pub open spec fn has_handler<C>(self, inner: Inner<C>) -> bool {
        inner@.contains_key(self.method)
    }

    /// The handler for the request, of a server that has one.
    pub open spec fn handler<C>(self, inner: Inner<C>) -> Handler<C> {
        inner@[self.method]
    }
}

impl<I> View for RequestContext<I> {
    type V = RequestView<I>;

    closed spec fn view(&self) -> RequestView<I> {
        RequestView {
            ctx: self.ctx,
            inner: self.inner,
            method: self.arrival.method@,
            host: self.arrival.host@,
            deadline: self.arrival.deadline.at(),
            call: self.arrival.call,
        }
    }
}

impl<I> RequestContext<I> {
    /// The context at this address of the core, for a request that is yet to come.
    pub fn new(ctx: usize, inner: Arc<I>) -> (r: RequestContext<I>)
        ensures
            r@ == (RequestView {
                ctx,
                inner: Some(inner),
                method: Seq::empty(),
                host: Seq::empty(),
                deadline: epoch(),
                call: 0,
            }),
    {
        RequestContext {
            ctx,
            inner: Some(inner),
            arrival: Arrival {
                method: Vec::new(),
                host: Vec::new(),
                deadline: Deadline::new(
                    Timespec { tv_sec: 0, tv_nsec: 0, clock_type: ClockType::Realtime },
                ),
                call: 0,
            },
        }
    }

    /// Takes in what the core reports of the request.
    pub fn arrive(&mut self, arrival: Arrival)
        ensures
            final(self)@ == (RequestView {
                ctx: old(self)@.ctx,
                inner: old(self)@.inner,
                method: arrival.method@,
                host: arrival.host@,
                deadline: arrival.deadline.at(),
                call: arrival.call,
            }),
    {
        self.arrival = arrival;
    }

    /// Try to accept a client side streaming request.
    ///
    /// Return error if the request is a client side unary request. A request for which there is
    /// no handler is answered that it is not implemented.
    pub fn handle_stream_req<C, R>(self, inner: &Inner<C>) -> (r: Result<Accepted<R>, Self>) where
        C: Fn(RpcContext<I>, &[u8]) -> R,

        requires
            !self@.has_handler(*inner) ==> self@.call != 0,
            self@.has_handler(*inner) && !self@.handler(*inner).spec_method_type().one_request()
                ==> can_serve(
                self@.handler(*inner).callback(),
                RpcView::of(self@),
                Seq::empty(),
            ),
        ensures
            match r {
                Err(ctx) => {
                    &&& ctx == self
                    &&& self@.has_handler(*inner)
                    &&& self@.handler(*inner).spec_method_type().one_request()
                },
                Ok(Accepted::Served(out)) => {
                    &&& self@.has_handler(*inner)
                    &&& !self@.handler(*inner).spec_method_type().one_request()
                    &&& serves(
                        self@.handler(*inner).callback(),
                        RpcView::of(self@),
                        Seq::empty(),
                        out,
                    )
                },
                Ok(Accepted::Aborted(call)) => {
                    &&& !self@.has_handler(*inner)
                    &&& call@ == CallView::opened(self@.call).with(
                        CallOpView::Abort { status: unimplemented_status() },
                    )
                },
            },
    {
        match inner.get_handler(self.method()) {
            Some(handler) => match handler.method_type() {
                MethodType::Unary | MethodType::ServerStreaming => Err(self),
                _ => {
                    let empty: Vec<u8> = Vec::new();
                    assert(empty@ =~= Seq::empty());
                    Ok(Accepted::Served(execute(self, empty.as_slice(), handler.cb())))
                },
            },
            None => Ok(Accepted::Aborted(execute_unimplemented(self))),
        }
    }

    /// Accept a client side unary request.
    ///
    /// This method should be called after `handle_stream_req`. When handling client side unary
    /// request, handler will only be called after the unary request is received: this is what to
    /// ask of the core to receive it, with a batch context of the core.
    pub fn handle_unary_req(self, inner: Arc<I>, batch: BatchContext) -> (r: ReceiveMessage<I>)
        requires
            self@.call != 0,
        ensures
            r.call == self@.call,
            r.batch_ctx == batch.ctx,
            r.tag@ == UnaryRequestView::fresh(self@, inner, batch),
    {
        // fetch message before calling callback.
        let tag = UnaryRequestContext::new(self, inner, batch);
        let call = tag.request.arrival.call;
        let batch_ctx = tag.batch.as_ptr();
        ReceiveMessage { call, batch_ctx, tag }
    }

    /// Takes the server out of the context.
    pub fn take_inner(&mut self) -> (r: Option<Arc<I>>)
        ensures
            r == old(self)@.inner,
            final(self)@ == (RequestView { inner: None, ..old(self)@ }),
    {
        self.inner.take()
    }

    /// The address of the context in the core.
    pub fn as_ptr(&self) -> (r: usize)
        ensures
            r == self@.ctx,
    {
        self.ctx
    }

    /// Whether the call is still in the context.
    pub fn has_call(&self) -> (r: bool)
        ensures
            r == (self@.call != 0),
    {
        self.arrival.call != 0
    }

    /// Takes the call out of the context, if it is there.
    pub fn take_call(&mut self) -> (r: Option<Call>)
        ensures
            final(self)@ == old(self)@.without_call(),
            match r {
                Some(call) => old(self)@.call != 0 && call@ == CallView::fresh(old(self)@.call),
                None => old(self)@.call == 0,
            },
    {
        let call: usize = self.arrival.call;
        self.arrival.call = 0;
        if call == 0 {
            return None;
        }
        Some(Call::from_raw(call))
    }

    /// The path of the method that is called.
    pub fn method(&self) -> (r: &[u8])
        ensures
            r@ == self@.method,
    {
        self.arrival.method.as_slice()
    }

    /// The host that the client addressed.
    pub fn host(&self) -> (r: &[u8])
        ensures
            r@ == self@.host,
    {
        self.arrival.host.as_slice()
    }

    /// The time by which the client wants the answer.
    pub fn deadline(&self) -> (r: Deadline)
        ensures
            r.at() == self@.deadline,
            r.at().is_real_time(),
    {
        proof {
            use_type_invariant(&self.arrival.deadline);
        }
        self.arrival.deadline
    }
}

/// A batch context of the core, by its address there.
#[derive(Clone, Copy, Debug, PartialEq, Eq, Structural)]
pub struct BatchContext {
    pub ctx: usize,
}

impl BatchContext {
    /// The address of the batch context in the core.
    pub fn as_ptr(&self) -> (r: usize)
        ensures
            r == self.ctx,
    {
        self.ctx
    }
}

/// What is to be asked of the core to receive the message of a request: on this call, into this
/// batch context, and with this tag kept until the message is there.
pub struct ReceiveMessage<I> {
    pub call: usize,
    pub batch_ctx: usize,
    pub tag: UnaryRequestContext<I>,
}

/// The code by which the core says that it has begun to do what it was asked for.
pub const CALL_OK: u32 = 0;

impl<I> ReceiveMessage<I> {
    /// The tag to keep, after the core answered with this code. Any code but [`CALL_OK`] is an
    /// error that the core is not supposed to give; the tag is then given up.
    pub fn started(self, code: u32) -> (r: Result<UnaryRequestContext<I>, u32>)
        ensures
            r == if code == CALL_OK {
                Ok::<UnaryRequestContext<I>, u32>(self.tag)
            } else {
                Err(code)
            },
    {
        if code != CALL_OK {
            return Err(code);
        }
        Ok(self.tag)
    }
}

/// A context for handling client side unary request.
pub struct UnaryRequestContext<I> {
    request: RequestContext<I>,
    inner: Option<Arc<I>>,
    batch: BatchContext,
}

/// A request whose message is awaited: the request, the server it is kept with, and the batch
/// context that the message is received into.
pub struct UnaryRequestView<I> {
    pub request: RequestView<I>,
    pub inner: Option<Arc<I>>,
    pub batch: BatchContext,
}

impl<I> UnaryRequestView<I> {
    /// The request with its server and a batch context.
    pub open spec fn fresh(
        request: RequestView<I>,
        inner: Arc<I>,
        batch: BatchContext,
    ) -> UnaryRequestView<I> {
        UnaryRequestView { request, inner: Some(inner), batch }
    }
}

/// The bytes of a received message, where there is one.
pub open spec fn message_view(data: Option<&[u8]>) -> Option<Seq<u8>> {
    match data {
        Some(payload) => Some(payload@),
        None => None,
    }
}

/// Whether the request can be handled with this message, or with none: the server has a handler
/// for it, which may be called on the message, and without one the call is there to be ended.
pub open spec fn can_be_handled<I, C, R>(
    tag: UnaryRequestView<I>,
    inner: Inner<C>,
    data: Option<Seq<u8>>,
) -> bool where C: Fn(RpcContext<I>, &[u8]) -> R {
    &&& tag.request.has_handler(inner)
    &&& match data {
        Some(payload) => can_serve(
            tag.request.handler(inner).callback(),
            RpcView::of(tag.request),
            payload,
        ),
        None => tag.request.call != 0,
    }
}

impl<I> View for UnaryRequestContext<I> {
    type V = UnaryRequestView<I>;

    closed spec fn view(&self) -> UnaryRequestView<I> {
        UnaryRequestView { request: self.request@, inner: self.inner, batch: self.batch }
    }
}

impl<I> UnaryRequestContext<I> {
    /// The request with its server and a batch context for its message.
    pub fn new(
        ctx: RequestContext<I>,
        inner: Arc<I>,
        batch: BatchContext,
    ) -> (r: UnaryRequestContext<I>)
        ensures
            r@ == UnaryRequestView::fresh(ctx@, inner, batch),
    {
        UnaryRequestContext { request: ctx, inner: Some(inner), batch }
    }

    /// The batch context that the message is received into.
    pub fn batch_ctx(&self) -> (r: &BatchContext)
        ensures
            *r == self@.batch,
    {
        &self.batch
    }

    /// The request.
    pub fn request_ctx(&self) -> (r: &RequestContext<I>)
        ensures
            r@ == self@.request,
    {
        &self.request
    }

    /// Takes the server out of the context.
    pub fn take_inner(&mut self) -> (r: Option<Arc<I>>)
        ensures
            r == old(self)@.inner,
            final(self)@ == (UnaryRequestView { inner: None, ..old(self)@ }),
    {
        self.inner.take()
    }

    /// Handles the request, with the message that was received. Without one, the call is ended
    /// with an internal error.
    pub fn handle<C, R>(self, inner: &Inner<C>, data: Option<&[u8]>) -> (r: Accepted<R>) where
        C: Fn(RpcContext<I>, &[u8]) -> R,

        requires
            can_be_handled(self@, *inner, message_view(data)),
        ensures
            match r {
                Accepted::Served(out) => data matches Some(payload) && serves(
                    self@.request.handler(*inner).callback(),
                    RpcView::of(self@.request),
                    payload@,
                    out,
                ),
                Accepted::Aborted(call) => data is None && call@ == CallView::fresh(
                    self@.request.call,
                ).with(CallOpView::Abort { status: no_payload_status() }),
            },
    {
        let handler = inner.get_handler(self.request.method()).unwrap();
        if let Some(payload) = data {
            return Accepted::Served(execute(self.request, payload, handler.cb()));
        }
        let status = RpcStatus::new(RpcStatusCode::Internal, Some("No payload".to_owned()));
        let mut request = self.request;
        Accepted::Aborted(request.take_call().unwrap().abort(status))
    }
}

/// A context for rpc handling.
pub struct RpcContext<I> {
    ctx: RequestContext<I>,
    deadline: Deadline,
}

/// A request that is being handled, and its deadline.
pub struct RpcView<I> {
    pub ctx: RequestView<I>,
    pub deadline: Timespec,
}

impl<I> RpcView<I> {
    /// The request with the deadline that the core reported.
    pub open spec fn of(ctx: RequestView<I>) -> RpcView<I> {
        RpcView { ctx, deadline: ctx.deadline }
    }

    /// The context after the call has been taken.
    pub open spec fn without_call(self) -> RpcView<I> {
        RpcView { ctx: self.ctx.without_call(), deadline: self.deadline }
    }
}

impl<I> View for RpcContext<I> {
    type V = RpcView<I>;

    closed spec fn view(&self) -> RpcView<I> {
        RpcView { ctx: self.ctx@, deadline: self.deadline.at() }
    }
}

impl<I> RpcContext<I> {
    /// The context for handling this request.
    pub fn new(ctx: RequestContext<I>) -> (r: RpcContext<I>)
        ensures
            r@ == RpcView::of(ctx@),
    {
        RpcContext { deadline: ctx.deadline(), ctx }
    }

    /// The request.
    pub fn request_ctx(&self) -> (r: &RequestContext<I>)
        ensures
            r@ == self@.ctx,
    {
        &self.ctx
    }

    /// Takes the call out of the context, if it is there.
    pub fn take_call(&mut self) -> (r: Option<Call>)
        ensures
            final(self)@ == old(self)@.without_call(),
            match r {
                Some(call) => old(self)@.ctx.call != 0 && call@ == CallView::fresh(
                    old(self)@.ctx.call,
                ),
                None => old(self)@.ctx.call == 0,
            },
    {
        self.ctx.take_call()
    }

    /// The path of the method that is called.
    pub fn method(&self) -> (r: &[u8])
        ensures
            r@ == self@.ctx.method,
    {
        self.ctx.method()
    }

    /// The host that the client addressed.
    pub fn host(&self) -> (r: &[u8])
        ensures
            r@ == self@.ctx.host,
    {
        self.ctx.host()
    }

    /// The time by which the client wants the answer.
    pub fn deadline(&self) -> (r: &Deadline)
        ensures
            r.at() == self@.deadline,
            r.at().is_real_time(),
    {
        proof {
            use_type_invariant(&self.deadline);
        }
        &self.deadline
    }
}

} // verus!
