//! The sinks of the calls that are answered with one message.
use vstd::prelude::*;

use crate::call::bytes_view;
use crate::call::Call;
use crate::call::CallOpView;
use crate::call::CallView;
use crate::codec::can_encode;
use crate::codec::encode;
use crate::poll::Async;
use crate::poll::BatchFuture;
use crate::poll::Finish;
use crate::poll::Poll;
use crate::poll::Step;
use crate::status::ok_status;
use crate::status::RpcStatus;
use crate::status::StatusView;

verus! {

/// A sink that waits for the one message, or the failure, to answer its call with.
pub struct ReplySinkView {
    pub call: CallView,
    pub close_f: BatchFuture,
    pub write_flags: u32,
}

/// An answer on its way.
pub struct ReplyView {
    pub call: CallView,
    pub wait: Finish,
}

impl ReplySinkView {
    /// The sink of a call, with no write flags set.
    pub open spec fn fresh(call: CallView, close_f: BatchFuture) -> ReplySinkView {
        ReplySinkView { call, close_f, write_flags: 0 }
    }

    /// The sink of the call at this address, which has been opened and nothing more.
    pub open spec fn opened(raw: usize) -> ReplySinkView {
        ReplySinkView::fresh(CallView::opened(raw), CallView::fresh(raw).next_batch())
    }

    /// The answer with this status and message: one batch sends the initial metadata, the message
    /// and the status, and is awaited before the end of the call is.
    pub open spec fn completed(self, status: StatusView, payload: Option<Seq<u8>>) -> ReplyView {
        ReplyView {
            call: self.call.with(
                CallOpView::SendStatus {
                    status,
                    send_metadata: true,
                    payload,
                    flags: self.write_flags,
                },
            ),
            wait: Finish { status: Some(self.call.next_batch()), close: self.close_f },
        }
    }
}

/// The sink of a call with one request and one response.
pub struct UnarySink<S> {
    call: Call,
    close_f: BatchFuture,
    write_flags: u32,
    ser: S,
}

/// The answer to a call with one request and one response, on its way.
pub struct UnarySinkResult {
    call: Call,
    close_f: BatchFuture,
    cq_f: BatchFuture,
    flushed: bool,
}

impl<S> View for UnarySink<S> {
    type V = ReplySinkView;

    closed spec fn view(&self) -> ReplySinkView {
        ReplySinkView { call: self.call@, close_f: self.close_f, write_flags: self.write_flags }
    }
}

impl View for UnarySinkResult {
    type V = ReplyView;

    closed spec fn view(&self) -> ReplyView {
        ReplyView {
            call: self.call@,
            wait: Finish {
                status: if self.flushed {
                    None
                } else {
                    Some(self.cq_f)
                },
                close: self.close_f,
            },
        }
    }
}

impl<S> UnarySink<S> {
    /// The function that turns the response into bytes.
    pub closed spec fn serializer(&self) -> S {
        self.ser
    }

    /// The sink of `call`, whose end the batch `close_f` learns of.
    pub fn new(call: Call, close_f: BatchFuture, ser: S) -> (sink: UnarySink<S>)
        ensures
            sink@ == ReplySinkView::fresh(call@, close_f),
            sink.serializer() == ser,
    {
        UnarySink { call, close_f, write_flags: 0, ser }
    }

    /// The call, with what has been asked for on it.
    pub fn call(&self) -> (call: &Call)
        ensures
            call@ == self@.call,
    {
        &self.call
    }

    /// Answers the call with this message and status OK.
    pub fn success<T>(self, t: T) -> (r: UnarySinkResult) where S: Fn(&T, &mut Vec<u8>)
        requires
            can_encode(self.serializer(), t),
        ensures
            exists|buf: &mut Vec<u8>|
                buf@.len() == 0 && #[trigger] call_ensures(self.serializer(), (&t, buf), ()) && r@
                    == self@.completed(ok_status(), Some(final(buf)@)),
    {
        self.complete(RpcStatus::ok(), Some(t))
    }

    /// Ends the call with this status and no message.
    pub fn fail(self, status: RpcStatus) -> (r: UnarySinkResult)
        ensures
            r@ == self@.completed(status@, None),
    {
        self.respond(status, None)
    }

    /// Answers the call with this status, and with the message where there is one.
    pub fn complete<T>(self, status: RpcStatus, t: Option<T>) -> (r: UnarySinkResult) where
        S: Fn(&T, &mut Vec<u8>),

        requires
            t matches Some(message) ==> can_encode(self.serializer(), message),
        ensures
            t matches Some(message) ==> exists|buf: &mut Vec<u8>|
                buf@.len() == 0 && #[trigger] call_ensures(self.serializer(), (&message, buf), ())
                    && r@ == self@.completed(status@, Some(final(buf)@)),
            t is None ==> r@ == self@.completed(status@, None),
    {
        let data = match &t {
            Some(message) => Some(encode(&self.ser, message)),
            None => None,
        };
        self.respond(status, data)
    }

    /// Answers the call with this status, and with the message in these bytes where there are any.
    pub fn respond(self, status: RpcStatus, data: Option<Vec<u8>>) -> (r: UnarySinkResult)
        ensures
            r@ == self@.completed(status@, bytes_view(data)),
    {
        let mut call = self.call;
        let cq_f = call.start_send_status_from_server(&status, true, data, self.write_flags);
        UnarySinkResult { call, close_f: self.close_f, cq_f, flushed: false }
    }
}

impl UnarySinkResult {
    /// The call, with what has been asked for on it.
    pub fn call(&self) -> (call: &Call)
        ensures
            call@ == self@.call,
    {
        &self.call
    }

    /// Begins a poll: the batch to poll first.
    pub fn poll(&self) -> (batch: BatchFuture)
        ensures
            batch == self@.wait.next_batch(),
    {
        if !self.flushed {
            self.cq_f
        } else {
            self.close_f
        }
    }

    /// Goes on with a poll, after the batch last asked for was polled with this outcome.
    pub fn resume<E>(&mut self, outcome: Poll<(), E>) -> (step: Step<E>)
        ensures
            step == old(self)@.wait.answer(outcome),
            final(self)@ == (ReplyView {
                call: old(self)@.call,
                wait: old(self)@.wait.advance(outcome),
            }),
    {
        match outcome {
            Ok(Async::Ready(_)) => {
                if !self.flushed {
                    self.flushed = true;
                    Step::Poll(self.close_f)
                } else {
                    Step::Return(Ok(Async::Ready(())))
                }
            },
            Ok(Async::NotReady) => Step::Return(Ok(Async::NotReady)),
            Err(e) => Step::Return(Err(e)),
        }
    }
}

/// The sink of a call with a stream of requests and one response. The call is shared with the
/// stream that the requests come from; what is asked for on it is written down here.
pub struct ClientStreamingSink<S> {
    call: Call,
    close_f: BatchFuture,
    write_flags: u32,
    ser: S,
}

/// The answer to a call with a stream of requests and one response, on its way.
pub struct ClientStreamingSinkResult {
    call: Call,
    close_f: BatchFuture,
    cq_f: BatchFuture,
    flushed: bool,
}

impl<S> View for ClientStreamingSink<S> {
    type V = ReplySinkView;

    closed spec fn view(&self) -> ReplySinkView {
        ReplySinkView { call: self.call@, close_f: self.close_f, write_flags: self.write_flags }
    }
}

impl View for ClientStreamingSinkResult {
    type V = ReplyView;

    closed spec fn view(&self) -> ReplyView {
        ReplyView {
            call: self.call@,
            wait: Finish {
                status: if self.flushed {
                    None
                } else {
                    Some(self.cq_f)
                },
                close: self.close_f,
            },
        }
    }
}

impl<S> ClientStreamingSink<S> {
    /// The function that turns the response into bytes.
    pub closed spec fn serializer(&self) -> S {
        self.ser
    }

    /// The sink of `call`, whose end the batch `close_f` learns of.
    pub fn new(call: Call, close_f: BatchFuture, ser: S) -> (sink: ClientStreamingSink<S>)
        ensures
            sink@ == ReplySinkView::fresh(call@, close_f),
            sink.serializer() == ser,
    {
        ClientStreamingSink { call, close_f, write_flags: 0, ser }
    }

    /// The call, with what has been asked for on it.
    pub fn call(&self) -> (call: &Call)
        ensures
            call@ == self@.call,
    {
        &self.call
    }

    /// Answers the call with this message and status OK.
    pub fn success<T>(self, t: T) -> (r: ClientStreamingSinkResult) where S: Fn(&T, &mut Vec<u8>)
        requires
            can_encode(self.serializer(), t),
        ensures
            exists|buf: &mut Vec<u8>|
                buf@.len() == 0 && #[trigger] call_ensures(self.serializer(), (&t, buf), ()) && r@
                    == self@.completed(ok_status(), Some(final(buf)@)),
    {
        self.complete(RpcStatus::ok(), Some(t))
    }

    /// Ends the call with this status and no message.
    pub fn fail(self, status: RpcStatus) -> (r: ClientStreamingSinkResult)
        ensures
            r@ == self@.completed(status@, None),
    {
        self.respond(status, None)
    }

    /// Answers the call with this status, and with the message where there is one.
    pub fn complete<T>(
        self,
        status: RpcStatus,
        t: Option<T>,
    ) -> (r: ClientStreamingSinkResult) where S: Fn(&T, &mut Vec<u8>)
        requires
            t matches Some(message) ==> can_encode(self.serializer(), message),
        ensures
            t matches Some(message) ==> exists|buf: &mut Vec<u8>|
                buf@.len() == 0 && #[trigger] call_ensures(self.serializer(), (&message, buf), ())
                    && r@ == self@.completed(status@, Some(final(buf)@)),
            t is None ==> r@ == self@.completed(status@, None),
    {
        let data = match &t {
            Some(message) => Some(encode(&self.ser, message)),
            None => None,
        };
        self.respond(status, data)
    }

    /// Answers the call with this status, and with the message in these bytes where there are any.
    pub fn respond(self, status: RpcStatus, data: Option<Vec<u8>>) -> (r: ClientStreamingSinkResult)
        ensures
            r@ == self@.completed(status@, bytes_view(data)),
    {
        let mut call = self.call;
        let cq_f = call.start_send_status_from_server(&status, true, data, self.write_flags);
        ClientStreamingSinkResult { call, close_f: self.close_f, cq_f, flushed: false }
    }
}

impl ClientStreamingSinkResult {
    /// The call, with what has been asked for on it.
    pub fn call(&self) -> (call: &Call)
        ensures
            call@ == self@.call,
    {
        &self.call
    }

    /// Begins a poll: the batch to poll first.
    pub fn poll(&self) -> (batch: BatchFuture)
        ensures
            batch == self@.wait.next_batch(),
    {
        if !self.flushed {
            self.cq_f
        } else {
            self.close_f
        }
    }

    /// Goes on with a poll, after the batch last asked for was polled with this outcome.
    pub fn resume<E>(&mut self, outcome: Poll<(), E>) -> (step: Step<E>)
        ensures
            step == old(self)@.wait.answer(outcome),
            final(self)@ == (ReplyView {
                call: old(self)@.call,
                wait: old(self)@.wait.advance(outcome),
            }),
    {
        match outcome {
            Ok(Async::Ready(_)) => {
                if !self.flushed {
                    self.flushed = true;
                    Step::Poll(self.close_f)
                } else {
                    Step::Return(Ok(Async::Ready(())))
                }
            },
            Ok(Async::NotReady) => Step::Return(Ok(Async::NotReady)),
            Err(e) => Step::Return(Err(e)),
        }
    }
}

} // verus!
