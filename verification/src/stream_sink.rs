//! The sinks of the calls that are answered with a stream of messages.
//!
//! Messages are buffered and sent by the sink's base, outside of this library. The base reports
//! back after everything it is asked to do; the sink decides what that means to the one who
//! sends, and closes the call: flush the base, send the status, wait for it, wait for the end of
//! the call.
use vstd::prelude::*;

use crate::call::Call;
use crate::call::CallOpView;
use crate::call::CallView;
use crate::poll::is_ready;
use crate::poll::Async;
use crate::poll::AsyncSink;
use crate::poll::BatchFuture;
use crate::poll::Finish;
use crate::poll::Poll;
use crate::poll::Step;
use crate::status::ok_status;
use crate::status::RpcStatus;
use crate::status::StatusView;
use crate::unary_sink::ReplyView;

verus! {

/// What the base reports after it was asked to do something: how the status is to be sent.
#[derive(Clone, Copy, Debug, PartialEq, Eq, Structural)]
pub struct SinkReport {
    /// The write flags.
    pub flags: u32,
    /// Whether the initial metadata still has to be sent.
    pub send_metadata: bool,
}

/// What the sink keeps of its base.
#[derive(Clone, Copy, Debug, PartialEq, Eq, Structural)]
pub struct SinkBase {
    /// The latest report.
    pub report: SinkReport,
    /// The batch that sends the status, once it has been started.
    pub close_f: Option<BatchFuture>,
}

impl SinkBase {
    /// The base of a sink that has sent nothing.
    pub fn new(flags: u32, send_metadata: bool) -> (base: SinkBase)
        ensures
            base == (SinkBase { report: SinkReport { flags, send_metadata }, close_f: None }),
    {
        SinkBase { report: SinkReport { flags, send_metadata }, close_f: None }
    }
}

/// What a sink that is being closed wants first.
#[derive(Clone, Copy, Debug, PartialEq, Eq, Structural)]
pub enum CloseAction {
    /// Poll the base, which is ready once all messages are sent, and report the outcome.
    Flush,
    /// Poll this batch and report the outcome.
    Poll(BatchFuture),
}

/// A sink for a stream of messages.
pub struct StreamSinkView {
    pub call: CallView,
    pub base: SinkBase,
    pub close_f: BatchFuture,
    pub status: StatusView,
    pub flushed: bool,
}

impl StreamSinkView {
    /// The sink of a call on which nothing was sent: without write flags, the initial metadata
    /// still to be sent, and OK as the status to close with.
    pub open spec fn fresh(call: CallView, close_f: BatchFuture) -> StreamSinkView {
        StreamSinkView {
            call,
            base: SinkBase {
                report: SinkReport { flags: 0, send_metadata: true },
                close_f: None,
            },
            close_f,
            status: ok_status(),
            flushed: false,
        }
    }

    /// The sink of the call at this address, which has been opened and nothing more.
    pub open spec fn opened(raw: usize) -> StreamSinkView {
        StreamSinkView::fresh(CallView::opened(raw), CallView::fresh(raw).next_batch())
    }

    /// The sink after a report of its base.
    pub open spec fn reported(self, report: SinkReport) -> StreamSinkView {
        StreamSinkView { base: SinkBase { report, close_f: self.base.close_f }, ..self }
    }

    /// The operation that sends this status in the state of the base.
    pub open spec fn status_op(self, status: StatusView) -> CallOpView {
        CallOpView::SendStatus {
            status,
            send_metadata: self.base.report.send_metadata,
            payload: None,
            flags: self.base.report.flags,
        }
    }

    /// The failure of the call with this status.
    pub open spec fn failed(self, status: StatusView) -> ReplyView {
        ReplyView {
            call: self.call.with(self.status_op(status)),
            wait: Finish { status: Some(self.call.next_batch()), close: self.close_f },
        }
    }

    /// The sink with the batch that sends its status started.
    pub open spec fn closing(self) -> StreamSinkView {
        StreamSinkView {
            call: self.call.with(self.status_op(self.status)),
            base: SinkBase {
                report: self.base.report,
                close_f: Some(self.call.next_batch()),
            },
            ..self
        }
    }

    /// What a sink whose status batch has been started waits for.
    pub open spec fn wait(self) -> Finish {
        Finish {
            status: if self.flushed {
                None
            } else {
                self.base.close_f
            },
            close: self.close_f,
        }
    }

    /// What the sink wants first when it is closed.
    pub open spec fn close_action(self) -> CloseAction {
        if self.base.close_f is None {
            CloseAction::Flush
        } else {
            CloseAction::Poll(self.wait().next_batch())
        }
    }

    /// The sink after its base was polled, to be closed, with this outcome and report.
    pub open spec fn after_flush<E>(
        self,
        outcome: Poll<(), E>,
        report: SinkReport,
    ) -> StreamSinkView {
        if is_ready(outcome) {
            self.reported(report).closing()
        } else {
            self.reported(report)
        }
    }

    /// What the sink wants after its base was polled, to be closed, with this outcome.
    pub open spec fn flush_answer<E>(self, outcome: Poll<(), E>) -> Step<E> {
        match outcome {
            Ok(Async::Ready(_)) => Step::Poll(self.call.next_batch()),
            Ok(Async::NotReady) => Step::Return(Ok(Async::NotReady)),
            Err(e) => Step::Return(Err(e)),
        }
    }

    /// The sink after the batch it waits for was polled with this outcome.
    pub open spec fn after_poll<E>(self, outcome: Poll<(), E>) -> StreamSinkView {
        StreamSinkView { flushed: self.flushed || is_ready(outcome), ..self }
    }

    /// Only a status batch that has been started can have finished.
    pub open spec fn well_formed(self) -> bool {
        self.flushed ==> self.base.close_f is Some
    }
}

/// What became of an item offered to a sink, by what its base said.
pub open spec fn send_answer<T, E>(item: T, accepted: Result<bool, E>) -> Result<AsyncSink<T>, E> {
    match accepted {
        Ok(true) => Ok(AsyncSink::Ready),
        Ok(false) => Ok(AsyncSink::NotReady(item)),
        Err(e) => Err(e),
    }
}

/// The sink of a call with one request and a stream of responses.
pub struct ServerStreamingSink<S> {
    call: Call,
    base: SinkBase,
    close_f: BatchFuture,
    status: RpcStatus,
    flushed: bool,
    ser: S,
}

/// The failure of a call with one request and a stream of responses, on its way.
pub struct ServerStreamingSinkFailure {
    call: Call,
    close_f: BatchFuture,
    fail_f: Option<BatchFuture>,
}

impl<S> View for ServerStreamingSink<S> {
    type V = StreamSinkView;

    closed spec fn view(&self) -> StreamSinkView {
        StreamSinkView {
            call: self.call@,
            base: self.base,
            close_f: self.close_f,
            status: self.status@,
            flushed: self.flushed,
        }
    }
}

impl View for ServerStreamingSinkFailure {
    type V = ReplyView;

    closed spec fn view(&self) -> ReplyView {
        ReplyView {
            call: self.call@,
            wait: Finish { status: self.fail_f, close: self.close_f },
        }
    }
}

impl<S> ServerStreamingSink<S> {
    /// The function that turns a response into bytes.
    pub closed spec fn serializer(&self) -> S {
        self.ser
    }

    /// The sink of `call`, whose end the batch `close_f` learns of.
    pub fn new(call: Call, close_f: BatchFuture, ser: S) -> (sink: ServerStreamingSink<S>)
        ensures
            sink@ == StreamSinkView::fresh(call@, close_f),
            sink@.well_formed(),
            sink.serializer() == ser,
    {
        ServerStreamingSink {
            call,
            base: SinkBase::new(0, true),
            close_f,
            status: RpcStatus::ok(),
            flushed: false,
            ser,
        }
    }

    /// The call, with what has been asked for on it.
    pub fn call(&self) -> (call: &Call)
        ensures
            call@ == self@.call,
    {
        &self.call
    }

    /// The function that turns a response into bytes.
    pub fn ser(&self) -> (ser: &S)
        ensures
            *ser == self.serializer(),
    {
        &self.ser
    }

    /// How a status would be sent now, by the latest report of the base.
    pub fn report(&self) -> (report: SinkReport)
        ensures
            report == self@.base.report,
    {
        self.base.report
    }

    /// Whether the sink's status is on its way, so that it can neither be set nor replaced by a
    /// failure any more.
    pub fn is_closing(&self) -> (r: bool)
        ensures
            r == (self@.base.close_f is Some),
    {
        self.base.close_f.is_some()
    }

    /// Sets the status that the call is closed with.
    pub fn set_status(&mut self, status: RpcStatus)
        requires
            old(self)@.base.close_f is None,
        ensures
            final(self)@ == (StreamSinkView { status: status@, ..old(self)@ }),
            final(self).serializer() == old(self).serializer(),
    {
        self.status = status;
    }

    /// Ends the call with this status, in place of the one that was set.
    pub fn fail(self, status: RpcStatus) -> (failure: ServerStreamingSinkFailure)
        requires
            self@.base.close_f is None,
        ensures
            failure@ == self@.failed(status@),
    {
        let mut call = self.call;
        let report = self.base.report;
        let fail_f = call.start_send_status_from_server(
            &status,
            report.send_metadata,
            None,
            report.flags,
        );
        ServerStreamingSinkFailure { call, close_f: self.close_f, fail_f: Some(fail_f) }
    }

    /// Offers an item. `accepted` and `report` are what the base said when it was offered the item
    /// and the sink's serializer.
    pub fn start_send<T, E>(
        &mut self,
        item: T,
        accepted: Result<bool, E>,
        report: SinkReport,
    ) -> (r: Result<AsyncSink<T>, E>)
        ensures
            r == send_answer(item, accepted),
            final(self)@ == old(self)@.reported(report),
            final(self).serializer() == old(self).serializer(),
    {
        self.base.report = report;
        match accepted {
            Ok(taken) => if taken {
                Ok(AsyncSink::Ready)
            } else {
                Ok(AsyncSink::NotReady(item))
            },
            Err(e) => Err(e),
        }
    }

    /// Flushes the sink. `outcome` and `report` are what the base said when it was polled.
    pub fn poll_complete<E>(&mut self, outcome: Poll<(), E>, report: SinkReport) -> (r: Poll<(), E>)
        ensures
            r == outcome,
            final(self)@ == old(self)@.reported(report),
            final(self).serializer() == old(self).serializer(),
    {
        self.base.report = report;
        outcome
    }

    /// Begins or goes on to close the sink: what to do first.
    pub fn close(&self) -> (action: CloseAction)
        ensures
            action == self@.close_action(),
    {
        match self.base.close_f {
            None => CloseAction::Flush,
            Some(batch) => if !self.flushed {
                CloseAction::Poll(batch)
            } else {
                CloseAction::Poll(self.close_f)
            },
        }
    }

    /// Goes on to close the sink, after the base was polled with this outcome and report. Once
    /// everything is flushed the status is sent.
    pub fn resume_flush<E>(&mut self, outcome: Poll<(), E>, report: SinkReport) -> (step: Step<E>)
        requires
            old(self)@.base.close_f is None,
        ensures
            step == old(self)@.flush_answer(outcome),
            final(self)@ == old(self)@.after_flush(outcome, report),
            old(self)@.well_formed() ==> final(self)@.well_formed(),
            final(self).serializer() == old(self).serializer(),
    {
        self.base.report = report;
        match outcome {
            Ok(Async::Ready(_)) => {
                let batch = self.call.start_send_status_from_server(
                    &self.status,
                    report.send_metadata,
                    None,
                    report.flags,
                );
                self.base.close_f = Some(batch);
                Step::Poll(batch)
            },
            Ok(Async::NotReady) => Step::Return(Ok(Async::NotReady)),
            Err(e) => Step::Return(Err(e)),
        }
    }

    /// Goes on to close the sink, after the batch last asked for was polled with this outcome.
    pub fn resume_poll<E>(&mut self, outcome: Poll<(), E>) -> (step: Step<E>)
        requires
            old(self)@.base.close_f is Some,
        ensures
            step == old(self)@.wait().answer(outcome),
            final(self)@ == old(self)@.after_poll(outcome),
            final(self)@.wait() == old(self)@.wait().advance(outcome),
            old(self)@.well_formed() ==> final(self)@.well_formed(),
            final(self).serializer() == old(self).serializer(),
    {
        match outcome {
            Ok(Async::Ready(_)) => {
                if !self.flushed {
                    self.flushed = true;
                    Step::Poll(self.close_f)
                } else {
                    Step::Return(Ok(Async::Ready(())))
                }
            },
            Ok(Async::NotReady) => Step::Return(Ok(Async::NotReady)),
            Err(e) => Step::Return(Err(e)),
        }
    }
}

impl ServerStreamingSinkFailure {
    /// The call, with what has been asked for on it.
    pub fn call(&self) -> (call: &Call)
        ensures
            call@ == self@.call,
    {
        &self.call
    }

    /// Begins a poll: the batch to poll first.
    pub fn poll(&self) -> (batch: BatchFuture)
        ensures
            batch == self@.wait.next_batch(),
    {
        match self.fail_f {
            Some(batch) => batch,
            None => self.close_f,
        }
    }

    /// Goes on with a poll, after the batch last asked for was polled with this outcome.
    pub fn resume<E>(&mut self, outcome: Poll<(), E>) -> (step: Step<E>)
        ensures
            step == old(self)@.wait.answer(outcome),
            final(self)@ == (ReplyView {
                call: old(self)@.call,
                wait: old(self)@.wait.advance(outcome),
            }),
    {
        match outcome {
            Ok(Async::Ready(_)) => {
                match self.fail_f.take() {
                    Some(_) => Step::Poll(self.close_f),
                    None => Step::Return(Ok(Async::Ready(()))),
                }
            },
            Ok(Async::NotReady) => Step::Return(Ok(Async::NotReady)),
            Err(e) => Step::Return(Err(e)),
        }
    }
}

/// The sink of a call with a stream of requests and a stream of responses. The call is shared
/// with the stream that the requests come from; what is asked for on it is written down here.
pub struct DuplexSink<S> {
    call: Call,
    base: SinkBase,
    close_f: BatchFuture,
    status: RpcStatus,
    flushed: bool,
    ser: S,
}

/// The failure of a call with a stream of requests and a stream of responses, on its way.
pub struct DuplexSinkFailure {
    call: Call,
    close_f: BatchFuture,
    fail_f: Option<BatchFuture>,
}

impl<S> View for DuplexSink<S> {
    type V = StreamSinkView;

    closed spec fn view(&self) -> StreamSinkView {
        StreamSinkView {
            call: self.call@,
            base: self.base,
            close_f: self.close_f,
            status: self.status@,
            flushed: self.flushed,
        }
    }
}

impl View for DuplexSinkFailure {
    type V = ReplyView;

    closed spec fn view(&self) -> ReplyView {
        ReplyView {
            call: self.call@,
            wait: Finish { status: self.fail_f, close: self.close_f },
        }
    }
}

impl<S> DuplexSink<S> {
    /// The function that turns a response into bytes.
    pub closed spec fn serializer(&self) -> S {
        self.ser
    }

    /// The sink of `call`, whose end the batch `close_f` learns of.
    pub fn new(call: Call, close_f: BatchFuture, ser: S) -> (sink: DuplexSink<S>)
        ensures
            sink@ == StreamSinkView::fresh(call@, close_f),
            sink@.well_formed(),
            sink.serializer() == ser,
    {
        DuplexSink {
            call,
            base: SinkBase::new(0, true),
            close_f,
            status: RpcStatus::ok(),
            flushed: false,
            ser,
        }
    }

    /// The call, with what has been asked for on it.
    pub fn call(&self) -> (call: &Call)
        ensures
            call@ == self@.call,
    {
        &self.call
    }

    /// The function that turns a response into bytes.
    pub fn ser(&self) -> (ser: &S)
        ensures
            *ser == self.serializer(),
    {
        &self.ser
    }

    /// How a status would be sent now, by the latest report of the base.
    pub fn report(&self) -> (report: SinkReport)
        ensures
            report == self@.base.report,
    {
        self.base.report
    }

    /// Whether the sink's status is on its way, so that it can neither be set nor replaced by a
    /// failure any more.
    pub fn is_closing(&self) -> (r: bool)
        ensures
            r == (self@.base.close_f is Some),
    {
        self.base.close_f.is_some()
    }

    /// Sets the status that the call is closed with.
    pub fn set_status(&mut self, status: RpcStatus)
        requires
            old(self)@.base.close_f is None,
        ensures
            final(self)@ == (StreamSinkView { status: status@, ..old(self)@ }),
            final(self).serializer() == old(self).serializer(),
    {
        self.status = status;
    }

    /// Ends the call with this status, in place of the one that was set.
    pub fn fail(self, status: RpcStatus) -> (failure: DuplexSinkFailure)
        requires
            self@.base.close_f is None,
        ensures
            failure@ == self@.failed(status@),
    {
        let mut call = self.call;
        let report = self.base.report;
        let fail_f = call.start_send_status_from_server(
            &status,
            report.send_metadata,
            None,
            report.flags,
        );
        DuplexSinkFailure { call, close_f: self.close_f, fail_f: Some(fail_f) }
    }

    /// Offers an item. `accepted` and `report` are what the base said when it was offered the item
    /// and the sink's serializer.
    pub fn start_send<T, E>(
        &mut self,
        item: T,
        accepted: Result<bool, E>,
        report: SinkReport,
    ) -> (r: Result<AsyncSink<T>, E>)
        ensures
            r == send_answer(item, accepted),
            final(self)@ == old(self)@.reported(report),
            final(self).serializer() == old(self).serializer(),
    {
        self.base.report = report;
        match accepted {
            Ok(taken) => if taken {
                Ok(AsyncSink::Ready)
            } else {
                Ok(AsyncSink::NotReady(item))
            },
            Err(e) => Err(e),
        }
    }

    /// Flushes the sink. `outcome` and `report` are what the base said when it was polled.
    pub fn poll_complete<E>(&mut self, outcome: Poll<(), E>, report: SinkReport) -> (r: Poll<(), E>)
        ensures
            r == outcome,
            final(self)@ == old(self)@.reported(report),
            final(self).serializer() == old(self).serializer(),
    {
        self.base.report = report;
        outcome
    }

    /// Begins or goes on to close the sink: what to do first.
    pub fn close(&self) -> (action: CloseAction)
        ensures
            action == self@.close_action(),
    {
        match self.base.close_f {
            None => CloseAction::Flush,
            Some(batch) => if !self.flushed {
                CloseAction::Poll(batch)
            } else {
                CloseAction::Poll(self.close_f)
            },
        }
    }

    /// Goes on to close the sink, after the base was polled with this outcome and report. Once
    /// everything is flushed the status is sent.
    pub fn resume_flush<E>(&mut self, outcome: Poll<(), E>, report: SinkReport) -> (step: Step<E>)
        requires
            old(self)@.base.close_f is None,
        ensures
            step == old(self)@.flush_answer(outcome),
            final(self)@ == old(self)@.after_flush(outcome, report),
            old(self)@.well_formed() ==> final(self)@.well_formed(),
            final(self).serializer() == old(self).serializer(),
    {
        self.base.report = report;
        match outcome {
            Ok(Async::Ready(_)) => {
                let batch = self.call.start_send_status_from_server(
                    &self.status,
                    report.send_metadata,
                    None,
                    report.flags,
                );
                self.base.close_f = Some(batch);
                Step::Poll(batch)
            },
            Ok(Async::NotReady) => Step::Return(Ok(Async::NotReady)),
            Err(e) => Step::Return(Err(e)),
        }
    }

    /// Goes on to close the sink, after the batch last asked for was polled with this outcome.
    pub fn resume_poll<E>(&mut self, outcome: Poll<(), E>) -> (step: Step<E>)
        requires
            old(self)@.base.close_f is Some,
        ensures
            step == old(self)@.wait().answer(outcome),
            final(self)@ == old(self)@.after_poll(outcome),
            final(self)@.wait() == old(self)@.wait().advance(outcome),
            old(self)@.well_formed() ==> final(self)@.well_formed(),
            final(self).serializer() == old(self).serializer(),
    {
        match outcome {
            Ok(Async::Ready(_)) => {
                if !self.flushed {
                    self.flushed = true;
                    Step::Poll(self.close_f)
                } else {
                    Step::Return(Ok(Async::Ready(())))
                }
            },
            Ok(Async::NotReady) => Step::Return(Ok(Async::NotReady)),
            Err(e) => Step::Return(Err(e)),
        }
    }
}

impl DuplexSinkFailure {
    /// The call, with what has been asked for on it.
    pub fn call(&self) -> (call: &Call)
        ensures
            call@ == self@.call,
    {
        &self.call
    }

    /// Begins a poll: the batch to poll first.
    pub fn poll(&self) -> (batch: BatchFuture)
        ensures
            batch == self@.wait.next_batch(),
    {
        match self.fail_f {
            Some(batch) => batch,
            None => self.close_f,
        }
    }

    /// Goes on with a poll, after the batch last asked for was polled with this outcome.
    pub fn resume<E>(&mut self, outcome: Poll<(), E>) -> (step: Step<E>)
        ensures
            step == old(self)@.wait.answer(outcome),
            final(self)@ == (ReplyView {
                call: old(self)@.call,
                wait: old(self)@.wait.advance(outcome),
            }),
    {
        match outcome {
            Ok(Async::Ready(_)) => {
                match self.fail_f.take() {
                    Some(_) => Step::Poll(self.close_f),
                    None => Step::Return(Ok(Async::Ready(()))),
                }
            },
            Ok(Async::NotReady) => Step::Return(Ok(Async::NotReady)),
            Err(e) => Step::Return(Err(e)),
        }
    }
}

} // verus!
