//! What holds of a call as a whole, whatever happens on it.
use std::sync::Arc;
use vstd::prelude::*;

use crate::call::CallOpView;
use crate::call::CallView;
use crate::context::can_be_handled;
use crate::context::BatchContext;
use crate::context::RequestView;
use crate::context::RpcContext;
use crate::context::RpcView;
use crate::context::UnaryRequestView;
use crate::execute::can_serve;
use crate::poll::is_ready;
use crate::poll::run_moves_on_at_first_ready;
use crate::poll::Async;
use crate::poll::BatchFuture;
use crate::poll::Poll;
use crate::poll::Step;
use crate::server::Inner;
use crate::status::ok_status;
use crate::status::StatusView;
use crate::stream::RequestStreamView;
use crate::stream_sink::SinkReport;
use crate::stream_sink::StreamSinkView;
use crate::unary_sink::ReplySinkView;

verus! {

/// Whether the operation tells the client how the call ended.
pub open spec fn is_ending(op: CallOpView) -> bool {
    op is SendStatus || op is Abort
}

/// How many of the operations tell the client how the call ended.
pub open spec fn endings(ops: Seq<CallOpView>) -> nat
    decreases ops.len(),
{
    if ops.len() == 0 {
        0
    } else {
        endings(ops.drop_last()) + if is_ending(ops.last()) {
            1nat
        } else {
            0nat
        }
    }
}

/// One more operation on a call counts as an ending exactly if it is one.
pub proof fn endings_of_one_more(call: CallView, op: CallOpView)
    ensures
        endings(call.with(op).ops) == endings(call.ops) + if is_ending(op) {
            1nat
        } else {
            0nat
        },
{
    assert(call.with(op).ops.drop_last() =~= call.ops);
}

/// A call that was taken over has not ended yet, whether or not it has been opened.
pub proof fn fresh_call_has_not_ended(raw: usize)
    ensures
        endings(CallView::fresh(raw).ops) == 0,
        endings(CallView::opened(raw).ops) == 0,
{
    endings_of_one_more(CallView::fresh(raw), CallOpView::StartServerSide);
}

/// A call that is refused, before or after it was opened, is ended once.
pub proof fn refused_call_ends_once(raw: usize, status: StatusView)
    ensures
        endings(CallView::fresh(raw).with(CallOpView::Abort { status }).ops) == 1,
        endings(CallView::opened(raw).with(CallOpView::Abort { status }).ops) == 1,
{
    fresh_call_has_not_ended(raw);
    endings_of_one_more(CallView::fresh(raw), CallOpView::Abort { status });
    endings_of_one_more(CallView::opened(raw), CallOpView::Abort { status });
}

/// A call that is answered with one message, or fails instead, is ended once, by a batch that
/// comes after the one the sink was opened with.
pub proof fn answered_call_ends_once(raw: usize, status: StatusView, payload: Option<Seq<u8>>)
    ensures
        endings(ReplySinkView::opened(raw).completed(status, payload).call.ops) == 1,
        ReplySinkView::opened(raw).completed(status, payload).wait.close == (BatchFuture {
            index: 0,
        }),
        ReplySinkView::opened(raw).completed(status, payload).wait.status == Some(
            BatchFuture { index: 1 },
        ),
{
    fresh_call_has_not_ended(raw);
    endings_of_one_more(
        CallView::opened(raw),
        CallOpView::SendStatus { status, send_metadata: true, payload, flags: 0 },
    );
}

/// The sink's answer leaves everything that was asked for on the call before in place, and adds
/// one operation.
pub proof fn answer_only_adds_the_status(
    sink: ReplySinkView,
    status: StatusView,
    payload: Option<Seq<u8>>,
)
    ensures
        sink.completed(status, payload).call.raw == sink.call.raw,
        sink.completed(status, payload).call.ops.drop_last() == sink.call.ops,
        sink.completed(status, payload).call.ops.last() == (CallOpView::SendStatus {
            status,
            send_metadata: true,
            payload,
            flags: sink.write_flags,
        }),
{
    assert(sink.completed(status, payload).call.ops.drop_last() =~= sink.call.ops);
}

/// Something that happens to a sink for a stream of messages.
pub enum SinkEvent<E> {
    /// Its status is set.
    SetStatus { status: StatusView },
    /// Its base was offered an item, or polled, and reported.
    Reported { report: SinkReport },
    /// It is being closed, and its base was polled.
    Flushed { outcome: Poll<(), E>, report: SinkReport },
    /// It is being closed, and the batch it waits for was polled.
    Polled { outcome: Poll<(), E> },
}

/// Whether this can happen to the sink in its state: the status is set, and the base flushed,
/// only before the status batch is started, and a batch is polled only after that.
pub open spec fn admits<E>(sink: StreamSinkView, event: SinkEvent<E>) -> bool {
    match event {
        SinkEvent::SetStatus { .. } => sink.base.close_f is None,
        SinkEvent::Reported { .. } => true,
        SinkEvent::Flushed { .. } => sink.base.close_f is None,
        SinkEvent::Polled { .. } => sink.base.close_f is Some,
    }
}

/// The sink after the event.
pub open spec fn apply<E>(sink: StreamSinkView, event: SinkEvent<E>) -> StreamSinkView {
    match event {
        SinkEvent::SetStatus { status } => StreamSinkView { status, ..sink },
        SinkEvent::Reported { report } => sink.reported(report),
        SinkEvent::Flushed { outcome, report } => sink.after_flush(outcome, report),
        SinkEvent::Polled { outcome } => sink.after_poll(outcome),
    }
}

/// The sink after the events, first to last.
pub open spec fn apply_all<E>(sink: StreamSinkView, events: Seq<SinkEvent<E>>) -> StreamSinkView
    decreases events.len(),
{
    if events.len() == 0 {
        sink
    } else {
        apply(apply_all(sink, events.drop_last()), events.last())
    }
}

/// Whether the events can happen to the sink one after the other.
pub open spec fn admits_all<E>(sink: StreamSinkView, events: Seq<SinkEvent<E>>) -> bool
    decreases events.len(),
{
    events.len() == 0 || {
        &&& admits_all(sink, events.drop_last())
        &&& admits(apply_all(sink, events.drop_last()), events.last())
    }
}

/// The status that was set last, or OK if none was.
pub open spec fn last_status<E>(events: Seq<SinkEvent<E>>) -> StatusView
    decreases events.len(),
{
    if events.len() == 0 {
        ok_status()
    } else {
        match events.last() {
            SinkEvent::SetStatus { status } => status,
            _ => last_status(events.drop_last()),
        }
    }
}

/// The operation that sends this status without a message, as the base reports it has to be sent.
pub open spec fn bare_status(status: StatusView, report: SinkReport) -> CallOpView {
    CallOpView::SendStatus {
        status,
        send_metadata: report.send_metadata,
        payload: None,
        flags: report.flags,
    }
}

/// Whether the only thing asked for on the call since `before` is that this status be sent.
pub open spec fn sends_only(before: CallView, after: CallView, status: StatusView) -> bool {
    exists|report: SinkReport| after == before.with(#[trigger] bare_status(status, report))
}

/// Whatever happens to a sink for a stream of messages, in any order: its status is the one set
/// last, and OK if none was. Until the status batch is started, nothing is asked for on the call.
/// From then on that is the only thing that was, with that status.
pub proof fn stream_status_is_sent_once<E>(
    call: CallView,
    close_f: BatchFuture,
    events: Seq<SinkEvent<E>>,
)
    requires
        admits_all(StreamSinkView::fresh(call, close_f), events),
    ensures
        ({
            let sink = apply_all(StreamSinkView::fresh(call, close_f), events);
            &&& sink.well_formed()
            &&& sink.close_f == close_f
            &&& sink.status == last_status(events)
            &&& sink.base.close_f is None ==> sink.call == call
            &&& sink.base.close_f is Some ==> {
                &&& sink.base.close_f == Some(call.next_batch())
                &&& sends_only(call, sink.call, last_status(events))
            }
        }),
    decreases events.len(),
{
    if events.len() > 0 {
        stream_status_is_sent_once(call, close_f, events.drop_last());
        let before = apply_all(StreamSinkView::fresh(call, close_f), events.drop_last());
        match events.last() {
            SinkEvent::Flushed { outcome, report } => {
                if is_ready(outcome) {
                    assert(apply(before, events.last()).call == call.with(
                        bare_status(before.status, report),
                    ));
                }
            },
            _ => {},
        }
    }
}

/// A call answered with a stream of messages is ended once if its sink has come to send the
/// status, and not at all before.
pub proof fn streamed_call_ends_once<E>(raw: usize, events: Seq<SinkEvent<E>>)
    requires
        admits_all(StreamSinkView::opened(raw), events),
    ensures
        ({
            let sink = apply_all(StreamSinkView::opened(raw), events);
            endings(sink.call.ops) == if sink.base.close_f is Some {
                1nat
            } else {
                0nat
            }
        }),
{
    let call = CallView::opened(raw);
    let sink = apply_all(StreamSinkView::opened(raw), events);
    let status = last_status(events);
    stream_status_is_sent_once(call, CallView::fresh(raw).next_batch(), events);
    fresh_call_has_not_ended(raw);
    if sink.base.close_f is Some {
        let report = choose|report: SinkReport|
            sink.call == call.with(#[trigger] bare_status(status, report));
        endings_of_one_more(call, bare_status(status, report));
    }
}

/// A call answered with a stream of messages that is made to fail is ended once too: nothing had
/// ended it before.
pub proof fn failed_stream_ends_once<E>(
    raw: usize,
    events: Seq<SinkEvent<E>>,
    status: StatusView,
)
    requires
        admits_all(StreamSinkView::opened(raw), events),
        apply_all(StreamSinkView::opened(raw), events).base.close_f is None,
    ensures
        endings(apply_all(StreamSinkView::opened(raw), events).failed(status).call.ops) == 1,
{
    let sink = apply_all(StreamSinkView::opened(raw), events);
    stream_status_is_sent_once(
        CallView::opened(raw),
        CallView::fresh(raw).next_batch(),
        events,
    );
    fresh_call_has_not_ended(raw);
    endings_of_one_more(sink.call, sink.status_op(status));
}

/// Whether one of the operations on the call starts this batch.
pub open spec fn starts_batch(call: CallView, batch: BatchFuture) -> bool {
    batch.index < call.ops.len() && !(call.ops[batch.index as int] is Abort)
}

/// An answer with one message, or a failure instead, waits for two different batches, and polls
/// no batch but those that have been asked for on its call: whatever the outcomes so far, the
/// next one to poll is one of them.
pub proof fn answer_polls_what_was_started<E>(
    raw: usize,
    status: StatusView,
    payload: Option<Seq<u8>>,
    outcomes: Seq<Poll<(), E>>,
)
    ensures
        ({
            let reply = ReplySinkView::opened(raw).completed(status, payload);
            &&& reply.wait.status != Some(reply.wait.close)
            &&& starts_batch(reply.call, reply.wait.run(outcomes).next_batch())
        }),
{
    let reply = ReplySinkView::opened(raw).completed(status, payload);
    run_moves_on_at_first_ready(reply.wait, outcomes);
}

/// A sink for a stream of messages that is being closed polls no batch but those that have been
/// asked for on its call, and neither does its failure.
pub proof fn stream_polls_what_was_started<E>(
    raw: usize,
    events: Seq<SinkEvent<E>>,
    status: StatusView,
    outcomes: Seq<Poll<(), E>>,
)
    requires
        admits_all(StreamSinkView::opened(raw), events),
    ensures
        ({
            let sink = apply_all(StreamSinkView::opened(raw), events);
            &&& sink.base.close_f is Some ==> {
                &&& sink.base.close_f != Some(sink.close_f)
                &&& starts_batch(sink.call, sink.wait().next_batch())
            }
            &&& sink.base.close_f is None ==> {
                &&& sink.failed(status).wait.status != Some(sink.close_f)
                &&& starts_batch(
                    sink.failed(status).call,
                    sink.failed(status).wait.run(outcomes).next_batch(),
                )
            }
        }),
{
    let close_f = CallView::fresh(raw).next_batch();
    let sink = apply_all(StreamSinkView::fresh(CallView::opened(raw), close_f), events);
    stream_status_is_sent_once(CallView::opened(raw), close_f, events);
    if sink.base.close_f is None {
        run_moves_on_at_first_ready(sink.failed(status).wait, outcomes);
    }
}

/// Once the status batch is started, nothing that happens to the sink changes the call, the
/// status or the batch.
pub proof fn closing_sink_is_settled<E>(sink: StreamSinkView, event: SinkEvent<E>)
    requires
        sink.base.close_f is Some,
        admits(sink, event),
    ensures
        apply(sink, event).call == sink.call,
        apply(sink, event).status == sink.status,
        apply(sink, event).base.close_f == sink.base.close_f,
{
}

/// A sink that is being closed awaits its two batches as an answer with one message does: a poll
/// takes it as far as it takes that, and nothing else that happens makes a difference. Once the
/// status batch has finished it is not polled again.
pub proof fn closing_sink_waits_like_an_answer<E>(sink: StreamSinkView, event: SinkEvent<E>)
    requires
        sink.base.close_f is Some,
        admits(sink, event),
    ensures
        apply(sink, event).wait() == match event {
            SinkEvent::Polled { outcome } => sink.wait().advance(outcome),
            _ => sink.wait(),
        },
        sink.flushed ==> apply(sink, event).wait().next_batch() == sink.close_f,
{
}

/// Whether the event is that the base, polled to close the sink, had sent everything.
pub open spec fn is_flush<E>(event: SinkEvent<E>) -> bool {
    event matches SinkEvent::Flushed { outcome, .. } && is_ready(outcome)
}

/// Whether the event is that the batch the sink waited for had finished.
pub open spec fn is_finish<E>(event: SinkEvent<E>) -> bool {
    event matches SinkEvent::Polled { outcome } && is_ready(outcome)
}

/// A sink sends its status only after its base has sent all messages, and its status batch counts
/// as finished only after that.
pub proof fn close_goes_in_order<E>(
    call: CallView,
    close_f: BatchFuture,
    events: Seq<SinkEvent<E>>,
)
    requires
        admits_all(StreamSinkView::fresh(call, close_f), events),
    ensures
        ({
            let sink = apply_all(StreamSinkView::fresh(call, close_f), events);
            &&& sink.base.close_f is Some ==> exists|i: int|
                0 <= i < events.len() && is_flush(#[trigger] events[i])
            &&& sink.flushed ==> exists|i: int, j: int|
                0 <= i < j < events.len() && is_flush(#[trigger] events[i]) && is_finish(
                    #[trigger] events[j],
                )
        }),
    decreases events.len(),
{
    if events.len() > 0 {
        let earlier = events.drop_last();
        close_goes_in_order(call, close_f, earlier);
        let before = apply_all(StreamSinkView::fresh(call, close_f), earlier);
        assert(events.last() == events[events.len() - 1]);
        if before.flushed {
            let (i, j) = choose|i: int, j: int|
                0 <= i < j < earlier.len() && is_flush(#[trigger] earlier[i]) && is_finish(
                    #[trigger] earlier[j],
                );
            assert(is_flush(events[i]) && is_finish(events[j]));
        }
        if before.base.close_f is Some {
            let i = choose|i: int| 0 <= i < earlier.len() && is_flush(#[trigger] earlier[i]);
            assert(is_flush(events[i]));
        } else {
            // Not even started, the status batch has not finished.
            stream_status_is_sent_once(call, close_f, earlier);
        }
    }
}

/// A sink reports that it is closed exactly when the poll of a batch finds it finished and the
/// status batch had finished before.
pub proof fn closed_when_both_batches_are<E>(sink: StreamSinkView, outcome: Poll<(), E>)
    requires
        sink.well_formed(),
        sink.base.close_f is Some,
    ensures
        sink.wait().answer(outcome) == Step::<E>::Return(Ok(Async::Ready(()))) <==> sink.flushed
            && is_ready(outcome),
{
}

/// A sink that is closed again after a round that ended unfinished goes on where it was: it wants
/// first what it wanted last.
pub proof fn close_goes_on_where_it_was<E>(sink: StreamSinkView, outcome: Poll<(), E>)
    requires
        sink.well_formed(),
        !is_ready(outcome),
    ensures
        sink.base.close_f is Some ==> sink.after_poll(outcome).close_action()
            == sink.close_action(),
        sink.base.close_f is None ==> forall|report: SinkReport|
            (#[trigger] sink.after_flush(outcome, report)).close_action() == sink.close_action(),
{
}

/// The call of a request can be taken once: after that it is gone, and all else is as before.
pub proof fn call_is_taken_once<I>(request: RequestView<I>)
    ensures
        request.without_call().call == 0,
        request.without_call().without_call() == request.without_call(),
        request.without_call() == (RequestView { call: 0, ..request }),
{
}

/// A request that a server put off until its message is there can be handled then, whatever the
/// message, and also if none comes: its handler is still found and its call still there.
pub proof fn put_off_request_can_be_handled<I, C, R>(
    request: RequestView<I>,
    server: Arc<I>,
    batch: BatchContext,
    inner: Inner<C>,
    data: Option<Seq<u8>>,
) where C: Fn(RpcContext<I>, &[u8]) -> R
    requires
        request.has_handler(inner),
        request.call != 0,
        forall|payload: Seq<u8>| #[trigger]
            can_serve(request.handler(inner).callback(), RpcView::of(request), payload),
    ensures
        can_be_handled(UnaryRequestView::fresh(request, server, batch), inner, data),
{
}

/// The stream of requests and the sink that a handler is given belong to the same call.
pub proof fn stream_and_sink_share_the_call<D>(raw: usize, close_f: BatchFuture, de: D)
    ensures
        RequestStreamView::fresh(raw, de).call == ReplySinkView::fresh(
            CallView::opened(raw),
            close_f,
        ).call.raw,
        RequestStreamView::fresh(raw, de).call == StreamSinkView::fresh(
            CallView::opened(raw),
            close_f,
        ).call.raw,
{
}

} // verus!
