//! What becomes of a response that is a stream of messages, by the operations of its sink.
use vstd::prelude::*;

use crate::call::Call;
use crate::call::CallOpView;
use crate::poll::Async;
use crate::poll::AsyncSink;
use crate::poll::BatchFuture;
use crate::poll::Poll;
use crate::poll::Step;
use crate::status::RpcStatus;
use crate::stream_sink::CloseAction;
use crate::stream_sink::DuplexSink;
use crate::stream_sink::DuplexSinkFailure;
use crate::stream_sink::ServerStreamingSink;
use crate::stream_sink::ServerStreamingSinkFailure;
use crate::stream_sink::SinkBase;
use crate::stream_sink::SinkReport;
use crate::stream_sink::StreamSinkView;

verus! {

/// The base of a sink has what it was made with, and no status batch.
pub proof fn sink_base_is_what_it_was_made_of(flags: u32, send_metadata: bool, base: SinkBase)
    requires
        call_ensures(SinkBase::new, (flags, send_metadata), base),
    ensures
        base.report.flags == flags,
        base.report.send_metadata == send_metadata,
        base.close_f is None,
{
}

/// The states of a sink over its polls: its status batch counts as finished from the first poll on
/// that found it so.
proof fn states_follow_the_polls<E>(
    states: Seq<StreamSinkView>,
    outcomes: Seq<Poll<(), E>>,
    n: int,
)
    requires
        0 <= n <= outcomes.len(),
        states.len() == outcomes.len() + 1,
        !states[0].flushed,
        states[0].base.close_f is Some,
        forall|i: int|
            0 <= i < outcomes.len() && states[i].base.close_f is Some ==> {
                &&& states[i + 1].base == states[i].base
                &&& states[i + 1].close_f == states[i].close_f
                &&& states[i + 1].call == states[i].call
                &&& states[i + 1].flushed == (states[i].flushed || (
                #[trigger] outcomes[i] matches Ok(Async::Ready(_))))
            },
    ensures
        states[n].base.close_f is Some,
        states[n].close_f == states[0].close_f,
        states[n].call == states[0].call,
        states[n].flushed <==> exists|i: int|
            0 <= i < n && (#[trigger] outcomes[i] matches Ok(Async::Ready(_))),
    decreases n,
{
    if n > 0 {
        states_follow_the_polls(states, outcomes, n - 1);
        assert((outcomes[n - 1] matches Ok(Async::Ready(_))) ==> states[n].flushed);
    }
}

/// A new server streaming sink has sent nothing and closes with OK, unless told otherwise.
pub proof fn new_server_streaming_sink<S>(
    call: Call,
    close_f: BatchFuture,
    ser: S,
    sink: ServerStreamingSink<S>,
)
    requires
        call_ensures(ServerStreamingSink::<S>::new, (call, close_f, ser), sink),
    ensures
        sink@.call == call@,
        sink@.close_f == close_f,
        sink@.base.report.flags == 0,
        sink@.base.report.send_metadata,
        sink@.base.close_f is None,
        sink@.status.status is OK,
        sink@.status.details is None,
        !sink@.flushed,
        sink.serializer() == ser,
{
}

/// A server streaming sink whose status batch has not been started can be given a status, fail or
/// be flushed, and one whose status batch has been started can be polled.
pub proof fn server_streaming_sink_asks_only_for_its_state<S, E>()
    ensures
        forall|sink: &mut ServerStreamingSink<S>, status: RpcStatus|
            sink@.base.close_f is None ==> #[trigger] call_requires(
                ServerStreamingSink::<S>::set_status,
                (sink, status),
            ),
        forall|sink: ServerStreamingSink<S>, status: RpcStatus|
            sink@.base.close_f is None ==> #[trigger] call_requires(
                ServerStreamingSink::<S>::fail,
                (sink, status),
            ),
        forall|sink: &mut ServerStreamingSink<S>, outcome: Poll<(), E>, report: SinkReport|
            sink@.base.close_f is None ==> #[trigger] call_requires(
                ServerStreamingSink::<S>::resume_flush::<E>,
                (sink, outcome, report),
            ),
        forall|sink: &mut ServerStreamingSink<S>, outcome: Poll<(), E>|
            sink@.base.close_f is Some ==> #[trigger] call_requires(
                ServerStreamingSink::<S>::resume_poll::<E>,
                (sink, outcome),
            ),
{
}

/// What a server streaming sink says of itself is how it is.
pub proof fn server_streaming_sink_shows_its_state<S>(
    sink: &ServerStreamingSink<S>,
    call: &Call,
    ser: &S,
    report: SinkReport,
    closing: bool,
)
    requires
        call_ensures(ServerStreamingSink::<S>::call, (sink,), call),
        call_ensures(ServerStreamingSink::<S>::ser, (sink,), ser),
        call_ensures(ServerStreamingSink::<S>::report, (sink,), report),
        call_ensures(ServerStreamingSink::<S>::is_closing, (sink,), closing),
    ensures
        call@ == sink@.call,
        *ser == sink.serializer(),
        report.flags == sink@.base.report.flags,
        report.send_metadata == sink@.base.report.send_metadata,
        closing <==> sink@.base.close_f is Some,
{
}

/// To set the status of a server streaming sink changes that and nothing else.
pub proof fn server_streaming_status_is_the_one_set<S>()
    ensures
        forall|sink: &mut ServerStreamingSink<S>, status: RpcStatus| #[trigger]
            call_ensures(ServerStreamingSink::<S>::set_status, (sink, status), ()) ==> {
                &&& final(sink)@.status.status == status.status
                &&& final(sink)@.status.details is Some <==> status.details is Some
                &&& status.details matches Some(text) ==> final(sink)@.status.details->0 == text@
                &&& final(sink)@.call == sink@.call
                &&& final(sink)@.base == sink@.base
                &&& final(sink)@.close_f == sink@.close_f
                &&& final(sink)@.flushed == sink@.flushed
                &&& final(sink).serializer() == sink.serializer()
            },
{
}

/// A server streaming sink that is made to fail asks for one thing more on its call: that the
/// status it was given be sent, whatever status was set before, without a message, and in the way
/// its base reported last. The failure waits for that, and for the end of the call.
pub proof fn server_streaming_failure_sends_the_given_status<S>(
    sink: ServerStreamingSink<S>,
    status: RpcStatus,
    failure: ServerStreamingSinkFailure,
)
    requires
        call_ensures(ServerStreamingSink::<S>::fail, (sink, status), failure),
    ensures
        failure@.call.raw == sink@.call.raw,
        failure@.call.ops.len() == sink@.call.ops.len() + 1,
        forall|i: int|
            0 <= i < sink@.call.ops.len() ==> #[trigger] failure@.call.ops[i] == sink@.call.ops[i],
        failure@.call.ops.last() is SendStatus,
        failure@.call.ops.last()->SendStatus_status.status == status.status,
        failure@.call.ops.last()->SendStatus_status.details is Some <==> status.details is Some,
        status.details matches Some(text) ==> failure@.call.ops.last()->SendStatus_status.details->0
            == text@,
        failure@.call.ops.last()->payload is None,
        failure@.call.ops.last()->send_metadata == sink@.base.report.send_metadata,
        failure@.call.ops.last()->flags == sink@.base.report.flags,
        failure@.wait.status == Some(BatchFuture { index: sink@.call.ops.len() as usize }),
        failure@.wait.close == sink@.close_f,
{
}

/// A server streaming sink takes an item exactly if its base does, hands it back exactly if its
/// base has no room, and passes an error of its base on. Of its state only the report changes.
pub proof fn server_streaming_item_goes_to_the_base<S, T, E>()
    ensures
        forall|
            sink: &mut ServerStreamingSink<S>,
            item: T,
            accepted: Result<bool, E>,
            report: SinkReport,
            r: Result<AsyncSink<T>, E>,
        | #[trigger]
            call_ensures(
                ServerStreamingSink::<S>::start_send::<T, E>,
                (sink, item, accepted, report),
                r,
            ) ==> {
                &&& r == Ok::<AsyncSink<T>, E>(AsyncSink::Ready) <==> accepted == Ok::<bool, E>(
                    true,
                )
                &&& r == Ok::<AsyncSink<T>, E>(AsyncSink::NotReady(item)) <==> accepted == Ok::<
                    bool,
                    E,
                >(false)
                &&& r is Err <==> accepted is Err
                &&& accepted matches Err(e) ==> r == Err::<AsyncSink<T>, E>(e)
                &&& final(sink)@.base.report == report
                &&& final(sink)@.base.close_f == sink@.base.close_f
                &&& final(sink)@.call == sink@.call
                &&& final(sink)@.close_f == sink@.close_f
                &&& final(sink)@.status == sink@.status
                &&& final(sink)@.flushed == sink@.flushed
                &&& final(sink).serializer() == sink.serializer()
            },
{
}

/// A server streaming sink is flushed when its base is. Of its state only the report changes.
pub proof fn server_streaming_flush_is_that_of_the_base<S, E>()
    ensures
        forall|
            sink: &mut ServerStreamingSink<S>,
            outcome: Poll<(), E>,
            report: SinkReport,
            r: Poll<(), E>,
        | #[trigger]
            call_ensures(
                ServerStreamingSink::<S>::poll_complete::<E>,
                (sink, outcome, report),
                r,
            ) ==> {
                &&& r == outcome
                &&& final(sink)@.base.report == report
                &&& final(sink)@.base.close_f == sink@.base.close_f
                &&& final(sink)@.call == sink@.call
                &&& final(sink)@.close_f == sink@.close_f
                &&& final(sink)@.status == sink@.status
                &&& final(sink)@.flushed == sink@.flushed
                &&& final(sink).serializer() == sink.serializer()
            },
{
}

/// To close a server streaming sink, its base is flushed first, until the status batch has been
/// started; that batch is polled until it has finished, and then the one that ends with the call.
pub proof fn server_streaming_close_begins_where_it_stopped<S>(
    sink: &ServerStreamingSink<S>,
    action: CloseAction,
)
    requires
        call_ensures(ServerStreamingSink::<S>::close, (sink,), action),
    ensures
        action is Flush <==> sink@.base.close_f is None,
        sink@.base.close_f matches Some(batch) ==> action == CloseAction::Poll(
            if sink@.flushed {
                sink@.close_f
            } else {
                batch
            },
        ),
{
}

/// A server streaming sink is not closed by a flush. Once everything is flushed, one thing more is
/// asked for on the call: that the sink's own status be sent, without a message, and in the way the
/// base has just reported; and the batch that sends it is polled next. A flush that is not ready,
/// or fails, ends the round with that, and nothing is asked for.
pub proof fn server_streaming_flush_goes_on_to_the_status<S, E>()
    ensures
        forall|
            sink: &mut ServerStreamingSink<S>,
            outcome: Poll<(), E>,
            report: SinkReport,
            step: Step<E>,
        | #[trigger]
            call_ensures(
                ServerStreamingSink::<S>::resume_flush::<E>,
                (sink, outcome, report),
                step,
            ) ==> {
                &&& final(sink)@.base.report == report
                &&& final(sink)@.call.raw == sink@.call.raw
                &&& final(sink)@.close_f == sink@.close_f
                &&& final(sink)@.status == sink@.status
                &&& final(sink)@.flushed == sink@.flushed
                &&& final(sink).serializer() == sink.serializer()
                &&& (outcome matches Ok(Async::Ready(_))) ==> {
                    &&& step == Step::<E>::Poll(
                        BatchFuture { index: sink@.call.ops.len() as usize },
                    )
                    &&& final(sink)@.base.close_f == Some(step->Poll_0)
                    &&& final(sink)@.call.ops == sink@.call.ops.push(
                        CallOpView::SendStatus {
                            status: sink@.status,
                            send_metadata: report.send_metadata,
                            payload: None,
                            flags: report.flags,
                        },
                    )
                }
                &&& !(outcome matches Ok(Async::Ready(_))) ==> {
                    &&& step == Step::<E>::Return(outcome)
                    &&& final(sink)@.base.close_f == sink@.base.close_f
                    &&& final(sink)@.call.ops == sink@.call.ops
                }
            },
{
}

/// A server streaming sink whose status is on its way goes on to the end of the call when the
/// status batch has finished, and is closed when the call is over too. A poll that is not ready, or
/// fails, ends the round with that and changes nothing.
pub proof fn server_streaming_status_goes_on_to_the_end<S, E>()
    ensures
        forall|sink: &mut ServerStreamingSink<S>, outcome: Poll<(), E>, step: Step<E>| #[trigger]
            call_ensures(ServerStreamingSink::<S>::resume_poll::<E>, (sink, outcome), step)
                && sink@.base.close_f is Some ==> {
                &&& final(sink)@.call == sink@.call
                &&& final(sink)@.base == sink@.base
                &&& final(sink)@.close_f == sink@.close_f
                &&& final(sink)@.status == sink@.status
                &&& final(sink).serializer() == sink.serializer()
                &&& (outcome matches Ok(Async::Ready(_))) ==> {
                    &&& final(sink)@.flushed
                    &&& step == if sink@.flushed {
                        Step::<E>::Return(Ok(Async::Ready(())))
                    } else {
                        Step::<E>::Poll(sink@.close_f)
                    }
                }
                &&& !(outcome matches Ok(Async::Ready(_))) ==> {
                    &&& final(sink)@.flushed == sink@.flushed
                    &&& step == Step::<E>::Return(outcome)
                }
            },
{
}

/// From the flush to the end, a server streaming sink reports that it is closed only after a ready
/// outcome of the batch that sends the status and then one of the batch that ends with the call,
/// and then it does. An error of either is reported as it is.
pub proof fn server_streaming_close_awaits_both_batches<S, E>()
    ensures
        forall|
            flushing: &mut ServerStreamingSink<S>,
            report: SinkReport,
            after_flush: Step<E>,
            sending: &mut ServerStreamingSink<S>,
            sent: Poll<(), E>,
            after_status: Step<E>,
            ending: &mut ServerStreamingSink<S>,
            ended: Poll<(), E>,
            after_end: Step<E>,
        |
            {
                &&& !flushing@.flushed
                &&& #[trigger] call_ensures(
                    ServerStreamingSink::<S>::resume_flush::<E>,
                    (flushing, Ok(Async::Ready(())), report),
                    after_flush,
                )
                &&& sending@ == final(flushing)@
                &&& #[trigger] call_ensures(
                    ServerStreamingSink::<S>::resume_poll::<E>,
                    (sending, sent),
                    after_status,
                )
                &&& ending@ == final(sending)@
                &&& #[trigger] call_ensures(
                    ServerStreamingSink::<S>::resume_poll::<E>,
                    (ending, ended),
                    after_end,
                )
            } ==> {
                &&& after_flush == Step::<E>::Poll(
                    BatchFuture { index: flushing@.call.ops.len() as usize },
                )
                &&& (sent matches Ok(Async::Ready(_))) ==> {
                    &&& after_status == Step::<E>::Poll(flushing@.close_f)
                    &&& !(after_end is Poll)
                    &&& (ended matches Ok(Async::Ready(_))) <==> after_end == Step::<E>::Return(
                        Ok(Async::Ready(())),
                    )
                    &&& !(ended matches Ok(Async::Ready(_))) ==> after_end == Step::<E>::Return(
                        ended,
                    )
                }
                &&& !(sent matches Ok(Async::Ready(_))) ==> {
                    &&& after_status == Step::<E>::Return(sent)
                    &&& after_end != Step::<E>::Return(Ok(Async::Ready(())))
                }
            },
{
}

/// Over however many rounds, a server streaming sink whose status is on its way reports that it is
/// closed exactly when a poll finds its batch finished and an earlier one had found its own
/// finished; and the batch that ends with the call is the only one it goes on to.
pub proof fn server_streaming_close_takes_two_finished_batches<S, E>(
    states: Seq<StreamSinkView>,
    outcomes: Seq<Poll<(), E>>,
    steps: Seq<Step<E>>,
)
    requires
        outcomes.len() > 0,
        steps.len() == outcomes.len(),
        states.len() == outcomes.len() + 1,
        !states[0].flushed,
        states[0].base.close_f is Some,
        forall|i: int|
            0 <= i < outcomes.len() ==> exists|sink: &mut ServerStreamingSink<S>|
                {
                    &&& sink@ == states[i]
                    &&& final(sink)@ == states[i + 1]
                    &&& #[trigger] call_ensures(
                        ServerStreamingSink::<S>::resume_poll::<E>,
                        (sink, #[trigger] outcomes[i]),
                        steps[i],
                    )
                },
    ensures
        steps.last() == Step::<E>::Return(Ok(Async::Ready(()))) <==> {
            &&& outcomes.last() matches Ok(Async::Ready(_))
            &&& exists|i: int|
                0 <= i < outcomes.len() - 1 && (#[trigger] outcomes[i] matches Ok(
                    Async::Ready(_),
                ))
        },
        steps.last() matches Step::Poll(batch) ==> batch == states[0].close_f,
        states.last().call == states[0].call,
{
    server_streaming_status_goes_on_to_the_end::<S, E>();
    assert forall|i: int| 0 <= i < outcomes.len() && states[i].base.close_f is Some implies {
        &&& states[i + 1].base == states[i].base
        &&& states[i + 1].close_f == states[i].close_f
        &&& states[i + 1].call == states[i].call
        &&& states[i + 1].flushed == (states[i].flushed || (#[trigger] outcomes[i] matches Ok(
            Async::Ready(_),
        )))
    } by {}
    states_follow_the_polls(states, outcomes, outcomes.len() - 1);
    let last = outcomes.len() - 1;
    assert(outcomes.last() == outcomes[last] && steps.last() == steps[last]);
}

/// The failure of a server streaming call polls the batch that sends the status until that has
/// finished, and then the one that ends with the call.
pub proof fn server_streaming_failure_begins_where_it_stopped(
    r: &ServerStreamingSinkFailure,
    call: &Call,
    batch: BatchFuture,
)
    requires
        call_ensures(ServerStreamingSinkFailure::call, (r,), call),
        call_ensures(ServerStreamingSinkFailure::poll, (r,), batch),
    ensures
        call@ == r@.call,
        r@.wait.status matches Some(status) ==> batch == status,
        r@.wait.status is None ==> batch == r@.wait.close,
{
}

/// The failure of a server streaming call goes on to the end of the call when the status batch has
/// finished, and is complete when the call is over too. A poll that is not ready, or fails, ends
/// the round with that and changes nothing. Nothing more is asked for on the call.
pub proof fn server_streaming_failure_awaits_both_batches<E>()
    ensures
        forall|r: &mut ServerStreamingSinkFailure, outcome: Poll<(), E>, step: Step<E>| #[trigger]
            call_ensures(ServerStreamingSinkFailure::resume::<E>, (r, outcome), step) ==> {
                &&& final(r)@.call == r@.call
                &&& final(r)@.wait.close == r@.wait.close
                &&& (outcome matches Ok(Async::Ready(_))) ==> {
                    &&& final(r)@.wait.status is None
                    &&& step == if r@.wait.status is Some {
                        Step::<E>::Poll(r@.wait.close)
                    } else {
                        Step::<E>::Return(Ok(Async::Ready(())))
                    }
                }
                &&& !(outcome matches Ok(Async::Ready(_))) ==> {
                    &&& final(r)@.wait.status == r@.wait.status
                    &&& step == Step::<E>::Return(outcome)
                }
            },
{
}

/// A new duplex sink has sent nothing and closes with OK, unless told otherwise.
pub proof fn new_duplex_sink<S>(
    call: Call,
    close_f: BatchFuture,
    ser: S,
    sink: DuplexSink<S>,
)
    requires
        call_ensures(DuplexSink::<S>::new, (call, close_f, ser), sink),
    ensures
        sink@.call == call@,
        sink@.close_f == close_f,
        sink@.base.report.flags == 0,
        sink@.base.report.send_metadata,
        sink@.base.close_f is None,
        sink@.status.status is OK,
        sink@.status.details is None,
        !sink@.flushed,
        sink.serializer() == ser,
{
}

/// A duplex sink whose status batch has not been started can be given a status, fail or be flushed,
/// and one whose status batch has been started can be polled.
pub proof fn duplex_sink_asks_only_for_its_state<S, E>()
    ensures
        forall|sink: &mut DuplexSink<S>, status: RpcStatus|
            sink@.base.close_f is None ==> #[trigger] call_requires(
                DuplexSink::<S>::set_status,
                (sink, status),
            ),
        forall|sink: DuplexSink<S>, status: RpcStatus|
            sink@.base.close_f is None ==> #[trigger] call_requires(
                DuplexSink::<S>::fail,
                (sink, status),
            ),
        forall|sink: &mut DuplexSink<S>, outcome: Poll<(), E>, report: SinkReport|
            sink@.base.close_f is None ==> #[trigger] call_requires(
                DuplexSink::<S>::resume_flush::<E>,
                (sink, outcome, report),
            ),
        forall|sink: &mut DuplexSink<S>, outcome: Poll<(), E>|
            sink@.base.close_f is Some ==> #[trigger] call_requires(
                DuplexSink::<S>::resume_poll::<E>,
                (sink, outcome),
            ),
{
}

/// What a duplex sink says of itself is how it is.
pub proof fn duplex_sink_shows_its_state<S>(
    sink: &DuplexSink<S>,
    call: &Call,
    ser: &S,
    report: SinkReport,
    closing: bool,
)
    requires
        call_ensures(DuplexSink::<S>::call, (sink,), call),
        call_ensures(DuplexSink::<S>::ser, (sink,), ser),
        call_ensures(DuplexSink::<S>::report, (sink,), report),
        call_ensures(DuplexSink::<S>::is_closing, (sink,), closing),
    ensures
        call@ == sink@.call,
        *ser == sink.serializer(),
        report.flags == sink@.base.report.flags,
        report.send_metadata == sink@.base.report.send_metadata,
        closing <==> sink@.base.close_f is Some,
{
}

/// To set the status of a duplex sink changes that and nothing else.
pub proof fn duplex_status_is_the_one_set<S>()
    ensures
        forall|sink: &mut DuplexSink<S>, status: RpcStatus| #[trigger]
            call_ensures(DuplexSink::<S>::set_status, (sink, status), ()) ==> {
                &&& final(sink)@.status.status == status.status
                &&& final(sink)@.status.details is Some <==> status.details is Some
                &&& status.details matches Some(text) ==> final(sink)@.status.details->0 == text@
                &&& final(sink)@.call == sink@.call
                &&& final(sink)@.base == sink@.base
                &&& final(sink)@.close_f == sink@.close_f
                &&& final(sink)@.flushed == sink@.flushed
                &&& final(sink).serializer() == sink.serializer()
            },
{
}

/// A duplex sink that is made to fail asks for one thing more on its call: that the status it was
/// given be sent, whatever status was set before, without a message, and in the way its base
/// reported last. The failure waits for that, and for the end of the call.
pub proof fn duplex_failure_sends_the_given_status<S>(
    sink: DuplexSink<S>,
    status: RpcStatus,
    failure: DuplexSinkFailure,
)
    requires
        call_ensures(DuplexSink::<S>::fail, (sink, status), failure),
    ensures
        failure@.call.raw == sink@.call.raw,
        failure@.call.ops.len() == sink@.call.ops.len() + 1,
        forall|i: int|
            0 <= i < sink@.call.ops.len() ==> #[trigger] failure@.call.ops[i] == sink@.call.ops[i],
        failure@.call.ops.last() is SendStatus,
        failure@.call.ops.last()->SendStatus_status.status == status.status,
        failure@.call.ops.last()->SendStatus_status.details is Some <==> status.details is Some,
        status.details matches Some(text) ==> failure@.call.ops.last()->SendStatus_status.details->0
            == text@,
        failure@.call.ops.last()->payload is None,
        failure@.call.ops.last()->send_metadata == sink@.base.report.send_metadata,
        failure@.call.ops.last()->flags == sink@.base.report.flags,
        failure@.wait.status == Some(BatchFuture { index: sink@.call.ops.len() as usize }),
        failure@.wait.close == sink@.close_f,
{
}

/// A duplex sink takes an item exactly if its base does, hands it back exactly if its base has no
/// room, and passes an error of its base on. Of its state only the report changes.
pub proof fn duplex_item_goes_to_the_base<S, T, E>()
    ensures
        forall|
            sink: &mut DuplexSink<S>,
            item: T,
            accepted: Result<bool, E>,
            report: SinkReport,
            r: Result<AsyncSink<T>, E>,
        | #[trigger]
            call_ensures(
                DuplexSink::<S>::start_send::<T, E>,
                (sink, item, accepted, report),
                r,
            ) ==> {
                &&& r == Ok::<AsyncSink<T>, E>(AsyncSink::Ready) <==> accepted == Ok::<bool, E>(
                    true,
                )
                &&& r == Ok::<AsyncSink<T>, E>(AsyncSink::NotReady(item)) <==> accepted == Ok::<
                    bool,
                    E,
                >(false)
                &&& r is Err <==> accepted is Err
                &&& accepted matches Err(e) ==> r == Err::<AsyncSink<T>, E>(e)
                &&& final(sink)@.base.report == report
                &&& final(sink)@.base.close_f == sink@.base.close_f
                &&& final(sink)@.call == sink@.call
                &&& final(sink)@.close_f == sink@.close_f
                &&& final(sink)@.status == sink@.status
                &&& final(sink)@.flushed == sink@.flushed
                &&& final(sink).serializer() == sink.serializer()
            },
{
}

/// A duplex sink is flushed when its base is. Of its state only the report changes.
pub proof fn duplex_flush_is_that_of_the_base<S, E>()
    ensures
        forall|
            sink: &mut DuplexSink<S>,
            outcome: Poll<(), E>,
            report: SinkReport,
            r: Poll<(), E>,
        | #[trigger]
            call_ensures(
                DuplexSink::<S>::poll_complete::<E>,
                (sink, outcome, report),
                r,
            ) ==> {
                &&& r == outcome
                &&& final(sink)@.base.report == report
                &&& final(sink)@.base.close_f == sink@.base.close_f
                &&& final(sink)@.call == sink@.call
                &&& final(sink)@.close_f == sink@.close_f
                &&& final(sink)@.status == sink@.status
                &&& final(sink)@.flushed == sink@.flushed
                &&& final(sink).serializer() == sink.serializer()
            },
{
}

/// To close a duplex sink, its base is flushed first, until the status batch has been started; that
/// batch is polled until it has finished, and then the one that ends with the call.
pub proof fn duplex_close_begins_where_it_stopped<S>(
    sink: &DuplexSink<S>,
    action: CloseAction,
)
    requires
        call_ensures(DuplexSink::<S>::close, (sink,), action),
    ensures
        action is Flush <==> sink@.base.close_f is None,
        sink@.base.close_f matches Some(batch) ==> action == CloseAction::Poll(
            if sink@.flushed {
                sink@.close_f
            } else {
                batch
            },
        ),
{
}

/// A duplex sink is not closed by a flush. Once everything is flushed, one thing more is asked for
/// on the call: that the sink's own status be sent, without a message, and in the way the base has
/// just reported; and the batch that sends it is polled next. A flush that is not ready, or fails,
/// ends the round with that, and nothing is asked for.
pub proof fn duplex_flush_goes_on_to_the_status<S, E>()
    ensures
        forall|
            sink: &mut DuplexSink<S>,
            outcome: Poll<(), E>,
            report: SinkReport,
            step: Step<E>,
        | #[trigger]
            call_ensures(
                DuplexSink::<S>::resume_flush::<E>,
                (sink, outcome, report),
                step,
            ) ==> {
                &&& final(sink)@.base.report == report
                &&& final(sink)@.call.raw == sink@.call.raw
                &&& final(sink)@.close_f == sink@.close_f
                &&& final(sink)@.status == sink@.status
                &&& final(sink)@.flushed == sink@.flushed
                &&& final(sink).serializer() == sink.serializer()
                &&& (outcome matches Ok(Async::Ready(_))) ==> {
                    &&& step == Step::<E>::Poll(
                        BatchFuture { index: sink@.call.ops.len() as usize },
                    )
                    &&& final(sink)@.base.close_f == Some(step->Poll_0)
                    &&& final(sink)@.call.ops == sink@.call.ops.push(
                        CallOpView::SendStatus {
                            status: sink@.status,
                            send_metadata: report.send_metadata,
                            payload: None,
                            flags: report.flags,
                        },
                    )
                }
                &&& !(outcome matches Ok(Async::Ready(_))) ==> {
                    &&& step == Step::<E>::Return(outcome)
                    &&& final(sink)@.base.close_f == sink@.base.close_f
                    &&& final(sink)@.call.ops == sink@.call.ops
                }
            },
{
}

/// A duplex sink whose status is on its way goes on to the end of the call when the status batch
/// has finished, and is closed when the call is over too. A poll that is not ready, or fails, ends
/// the round with that and changes nothing.
pub proof fn duplex_status_goes_on_to_the_end<S, E>()
    ensures
        forall|sink: &mut DuplexSink<S>, outcome: Poll<(), E>, step: Step<E>| #[trigger]
            call_ensures(DuplexSink::<S>::resume_poll::<E>, (sink, outcome), step)
                && sink@.base.close_f is Some ==> {
                &&& final(sink)@.call == sink@.call
                &&& final(sink)@.base == sink@.base
                &&& final(sink)@.close_f == sink@.close_f
                &&& final(sink)@.status == sink@.status
                &&& final(sink).serializer() == sink.serializer()
                &&& (outcome matches Ok(Async::Ready(_))) ==> {
                    &&& final(sink)@.flushed
                    &&& step == if sink@.flushed {
                        Step::<E>::Return(Ok(Async::Ready(())))
                    } else {
                        Step::<E>::Poll(sink@.close_f)
                    }
                }
                &&& !(outcome matches Ok(Async::Ready(_))) ==> {
                    &&& final(sink)@.flushed == sink@.flushed
                    &&& step == Step::<E>::Return(outcome)
                }
            },
{
}

/// From the flush to the end, a duplex sink reports that it is closed only after a ready outcome of
/// the batch that sends the status and then one of the batch that ends with the call, and then it
/// does. An error of either is reported as it is.
pub proof fn duplex_close_awaits_both_batches<S, E>()
    ensures
        forall|
            flushing: &mut DuplexSink<S>,
            report: SinkReport,
            after_flush: Step<E>,
            sending: &mut DuplexSink<S>,
            sent: Poll<(), E>,
            after_status: Step<E>,
            ending: &mut DuplexSink<S>,
            ended: Poll<(), E>,
            after_end: Step<E>,
        |
            {
                &&& !flushing@.flushed
                &&& #[trigger] call_ensures(
                    DuplexSink::<S>::resume_flush::<E>,
                    (flushing, Ok(Async::Ready(())), report),
                    after_flush,
                )
                &&& sending@ == final(flushing)@
                &&& #[trigger] call_ensures(
                    DuplexSink::<S>::resume_poll::<E>,
                    (sending, sent),
                    after_status,
                )
                &&& ending@ == final(sending)@
                &&& #[trigger] call_ensures(
                    DuplexSink::<S>::resume_poll::<E>,
                    (ending, ended),
                    after_end,
                )
            } ==> {
                &&& after_flush == Step::<E>::Poll(
                    BatchFuture { index: flushing@.call.ops.len() as usize },
                )
                &&& (sent matches Ok(Async::Ready(_))) ==> {
                    &&& after_status == Step::<E>::Poll(flushing@.close_f)
                    &&& !(after_end is Poll)
                    &&& (ended matches Ok(Async::Ready(_))) <==> after_end == Step::<E>::Return(
                        Ok(Async::Ready(())),
                    )
                    &&& !(ended matches Ok(Async::Ready(_))) ==> after_end == Step::<E>::Return(
                        ended,
                    )
                }
                &&& !(sent matches Ok(Async::Ready(_))) ==> {
                    &&& after_status == Step::<E>::Return(sent)
                    &&& after_end != Step::<E>::Return(Ok(Async::Ready(())))
                }
            },
{
}

/// Over however many rounds, a duplex sink whose status is on its way reports that it is closed
/// exactly when a poll finds its batch finished and an earlier one had found its own finished; and
/// the batch that ends with the call is the only one it goes on to.
pub proof fn duplex_close_takes_two_finished_batches<S, E>(
    states: Seq<StreamSinkView>,
    outcomes: Seq<Poll<(), E>>,
    steps: Seq<Step<E>>,
)
    requires
        outcomes.len() > 0,
        steps.len() == outcomes.len(),
        states.len() == outcomes.len() + 1,
        !states[0].flushed,
        states[0].base.close_f is Some,
        forall|i: int|
            0 <= i < outcomes.len() ==> exists|sink: &mut DuplexSink<S>|
                {
                    &&& sink@ == states[i]
                    &&& final(sink)@ == states[i + 1]
                    &&& #[trigger] call_ensures(
                        DuplexSink::<S>::resume_poll::<E>,
                        (sink, #[trigger] outcomes[i]),
                        steps[i],
                    )
                },
    ensures
        steps.last() == Step::<E>::Return(Ok(Async::Ready(()))) <==> {
            &&& outcomes.last() matches Ok(Async::Ready(_))
            &&& exists|i: int|
                0 <= i < outcomes.len() - 1 && (#[trigger] outcomes[i] matches Ok(
                    Async::Ready(_),
                ))
        },
        steps.last() matches Step::Poll(batch) ==> batch == states[0].close_f,
        states.last().call == states[0].call,
{
    duplex_status_goes_on_to_the_end::<S, E>();
    assert forall|i: int| 0 <= i < outcomes.len() && states[i].base.close_f is Some implies {
        &&& states[i + 1].base == states[i].base
        &&& states[i + 1].close_f == states[i].close_f
        &&& states[i + 1].call == states[i].call
        &&& states[i + 1].flushed == (states[i].flushed || (#[trigger] outcomes[i] matches Ok(
            Async::Ready(_),
        )))
    } by {}
    states_follow_the_polls(states, outcomes, outcomes.len() - 1);
    let last = outcomes.len() - 1;
    assert(outcomes.last() == outcomes[last] && steps.last() == steps[last]);
}

/// The failure of a duplex call polls the batch that sends the status until that has finished, and
/// then the one that ends with the call.
pub proof fn duplex_failure_begins_where_it_stopped(
    r: &DuplexSinkFailure,
    call: &Call,
    batch: BatchFuture,
)
    requires
        call_ensures(DuplexSinkFailure::call, (r,), call),
        call_ensures(DuplexSinkFailure::poll, (r,), batch),
    ensures
        call@ == r@.call,
        r@.wait.status matches Some(status) ==> batch == status,
        r@.wait.status is None ==> batch == r@.wait.close,
{
}

/// The failure of a duplex call goes on to the end of the call when the status batch has finished,
/// and is complete when the call is over too. A poll that is not ready, or fails, ends the round
/// with that and changes nothing. Nothing more is asked for on the call.
pub proof fn duplex_failure_awaits_both_batches<E>()
    ensures
        forall|r: &mut DuplexSinkFailure, outcome: Poll<(), E>, step: Step<E>| #[trigger]
            call_ensures(DuplexSinkFailure::resume::<E>, (r, outcome), step) ==> {
                &&& final(r)@.call == r@.call
                &&& final(r)@.wait.close == r@.wait.close
                &&& (outcome matches Ok(Async::Ready(_))) ==> {
                    &&& final(r)@.wait.status is None
                    &&& step == if r@.wait.status is Some {
                        Step::<E>::Poll(r@.wait.close)
                    } else {
                        Step::<E>::Return(Ok(Async::Ready(())))
                    }
                }
                &&& !(outcome matches Ok(Async::Ready(_))) ==> {
                    &&& final(r)@.wait.status == r@.wait.status
                    &&& step == Step::<E>::Return(outcome)
                }
            },
{
}

} // verus!
