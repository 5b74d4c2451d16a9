//! What is written down on a call, and the statuses it can end with.
use vstd::prelude::*;

use crate::call::Call;
use crate::call::CallOp;
use crate::call::CallOpView;
use crate::poll::BatchFuture;
use crate::status::RpcStatus;
use crate::status::RpcStatusCode;

verus! {

/// A call starts with nothing asked for on it, and keeps its address.
pub proof fn new_call_has_no_operations(raw: usize, call: Call, shown: usize, ops: &[CallOp])
    requires
        call_ensures(Call::from_raw, (raw,), call),
        call_ensures(Call::raw, (&call,), shown),
        call_ensures(Call::ops, (&call,), ops),
    ensures
        call@.raw == raw,
        shown == raw,
        call@.ops.len() == 0,
        ops@.len() == 0,
{
    assert(ops@.map_values(|op: CallOp| op@).len() == ops@.len());
}

/// What is asked for on a call comes after all that was asked for before, and leaves it in place.
/// The batch that is started is named by its position.
pub proof fn operation_is_written_at_the_end()
    ensures
        forall|call: &mut Call, batch: BatchFuture| #[trigger]
            call_ensures(Call::start_server_side, (call,), batch) ==> {
                &&& final(call)@.raw == call@.raw
                &&& final(call)@.ops == call@.ops.push(CallOpView::StartServerSide)
                &&& batch.index == call@.ops.len()
            },
        forall|
            call: &mut Call,
            status: &RpcStatus,
            send_metadata: bool,
            payload: Option<Vec<u8>>,
            flags: u32,
            batch: BatchFuture,
        | #[trigger]
            call_ensures(
                Call::start_send_status_from_server,
                (call, status, send_metadata, payload, flags),
                batch,
            ) ==> {
                &&& final(call)@.raw == call@.raw
                &&& final(call)@.ops == call@.ops.push(
                    CallOpView::SendStatus {
                        status: status@,
                        send_metadata,
                        payload: match payload {
                            Some(bytes) => Some(bytes@),
                            None => None,
                        },
                        flags,
                    },
                )
                &&& batch.index == call@.ops.len()
            },
        forall|call: Call, status: RpcStatus, aborted: Call| #[trigger]
            call_ensures(Call::abort, (call, status), aborted) ==> {
                &&& aborted@.raw == call@.raw
                &&& aborted@.ops == call@.ops.push(CallOpView::Abort { status: status@ })
            },
{
}

/// The operations that a call shows are those that were asked for on it: of the same kind, with
/// the same status, message and flags.
pub proof fn operations_are_shown_as_they_are(call: &Call, ops: &[CallOp], i: int)
    requires
        call_ensures(Call::ops, (call,), ops),
        0 <= i < call@.ops.len(),
    ensures
        ops@.len() == call@.ops.len(),
        call@.ops[i] is StartServerSide <==> ops@[i] is StartServerSide,
        call@.ops[i] is SendStatus <==> ops@[i] is SendStatus,
        call@.ops[i] is Abort <==> ops@[i] is Abort,
        ops@[i] matches CallOp::SendStatus { status, send_metadata, payload, flags } ==> {
            &&& call@.ops[i]->SendStatus_status.status == status.status
            &&& call@.ops[i]->SendStatus_status.details is Some <==> status.details is Some
            &&& status.details matches Some(text) ==> call@.ops[i]->SendStatus_status.details->0
                == text@
            &&& call@.ops[i]->send_metadata == send_metadata
            &&& call@.ops[i]->payload is Some <==> payload is Some
            &&& payload matches Some(bytes) ==> call@.ops[i]->payload->0 == bytes@
            &&& call@.ops[i]->flags == flags
        },
        ops@[i] matches CallOp::Abort { status } ==> {
            &&& call@.ops[i]->Abort_status.status == status.status
            &&& call@.ops[i]->Abort_status.details is Some <==> status.details is Some
            &&& status.details matches Some(text) ==> call@.ops[i]->Abort_status.details->0
                == text@
        },
{
    let shown = ops@.map_values(|op: CallOp| op@);
    assert(shown.len() == ops@.len());
    assert(shown[i] == ops@[i]@);
}

/// A status has the code and the words it was made with.
pub proof fn status_is_what_it_was_made_of(
    code: RpcStatusCode,
    details: Option<String>,
    status: RpcStatus,
)
    requires
        call_ensures(RpcStatus::new, (code, details), status),
    ensures
        status.status == code,
        status.details == details,
        status@.status == code,
        details is Some <==> status@.details is Some,
        details matches Some(text) ==> status@.details->0 == text@,
{
}

/// The status of a call that went well is OK, without words.
pub proof fn good_status_is_ok(status: RpcStatus)
    requires
        call_ensures(RpcStatus::ok, (), status),
    ensures
        status.status is OK,
        status.details is None,
{
}

/// The answer to a message that cannot be decoded is an internal error, with the error in its
/// words after a fixed beginning.
pub proof fn undecodable_status_holds_the_error(text: String, status: RpcStatus)
    requires
        call_ensures(RpcStatus::undecodable, (text,), status),
    ensures
        status.status is Internal,
        status.details matches Some(words) && words@ == "Failed to deserialize response message: "@
            + text@,
{
}

/// A copy of a status has the same code and the same words.
pub proof fn copied_status_is_the_same(status: &RpcStatus, copy: RpcStatus)
    requires
        call_ensures(RpcStatus::clone, (status,), copy),
    ensures
        copy.status == status.status,
        copy.details is Some <==> status.details is Some,
        status.details matches Some(text) ==> copy.details->0@ == text@,
{
    assert(copy@ == status@);
}

} // verus!
