//! A call, and the operations that are to be performed on it.
use vstd::prelude::*;

use crate::poll::BatchFuture;
use crate::status::RpcStatus;
use crate::status::StatusView;

verus! {

/// An operation on a call.
#[derive(Debug, PartialEq, Eq)]
pub enum CallOp {
    /// Start the batch that finishes when the call is over or cancelled.
    StartServerSide,
    /// Start the batch that sends the status, with the response message in front of it where
    /// there is one.
    SendStatus {
        status: RpcStatus,
        /// Whether the batch sends the initial metadata first, because nothing has sent it yet.
        send_metadata: bool,
        payload: Option<Vec<u8>>,
        flags: u32,
    },
    /// End the call with this status and release it; nothing waits for the outcome.
    Abort { status: RpcStatus },
}

/// An operation on a call, over sequences.
pub enum CallOpView {
    StartServerSide,
    SendStatus {
        status: StatusView,
        send_metadata: bool,
        payload: Option<Seq<u8>>,
        flags: u32,
    },
    Abort { status: StatusView },
}

impl View for CallOp {
    type V = CallOpView;

    open spec fn view(&self) -> CallOpView {
        match self {
            CallOp::StartServerSide => CallOpView::StartServerSide,
            CallOp::SendStatus { status, send_metadata, payload, flags } => CallOpView::SendStatus {
                status: status@,
                send_metadata: *send_metadata,
                payload: bytes_view(*payload),
                flags: *flags,
            },
            CallOp::Abort { status } => CallOpView::Abort { status: status@ },
        }
    }
}

/// The bytes of a message that may be absent.
pub open spec fn bytes_view(message: Option<Vec<u8>>) -> Option<Seq<u8>> {
    match message {
        Some(bytes) => Some(bytes@),
        None => None,
    }
}

/// A call of the gRPC core, by its address there, and the operations that are to be performed on
/// it, first to last.
#[derive(Debug)]
pub struct Call {
    raw: usize,
    ops: Vec<CallOp>,
}

/// A call: its address in the core, and its operations.
pub struct CallView {
    pub raw: usize,
    pub ops: Seq<CallOpView>,
}

impl CallView {
    /// A call on which nothing has been asked for yet.
    pub open spec fn fresh(raw: usize) -> CallView {
        CallView { raw, ops: Seq::empty() }
    }

    /// The call with one more operation at the end of the list.
    pub open spec fn with(self, op: CallOpView) -> CallView {
        CallView { raw: self.raw, ops: self.ops.push(op) }
    }

    /// The name of the batch that the operation asked for next starts.
    pub open spec fn next_batch(self) -> BatchFuture {
        BatchFuture { index: self.ops.len() as usize }
    }

    /// A call that has been opened on the server side and nothing more.
    pub open spec fn opened(raw: usize) -> CallView {
        CallView::fresh(raw).with(CallOpView::StartServerSide)
    }
}

impl View for Call {
    type V = CallView;

    closed spec fn view(&self) -> CallView {
        CallView { raw: self.raw, ops: self.ops@.map_values(|op: CallOp| op@) }
    }
}

impl Call {
    /// The call at this address of the core.
    pub fn from_raw(raw: usize) -> (call: Call)
        ensures
            call@ == CallView::fresh(raw),
    {
        let call = Call { raw, ops: Vec::new() };
        assert(call@.ops =~= Seq::<CallOpView>::empty());
        call
    }

    /// The address of the call in the core.
    pub fn raw(&self) -> (raw: usize)
        ensures
            raw == self@.raw,
    {
        self.raw
    }

    /// The operations to be performed on the call, first to last.
    pub fn ops(&self) -> (ops: &[CallOp])
        ensures
            ops@.map_values(|op: CallOp| op@) == self@.ops,
    {
        self.ops.as_slice()
    }

    fn start(&mut self, op: CallOp) -> (batch: BatchFuture)
        ensures
            final(self)@ == old(self)@.with(op@),
            batch == old(self)@.next_batch(),
            batch.index == old(self)@.ops.len(),
    {
        let batch = BatchFuture { index: self.ops.len() };
        self.ops.push(op);
        assert(self@.ops =~= old(self)@.ops.push(op@));
        batch
    }

    /// Asks for the batch that finishes when the call is over or cancelled.
    pub fn start_server_side(&mut self) -> (batch: BatchFuture)
        ensures
            final(self)@ == old(self)@.with(CallOpView::StartServerSide),
            batch == old(self)@.next_batch(),
            batch.index == old(self)@.ops.len(),
    {
        self.start(CallOp::StartServerSide)
    }

    /// Asks for the batch that sends the status, and the response message where there is one.
    pub fn start_send_status_from_server(
        &mut self,
        status: &RpcStatus,
        send_metadata: bool,
        payload: Option<Vec<u8>>,
        flags: u32,
    ) -> (batch: BatchFuture)
        ensures
            final(self)@ == old(self)@.with(
                CallOpView::SendStatus {
                    status: status@,
                    send_metadata,
                    payload: bytes_view(payload),
                    flags,
                },
            ),
            batch == old(self)@.next_batch(),
            batch.index == old(self)@.ops.len(),
    {
        self.start(CallOp::SendStatus { status: status.clone(), send_metadata, payload, flags })
    }

    /// Asks for the call to be ended with this status. Nothing waits for the outcome; the call is
    /// handed back for its operations to be performed.
    pub fn abort(self, status: RpcStatus) -> (call: Call)
        ensures
            call@ == self@.with(CallOpView::Abort { status: status@ }),
    {
        let mut call = self;
        let _ = call.start(CallOp::Abort { status });
        call
    }
}

} // verus!
