//! The stream of requests of a call.
use vstd::prelude::*;

use crate::codec::can_decode;
use crate::codec::decodes;
use crate::poll::Async;
use crate::poll::BatchFuture;
use crate::poll::Poll;

verus! {

/// What the stream keeps of its base, which receives messages outside of this library.
#[derive(Clone, Copy, Debug, PartialEq, Eq, Structural)]
pub struct StreamingBase {
    /// The batch to await at the end of the stream, where there is one.
    pub close_f: Option<BatchFuture>,
}

impl StreamingBase {
    pub fn new(close_f: Option<BatchFuture>) -> (base: StreamingBase)
        ensures
            base == (StreamingBase { close_f }),
    {
        StreamingBase { close_f }
    }
}

/// How the base is to be polled for the next message.
#[derive(Clone, Copy, Debug, PartialEq, Eq, Structural)]
pub struct Receive {
    /// The address of the call in the core.
    pub call: usize,
    /// The batch to await at the end of the stream, where there is one.
    pub close_f: Option<BatchFuture>,
    /// Whether the base goes on to the next message without a look at that batch.
    pub skip_finish_check: bool,
}

/// The stream of requests of a call. It shares the call with the sink of the response.
pub struct RequestStream<D> {
    call: usize,
    base: StreamingBase,
    de: D,
}

/// A stream of requests: the address of its call, what is kept of its base, and the function that
/// turns bytes into a request.
pub struct RequestStreamView<D> {
    pub call: usize,
    pub base: StreamingBase,
    pub de: D,
}

impl<D> RequestStreamView<D> {
    /// The stream of requests of the call at this address. No batch ends a stream of requests.
    pub open spec fn fresh(call: usize, de: D) -> RequestStreamView<D> {
        RequestStreamView { call, base: StreamingBase { close_f: None }, de }
    }
}

impl<D> View for RequestStream<D> {
    type V = RequestStreamView<D>;

    closed spec fn view(&self) -> RequestStreamView<D> {
        RequestStreamView { call: self.call, base: self.base, de: self.de }
    }
}

/// Whether the poll of a stream gives this result, by what the poll of its base gave: the end of
/// the stream and the base's error are passed on, and a message is what the deserializer makes of
/// it.
pub open spec fn polls_to<T, E, D>(
    de: D,
    received: Poll<Option<Vec<u8>>, E>,
    r: Poll<Option<T>, E>,
) -> bool where D: Fn(&[u8]) -> Result<T, E> {
    match received {
        Err(e) => r == Err::<Async<Option<T>>, E>(e),
        Ok(Async::NotReady) => r == Ok::<Async<Option<T>>, E>(Async::NotReady),
        Ok(Async::Ready(None)) => r == Ok::<Async<Option<T>>, E>(Async::Ready(None)),
        Ok(Async::Ready(Some(data))) => match r {
            Ok(Async::Ready(Some(message))) => decodes(de, data@, Ok::<T, E>(message)),
            Err(e) => decodes(de, data@, Err::<T, E>(e)),
            _ => false,
        },
    }
}

impl<D> RequestStream<D> {
    /// The stream of requests of the call at this address.
    pub fn new(call: usize, de: D) -> (stream: RequestStream<D>)
        ensures
            stream@ == RequestStreamView::fresh(call, de),
    {
        RequestStream { call, base: StreamingBase::new(None), de }
    }

    /// Begins a poll: how the base is to be polled.
    pub fn poll(&self) -> (receive: Receive)
        ensures
            receive == (Receive {
                call: self@.call,
                close_f: self@.base.close_f,
                skip_finish_check: false,
            }),
    {
        Receive { call: self.call, close_f: self.base.close_f, skip_finish_check: false }
    }

    /// Ends a poll, after the base was polled with this outcome.
    pub fn resume<T, E>(&self, received: Poll<Option<Vec<u8>>, E>) -> (r: Poll<Option<T>, E>) where
        D: Fn(&[u8]) -> Result<T, E>,

        requires
            received matches Ok(Async::Ready(Some(data))) ==> can_decode(self@.de, data@),
        ensures
            polls_to(self@.de, received, r),
    {
        match received {
            Err(e) => Err(e),
            Ok(Async::NotReady) => Ok(Async::NotReady),
            Ok(Async::Ready(None)) => Ok(Async::Ready(None)),
            Ok(Async::Ready(Some(data))) => {
                let bytes = data.as_slice();
                let decoded = (self.de)(bytes);
                assert(decodes(self.de, data@, decoded));
                match decoded {
                    Ok(message) => Ok(Async::Ready(Some(message))),
                    Err(e) => Err(e),
                }
            },
        }
    }
}

} // verus!
