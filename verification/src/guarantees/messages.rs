//! How messages are encoded, decoded and received.
use vstd::prelude::*;

use crate::codec::decode;
use crate::codec::encode;
use crate::poll::Async;
use crate::poll::BatchFuture;
use crate::poll::Poll;
use crate::stream::Receive;
use crate::stream::RequestStream;
use crate::stream::StreamingBase;

verus! {

/// The bytes of a message are what the serializer leaves in an empty buffer.
pub proof fn bytes_are_those_of_the_serializer<T, S>(
    ser: &S,
    message: &T,
    bytes: Vec<u8>,
) where S: Fn(&T, &mut Vec<u8>)
    requires
        call_ensures(encode::<T, S>, (ser, message), bytes),
    ensures
        exists|buf: &mut Vec<u8>|
            {
                &&& buf@.len() == 0
                &&& #[trigger] call_ensures(*ser, (message, buf), ())
                &&& final(buf)@ == bytes@
            },
{
}

/// A message is decoded to what the deserializer makes of these very bytes, whatever they are; an
/// error of the deserializer is the only reason for an error, which is in the words of `show`.
pub proof fn message_is_that_of_the_deserializer<T, E, D, G>(
    de: &D,
    show: &G,
    bytes: &[u8],
    r: Result<T, String>,
) where D: Fn(&[u8]) -> Result<T, E>, G: Fn(&E) -> String
    requires
        call_ensures(decode::<T, E, D, G>, (de, show, bytes), r),
    ensures
        r matches Ok(message) ==> exists|slice: &[u8]|
            slice@ == bytes@ && #[trigger] call_ensures(*de, (slice,), Ok::<T, E>(message)),
        r matches Err(text) ==> exists|slice: &[u8], e: E, shown: String|
            {
                &&& slice@ == bytes@
                &&& #[trigger] call_ensures(*de, (slice,), Err::<T, E>(e))
                &&& #[trigger] call_ensures(*show, (&e,), shown)
                &&& shown@ == text@
            },
{
}

/// Every message can be encoded that the serializer can be called on, and all bytes can be decoded
/// that the deserializer can be called on, if its errors can be put in words.
pub proof fn codec_asks_only_for_the_functions<T, E, S, D, G>(
    ser: &S,
    message: &T,
    de: &D,
    show: &G,
    bytes: &[u8],
) where S: Fn(&T, &mut Vec<u8>), D: Fn(&[u8]) -> Result<T, E>, G: Fn(&E) -> String
    requires
        forall|buf: &mut Vec<u8>|
            buf@.len() == 0 ==> #[trigger] call_requires(*ser, (message, buf)),
        forall|slice: &[u8]| slice@ == bytes@ ==> #[trigger] call_requires(*de, (slice,)),
        forall|slice: &[u8], e: E|
            slice@ == bytes@ && #[trigger] call_ensures(*de, (slice,), Err::<T, E>(e))
                ==> call_requires(*show, (&e,)),
    ensures
        call_requires(encode::<T, S>, (ser, message)),
        call_requires(decode::<T, E, D, G>, (de, show, bytes)),
{
}

/// A stream of requests is polled on its own call, with no batch to await at its end, and with a
/// look at whether the call is over.
pub proof fn stream_polls_its_call<D>(
    call: usize,
    de: D,
    stream: RequestStream<D>,
    receive: Receive,
)
    requires
        call_ensures(RequestStream::<D>::new, (call, de), stream),
        call_ensures(RequestStream::<D>::poll, (&stream,), receive),
    ensures
        stream@.call == call,
        stream@.base.close_f is None,
        stream@.de == de,
        receive.call == call,
        receive.close_f is None,
        !receive.skip_finish_check,
{
}

/// The base of a stream keeps the batch it was made with, and the stream passes it on.
pub proof fn stream_passes_its_batch_on<D>(
    close_f: Option<BatchFuture>,
    base: StreamingBase,
    stream: &RequestStream<D>,
    receive: Receive,
)
    requires
        call_ensures(StreamingBase::new, (close_f,), base),
        call_ensures(RequestStream::<D>::poll, (stream,), receive),
    ensures
        base.close_f == close_f,
        receive.call == stream@.call,
        receive.close_f == stream@.base.close_f,
        !receive.skip_finish_check,
{
}

/// A stream of requests ends exactly when its base does, is not ready exactly when its base is
/// not, and passes an error of its base on. Whatever message is received, of whatever length, is
/// given as what the deserializer makes of these very bytes.
pub proof fn stream_gives_what_was_received<T, E, D>(
    stream: &RequestStream<D>,
    received: Poll<Option<Vec<u8>>, E>,
    r: Poll<Option<T>, E>,
) where D: Fn(&[u8]) -> Result<T, E>
    requires
        call_ensures(RequestStream::<D>::resume::<T, E>, (stream, received), r),
    ensures
        (r matches Ok(Async::Ready(None))) <==> (received matches Ok(Async::Ready(None))),
        (r matches Ok(Async::NotReady)) <==> (received matches Ok(Async::NotReady)),
        received matches Err(e) ==> r == Err::<Async<Option<T>>, E>(e),
        r matches Ok(Async::Ready(Some(message))) ==> exists|slice: &[u8]|
            {
                &&& received matches Ok(Async::Ready(Some(data))) && slice@ == data@
                &&& #[trigger] call_ensures(stream@.de, (slice,), Ok::<T, E>(message))
            },
        received is Ok && r is Err ==> exists|slice: &[u8]|
            {
                &&& received matches Ok(Async::Ready(Some(data))) && slice@ == data@
                &&& #[trigger] call_ensures(stream@.de, (slice,), Err::<T, E>(r->Err_0))
            },
{
}

/// A stream of requests can be told of whatever its base gives, if its deserializer can be called
/// on the message in it.
pub proof fn stream_asks_only_for_the_deserializer<T, E, D>(
    stream: &RequestStream<D>,
    received: Poll<Option<Vec<u8>>, E>,
) where D: Fn(&[u8]) -> Result<T, E>
    requires
        received matches Ok(Async::Ready(Some(data))) ==> forall|slice: &[u8]|
            slice@ == data@ ==> #[trigger] call_requires(stream@.de, (slice,)),
    ensures
        call_requires(RequestStream::<D>::resume::<T, E>, (stream, received)),
{
}

} // verus!
