//! The functions that turn messages into bytes and back.
//!
//! A serializer is a function that appends the bytes of a message to a buffer. A deserializer is a
//! function from bytes to a message or an error. Both come from the user, so what is known of
//! them is what their own contracts say.
use vstd::prelude::*;

verus! {

/// Whether the serializer may be called on this message and an empty buffer.
pub open spec fn can_encode<T, S>(ser: S, message: T) -> bool where S: Fn(&T, &mut Vec<u8>) {
    forall|buf: &mut Vec<u8>|
        buf@.len() == 0 ==> #[trigger] call_requires(ser, (&message, buf))
}

/// The bytes of the message: those that the serializer leaves in an empty buffer.
pub fn encode<T, S>(ser: &S, message: &T) -> (bytes: Vec<u8>) where S: Fn(&T, &mut Vec<u8>)
    requires
        can_encode(*ser, *message),
    ensures
        exists|buf: &mut Vec<u8>|
            buf@.len() == 0 && final(buf)@ == bytes@ && #[trigger] call_ensures(
                *ser,
                (message, buf),
                (),
            ),
{
    let mut buf: Vec<u8> = Vec::new();
    ser(message, &mut buf);
    buf
}

/// Whether the deserializer may be called on these bytes.
pub open spec fn can_decode<T, E, D>(de: D, bytes: Seq<u8>) -> bool where
    D: Fn(&[u8]) -> Result<T, E>,
 {
    forall|slice: &[u8]| slice@ == bytes ==> #[trigger] call_requires(de, (slice,))
}

/// Whether the deserializer can give this message or error for these bytes.
pub open spec fn decodes<T, E, D>(de: D, bytes: Seq<u8>, decoded: Result<T, E>) -> bool where
    D: Fn(&[u8]) -> Result<T, E>,
 {
    exists|slice: &[u8]| slice@ == bytes && #[trigger] call_ensures(de, (slice,), decoded)
}

/// Whether `show` may be called on every error that the deserializer can give for these bytes.
pub open spec fn can_show<T, E, D, G>(de: D, show: G, bytes: Seq<u8>) -> bool where
    D: Fn(&[u8]) -> Result<T, E>,
    G: Fn(&E) -> String,
 {
    forall|e: E| decodes(de, bytes, Err::<T, E>(e)) ==> #[trigger] call_requires(show, (&e,))
}

/// Whether the deserializer can give an error for these bytes that `show` can render as `text`.
pub open spec fn fails_with<T, E, D, G>(
    de: D,
    show: G,
    bytes: Seq<u8>,
    text: Seq<char>,
) -> bool where
    D: Fn(&[u8]) -> Result<T, E>,
    G: Fn(&E) -> String,
 {
    exists|e: E, shown: String|
        decodes(de, bytes, Err::<T, E>(e)) && shown@ == text && #[trigger] call_ensures(
            show,
            (&e,),
            shown,
        )
}

/// The message in the bytes, or the error in words.
pub fn decode<T, E, D, G>(de: &D, show: &G, bytes: &[u8]) -> (r: Result<T, String>) where
    D: Fn(&[u8]) -> Result<T, E>,
    G: Fn(&E) -> String,

    requires
        can_decode(*de, bytes@),
        can_show(*de, *show, bytes@),
    ensures
        match r {
            Ok(message) => decodes(*de, bytes@, Ok::<T, E>(message)),
            Err(text) => fails_with(*de, *show, bytes@, text@),
        },
{
    let decoded = de(bytes);
    assert(decodes(*de, bytes@, decoded));
    match decoded {
        Ok(message) => Ok(message),
        Err(e) => Err(show(&e)),
    }
}

} // verus!
