use grpc_server::codec::{decode, encode};
use grpc_server::poll::{Async, Poll};
use grpc_server::stream::RequestStream;

fn de(bytes: &[u8]) -> Result<u8, String> {
    if bytes.len() == 1 {
        Ok(bytes[0])
    } else {
        Err(format!("{} bytes", bytes.len()))
    }
}

#[test]
fn base_is_polled_with_the_finish_check() {
    let receive = RequestStream::new(6, de).poll();
    assert_eq!(receive.call, 6);
    assert_eq!(receive.close_f, None);
    assert!(!receive.skip_finish_check);
}

#[test]
fn messages_are_decoded() {
    let stream = RequestStream::new(6, de);
    let r: Poll<Option<u8>, String> = stream.resume(Ok(Async::Ready(Some(vec![9]))));
    assert_eq!(r, Ok(Async::Ready(Some(9))));
}

#[test]
fn undecodable_message_is_an_error() {
    let stream = RequestStream::new(6, de);
    let r: Poll<Option<u8>, String> = stream.resume(Ok(Async::Ready(Some(vec![1, 2]))));
    assert_eq!(r, Err("2 bytes".to_string()));
}

#[test]
fn end_pending_and_error_are_passed_on() {
    let stream = RequestStream::new(6, de);
    let r: Poll<Option<u8>, String> = stream.resume(Ok(Async::Ready(None)));
    assert_eq!(r, Ok(Async::Ready(None)));
    let r: Poll<Option<u8>, String> = stream.resume(Ok(Async::NotReady));
    assert_eq!(r, Ok(Async::NotReady));
    let r: Poll<Option<u8>, String> = stream.resume(Err("broken".to_string()));
    assert_eq!(r, Err("broken".to_string()));
}

#[test]
fn encode_starts_with_an_empty_buffer() {
    let ser = |message: &u8, buf: &mut Vec<u8>| {
        assert!(buf.is_empty());
        buf.push(*message);
    };
    assert_eq!(encode(&ser, &4), vec![4]);
}

#[test]
fn decode_shows_the_error() {
    let show = |e: &String| format!("<{}>", e);
    assert_eq!(decode(&de, &show, &[4]), Ok(4));
    assert_eq!(decode(&de, &show, &[]), Err("<0 bytes>".to_string()));
}
