use grpc_server::server::{Handler, Inner, MethodType};

#[test]
fn handlers_are_found_by_method() {
    let mut inner: Inner<u32> = Inner::new();
    assert!(inner.get_handler(b"/a/b").is_none());
    inner.register(b"/a/b".to_vec(), Handler::new(MethodType::Unary, 1));
    inner.register(b"/a/c".to_vec(), Handler::new(MethodType::Duplex, 2));

    let handler = inner.get_handler(b"/a/b").unwrap();
    assert_eq!(handler.method_type(), MethodType::Unary);
    assert_eq!(*handler.cb(), 1);
    let handler = inner.get_handler(b"/a/c").unwrap();
    assert_eq!(handler.method_type(), MethodType::Duplex);
    assert_eq!(*handler.cb(), 2);

    assert!(inner.get_handler(b"/a/").is_none());
    assert!(inner.get_handler(b"/a/bb").is_none());
    assert!(inner.get_handler(b"").is_none());
}

#[test]
fn the_last_registration_counts() {
    let mut inner: Inner<u32> = Inner::new();
    inner.register(b"m".to_vec(), Handler::new(MethodType::Unary, 1));
    inner.register(b"n".to_vec(), Handler::new(MethodType::Unary, 2));
    inner.register(b"m".to_vec(), Handler::new(MethodType::ServerStreaming, 3));
    let handler = inner.get_handler(b"m").unwrap();
    assert_eq!(*handler.cb(), 3);
    assert_eq!(handler.method_type(), MethodType::ServerStreaming);
    assert_eq!(*inner.get_handler(b"n").unwrap().cb(), 2);
}
