use grpc_server::call::{Call, CallOp};
use grpc_server::status::{RpcStatus, RpcStatusCode};

#[test]
fn ok_status_has_no_details() {
    let status = RpcStatus::ok();
    assert_eq!(status.status, RpcStatusCode::OK);
    assert_eq!(status.details, None);
}

#[test]
fn undecodable_status_holds_the_error() {
    let status = RpcStatus::undecodable("Codec(\"eof\")".to_string());
    assert_eq!(status.status, RpcStatusCode::Internal);
    assert_eq!(
        status.details.unwrap(),
        "Failed to deserialize response message: Codec(\"eof\")"
    );
}

#[test]
fn clone_of_a_status_is_equal() {
    let status = RpcStatus::new(RpcStatusCode::NotFound, Some("gone".to_string()));
    assert_eq!(status.clone(), status);
    assert_eq!(RpcStatus::ok().clone(), RpcStatus::ok());
}

#[test]
fn operations_are_kept_in_order() {
    let mut call = Call::from_raw(77);
    assert_eq!(call.raw(), 77);
    assert!(call.ops().is_empty());

    let first = call.start_server_side();
    let status = RpcStatus::new(RpcStatusCode::Aborted, None);
    let second = call.start_send_status_from_server(&status, false, Some(vec![1, 2]), 4);
    assert_eq!(first.index, 0);
    assert_eq!(second.index, 1);

    let call = call.abort(RpcStatus::ok());
    assert_eq!(call.raw(), 77);
    assert_eq!(
        call.ops(),
        &[
            CallOp::StartServerSide,
            CallOp::SendStatus {
                status,
                send_metadata: false,
                payload: Some(vec![1, 2]),
                flags: 4,
            },
            CallOp::Abort { status: RpcStatus::ok() },
        ]
    );
}
