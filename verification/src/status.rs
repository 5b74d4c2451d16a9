//! The status a call ends with.
use vstd::prelude::*;

verus! {

/// The status codes of gRPC.
#[derive(Clone, Copy, Debug, PartialEq, Eq, Structural)]
pub enum RpcStatusCode {
    OK,
    Cancelled,
    Unknown,
    InvalidArgument,
    DeadlineExceeded,
    NotFound,
    AlreadyExists,
    PermissionDenied,
    ResourceExhausted,
    FailedPrecondition,
    Aborted,
    OutOfRange,
    Unimplemented,
    Internal,
    Unavailable,
    DataLoss,
    Unauthenticated,
}

/// A status code, and words for the peer where there are any.
#[derive(Debug, PartialEq, Eq)]
pub struct RpcStatus {
    pub status: RpcStatusCode,
    pub details: Option<String>,
}

/// A status with its words as a sequence of characters.
pub struct StatusView {
    pub status: RpcStatusCode,
    pub details: Option<Seq<char>>,
}

impl View for RpcStatus {
    type V = StatusView;

    open spec fn view(&self) -> StatusView {
        StatusView {
            status: self.status,
            details: match self.details {
                Some(text) => Some(text@),
                None => None,
            },
        }
    }
}

impl Clone for RpcStatus {
    fn clone(&self) -> (copy: Self)
        ensures
            copy@ == self@,
    {
        let details = match &self.details {
            Some(text) => Some(text.clone()),
            None => None,
        };
        RpcStatus { status: self.status, details }
    }
}

/// The status of a call that went well.
pub open spec fn ok_status() -> StatusView {
    StatusView { status: RpcStatusCode::OK, details: None }
}

/// The answer to a call of a method that no handler is registered for.
pub open spec fn unimplemented_status() -> StatusView {
    StatusView { status: RpcStatusCode::Unimplemented, details: None }
}

/// The answer to a call whose request message never came.
pub open spec fn no_payload_status() -> StatusView {
    StatusView { status: RpcStatusCode::Internal, details: Some("No payload"@) }
}

/// The answer to a call whose request message could not be decoded, for an error that reads
/// `text`.
pub open spec fn undecodable_status(text: Seq<char>) -> StatusView {
    StatusView {
        status: RpcStatusCode::Internal,
        details: Some("Failed to deserialize response message: "@ + text),
    }
}

impl RpcStatus {
    pub fn new(status: RpcStatusCode, details: Option<String>) -> (r: RpcStatus)
        ensures
            r == (RpcStatus { status, details }),
    {
        RpcStatus { status, details }
    }

    /// The status of a call that went well.
    pub fn ok() -> (r: RpcStatus)
        ensures
            r@ == ok_status(),
    {
        RpcStatus::new(RpcStatusCode::OK, None)
    }

    /// The answer to a call whose request message could not be decoded; `text` describes the
    /// error.
    pub fn undecodable(text: String) -> (r: RpcStatus)
        ensures
            r@ == undecodable_status(text@),
    {
        let mut details = "Failed to deserialize response message: ".to_owned();
        details.append(text.as_str());
        RpcStatus::new(RpcStatusCode::Internal, Some(details))
    }
}

} // verus!
