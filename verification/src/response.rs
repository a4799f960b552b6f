//! What the answer of the exchange means for the caller.

use crate::error::Error;
use vstd::prelude::*;

verus! {

/// The error envelope `{code, msg}` that the exchange sends with a rejection.
#[derive(Debug)]
pub struct ErrorEnvelope {
    pub code: i64,
    pub msg: String,
}

/// True for the HTTP statuses 200 to 299.
pub open spec fn is_success(status: u16) -> bool {
    200 <= status < 300
}

/// What came back after a request was sent.
#[derive(Debug)]
pub enum Reply {
    /// The request could not be delivered, or no answer arrived.
    Lost,
    /// The exchange answered with this HTTP status. For a status outside 200
    /// to 299, `envelope` is the error envelope decoded from the body, or
    /// `None` where the body holds no such envelope.
    Answer { status: u16, envelope: Option<ErrorEnvelope> },
}

/// Judges what came back. A lost request is a `TransportError`. An answer
/// with a status from 200 to 299 is accepted. Any other answer is a
/// rejection: an `ApiError` that carries the status and the envelope, never a
/// transport failure, or a `DecodeError` where no envelope could be read.
pub fn settle(reply: Reply) -> (r: Result<(), Error>)
    ensures
        match reply {
            Reply::Lost => r == Err::<(), Error>(Error::TransportError),
            Reply::Answer { status, envelope } => if is_success(status) {
                r is Ok
            } else {
                match envelope {
                    Some(e) => r matches Err(Error::ApiError { code, reason, message }) && code
                        == status && reason == e.code && message@ == e.msg@,
                    None => r == Err::<(), Error>(Error::DecodeError),
                }
            },
        },
{
    match reply {
        Reply::Lost => Err(Error::TransportError),
        Reply::Answer { status, envelope } => {
            if 200 <= status && status < 300 {
                Ok(())
            } else {
                match envelope {
                    Some(e) => Err(
                        Error::ApiError { code: status, reason: e.code, message: e.msg },
                    ),
                    None => Err(Error::DecodeError),
                }
            }
        },
    }
}

} // verus!
