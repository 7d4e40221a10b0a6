//! What came back from one HTTP exchange, as plain values.

use vstd::prelude::*;
use crate::error::{Error, TransportFailure};

verus! {

/// The outcome of one request to the provider.
#[derive(Debug, PartialEq, Eq)]
pub enum HttpReply {
    /// The request failed before a complete response was read.
    Unreachable,
    /// A complete response.
    Response { status: u16, body: Vec<u8> },
}

/// The statuses that count as success.
pub open spec fn success_status(status: u16) -> bool {
    200 <= status <= 299
}

impl HttpReply {
    /// The transport failure this reply amounts to, if any.
    pub open spec fn failure(self) -> Option<TransportFailure> {
        match self {
            HttpReply::Unreachable => Some(TransportFailure::Unreachable),
            HttpReply::Response { status, .. } => if success_status(status) {
                None
            } else {
                Some(TransportFailure::Status(status))
            },
        }
    }

    /// The bytes delivered by a successful reply.
    pub open spec fn payload(self) -> Seq<u8>
        recommends
            self.failure() is None,
    {
        self->body@
    }

    /// The body of a successful reply, or the transport failure.
    pub fn delivered(&self) -> (r: Result<&Vec<u8>, Error>)
        ensures
            match self.failure() {
                Some(f) => r == Err::<&Vec<u8>, Error>(Error::Transport(f)),
                None => r is Ok && r->Ok_0@ == self.payload(),
            },
    {
        match self {
            HttpReply::Unreachable => Err(Error::Transport(TransportFailure::Unreachable)),
            HttpReply::Response { status, body } => {
                if 200 <= *status && *status <= 299 {
                    Ok(body)
                } else {
                    Err(Error::Transport(TransportFailure::Status(*status)))
                }
            },
        }
    }
}

} // verus!
