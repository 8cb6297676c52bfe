//! Errors of the transport below a dialogue.

use vstd::prelude::*;

verus! {

/// A transport error: either an error emitted by the sending half of a
/// transport, or by its receiving half.
#[derive(Debug, PartialEq, Eq)]
pub enum TransportError<SinkErr, StreamErr> {
    /// An error originating from the sending half.
    SinkError(SinkErr),
    /// An error originating from the receiving half.
    StreamError(StreamErr),
}

impl<SinkErr, StreamErr> TransportError<SinkErr, StreamErr> {
    /// The text that is shown before the error it wraps.
    pub fn prefix(&self) -> (text: &'static str)
        ensures
            self is SinkError ==> text@ == "SinkError: "@,
            self is StreamError ==> text@ == "StreamError: "@,
    {
        match self {
            TransportError::SinkError(_) => "SinkError: ",
            TransportError::StreamError(_) => "StreamError: ",
        }
    }
}

} // verus!
