//! What can go wrong in a dialogue.

use vstd::prelude::*;

verus! {

/// An error indicating that an operation failed because the corresponding
/// `Dialogue` has been closed.
#[derive(Debug, PartialEq, Eq, Clone, Copy, Structural)]
pub struct ClosedDialogue;

impl ClosedDialogue {
    /// The name of the error, as it is shown to a reader.
    pub fn name(&self) -> (text: &'static str)
        ensures
            text@ == "ClosedDialogue"@,
    {
        "ClosedDialogue"
    }

    /// A short description of the error.
    pub fn description(&self) -> (text: &'static str)
        ensures
            text@ == "dialogue has been closed"@,
    {
        "dialogue has been closed"
    }
}

/// The error of the receiving half of a sub-duplex.
#[derive(Debug, PartialEq, Eq)]
pub enum SubStreamError<Data> {
    /// The corresponding dialogue has been closed.
    ClosedDialogue,
    /// The peer terminated the stream with some error data.
    EndWithError(Data),
}

impl<Data> SubStreamError<Data> {
    /// What is shown of the error before its data: the whole text for
    /// `ClosedDialogue`, the text that precedes the data for `EndWithError`.
    pub fn prefix(&self) -> (text: &'static str)
        ensures
            self is ClosedDialogue ==> text@ == "ClosedDialogue"@,
            self is EndWithError ==> text@ == "EndWithError: "@,
    {
        match self {
            SubStreamError::ClosedDialogue => "ClosedDialogue",
            SubStreamError::EndWithError(_) => "EndWithError: ",
        }
    }

    /// The description of the error where it has one of its own; for
    /// `EndWithError` the data describes itself, and this is `None`.
    pub fn description(&self) -> (text: Option<&'static str>)
        ensures
            self is ClosedDialogue ==> text.is_some() && text.unwrap()@
                == "dialogue has been closed"@,
            self is EndWithError ==> text.is_none(),
    {
        match self {
            SubStreamError::ClosedDialogue => Some("dialogue has been closed"),
            SubStreamError::EndWithError(_) => None,
        }
    }
}

/// The ways in which an incoming packet can break the protocol. Each of them
/// is fatal: the dialogue that meets one closes.
#[derive(Debug, PartialEq, Eq, Clone, Copy, Structural)]
pub enum ProtocolViolation {
    /// A packet that continues a conversation names an id under which none
    /// is tracked.
    UnknownId,
    /// The id is tracked, but the conversation under it cannot take this
    /// packet: it is of another kind, the packet comes from the wrong side,
    /// follows the end of its direction, repeats a response, or lacks the
    /// data that its type asks for.
    UnexpectedPacket,
    /// The peer opens a conversation under an id that only this side may
    /// open.
    WrongIdParity,
}

} // verus!
