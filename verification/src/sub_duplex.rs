//! Duplexes: conversations in which both sides send a stream of items.

use vstd::prelude::*;
use std::marker::PhantomData;
use futures::Async;
use futures::AsyncSink;
use crate::dialogue::Dialogue;
use crate::error::ClosedDialogue;
use crate::error::SubStreamError;
use crate::packet::PacketId;
use crate::packet::PacketWritable;
use crate::role::Role;

verus! {

/// Type-level indicator for whether a `SubDuplex` has been initiated by this
/// side of the dialogue (`is_out() == true`) or not.
pub trait SubDuplexType {
    /// Whether this side has initiated the duplex.
    spec fn out() -> bool;

    /// Returns whether the corresponding `SubDuplex` has been initiated by
    /// this side of the dialogue.
    fn is_out() -> (out: bool)
        ensures
            out == Self::out(),
    ;
}

/// Signifies a `SubDuplex` initiated by this side of the dialogue.
pub enum OutSubDuplex {
    /// The only value: the kind lives in the type.
    Marker,
}

impl SubDuplexType for OutSubDuplex {
    open spec fn out() -> bool {
        true
    }

    fn is_out() -> (out: bool) {
        true
    }
}

/// Signifies a `SubDuplex` *not* initiated by this side of the dialogue.
pub enum InSubDuplex {
    /// The only value: the kind lives in the type.
    Marker,
}

impl SubDuplexType for InSubDuplex {
    open spec fn out() -> bool {
        false
    }

    fn is_out() -> (out: bool) {
        false
    }
}

/// A duplex connection with the peer.
///
/// The `SubDuplexType` parameter does not exist at runtime; it records which
/// side opened the duplex, and so which packet types this side sends on it.
pub struct SubDuplex<S> {
    id: PacketId,
    kind: PhantomData<S>,
}

impl<S: SubDuplexType> SubDuplex<S> {
    /// The id of the duplex.
    pub closed spec fn id(&self) -> PacketId {
        self.id
    }

    /// The handle of the duplex under `id`.
    pub(crate) fn attach(id: PacketId) -> (duplex: Self)
        ensures
            duplex.id() == id,
    {
        SubDuplex { id, kind: PhantomData }
    }

    /// Start sending an item to the peer's receiving half.
    ///
    /// The item is staged behind everything staged before. Where the
    /// dialogue is closed, or this side's direction is closed or aborted,
    /// the error is returned and nothing is staged.
    pub fn start_send<P, Data, R>(&self, dialogue: &mut Dialogue<P, Data, R>, item: Data) -> (started:
        Result<AsyncSink<Data>, ClosedDialogue>) where P: PacketWritable<Data = Data>, R: Role
        requires
            old(dialogue).wf(),
        ensures
            final(dialogue).wf(),
            final(dialogue)@ == old(dialogue)@.send_item(self.id(), S::out(), item),
            started == (if old(dialogue)@.can_send(self.id(), S::out()) {
                Ok::<AsyncSink<Data>, ClosedDialogue>(AsyncSink::Ready)
            } else {
                Err::<AsyncSink<Data>, ClosedDialogue>(ClosedDialogue)
            }),
    {
        if dialogue.send_item(self.id, S::is_out(), item) {
            Ok(AsyncSink::Ready)
        } else {
            Err(ClosedDialogue)
        }
    }

    /// Performs a half-close of the duplex: this side sends no more, and
    /// still receives what the peer sends until the peer closes too.
    ///
    /// The end is staged behind the items sent before. Closing again
    /// changes nothing. A closed dialogue gives `ClosedDialogue`.
    pub fn close<P, Data, R>(&self, dialogue: &mut Dialogue<P, Data, R>) -> (closed: Result<
        Async<()>,
        ClosedDialogue,
    >) where P: PacketWritable<Data = Data>, R: Role
        requires
            old(dialogue).wf(),
        ensures
            final(dialogue).wf(),
            final(dialogue)@ == old(dialogue)@.half_close(self.id(), S::out(), None),
            closed == done_if(old(dialogue)@.duplex_live(self.id(), S::out())),
    {
        reply(dialogue.half_close(self.id, S::is_out(), None))
    }

    /// Same as `close`, but the receiving duplex is given some error data.
    pub fn close_error<P, Data, R>(&self, dialogue: &mut Dialogue<P, Data, R>, err: Data) -> (closed:
        Result<Async<()>, ClosedDialogue>) where P: PacketWritable<Data = Data>, R: Role
        requires
            old(dialogue).wf(),
        ensures
            final(dialogue).wf(),
            final(dialogue)@ == old(dialogue)@.half_close(self.id(), S::out(), Some(err)),
            closed == done_if(old(dialogue)@.duplex_live(self.id(), S::out())),
    {
        reply(dialogue.half_close(self.id, S::is_out(), Some(err)))
    }

    /// Directly close the duplex (without error), not waiting for
    /// confirmation by the peer and dropping any outstanding items.
    ///
    /// The items of this duplex that are staged are dropped, the end is
    /// staged if this side's direction was open, and what has arrived and
    /// will arrive is discarded. A closed dialogue gives `ClosedDialogue`.
    pub fn abort<P, Data, R>(&self, dialogue: &mut Dialogue<P, Data, R>) -> (aborted: Result<
        Async<()>,
        ClosedDialogue,
    >) where P: PacketWritable<Data = Data>, R: Role
        requires
            old(dialogue).wf(),
        ensures
            final(dialogue).wf(),
            final(dialogue)@ == old(dialogue)@.abort(self.id(), S::out(), None),
            aborted == done_if(old(dialogue)@.duplex_live(self.id(), S::out())),
    {
        reply(dialogue.abort(self.id, S::is_out(), None))
    }

    /// Same as `abort`, but the receiving duplex is given some error data.
    pub fn abort_error<P, Data, R>(&self, dialogue: &mut Dialogue<P, Data, R>, err: Data) -> (aborted:
        Result<Async<()>, ClosedDialogue>) where P: PacketWritable<Data = Data>, R: Role
        requires
            old(dialogue).wf(),
        ensures
            final(dialogue).wf(),
            final(dialogue)@ == old(dialogue)@.abort(self.id(), S::out(), Some(err)),
            aborted == done_if(old(dialogue)@.duplex_live(self.id(), S::out())),
    {
        reply(dialogue.abort(self.id, S::is_out(), Some(err)))
    }

    /// Asks for the next item that the peer has sent.
    ///
    /// The items come in the order in which they arrived, and before the
    /// end of the peer's direction: a clean end is `None`, an end with
    /// error data is `EndWithError`, given once. After an abort the stream
    /// has ended. A closed dialogue gives `SubStreamError::ClosedDialogue`.
    pub fn poll<P, Data, R>(&self, dialogue: &mut Dialogue<P, Data, R>) -> (outcome: Result<
        Async<Option<Data>>,
        SubStreamError<Data>,
    >) where P: PacketWritable<Data = Data>, R: Role
        requires
            old(dialogue).wf(),
        ensures
            final(dialogue).wf(),
            final(dialogue)@ == old(dialogue)@.receive(self.id(), S::out()),
            outcome == old(dialogue)@.receive_outcome(self.id(), S::out()),
    {
        dialogue.receive(self.id, S::is_out())
    }

    /// Gives the handle up, which aborts the duplex on this side.
    ///
    /// The dialogue forgets the duplex if the peer has ended its
    /// direction; else the duplex stays behind, without a handle, until
    /// the peer's end arrives.
    pub fn release<P, Data, R>(self, dialogue: &mut Dialogue<P, Data, R>) where
        P: PacketWritable<Data = Data>,
        R: Role,

        requires
            old(dialogue).wf(),
        ensures
            final(dialogue).wf(),
            final(dialogue)@ == old(dialogue)@.release_duplex(self.id(), S::out()),
    {
        dialogue.release_duplex(self.id, S::is_out());
    }
}

/// What closing or aborting returns: done at once where the duplex is
/// live, `ClosedDialogue` where it is not.
pub open spec fn done_if(live: bool) -> Result<Async<()>, ClosedDialogue> {
    if live {
        Ok(Async::Ready(()))
    } else {
        Err(ClosedDialogue)
    }
}

/// Turns whether the duplex was live into what closing or aborting returns.
fn reply(live: bool) -> (done: Result<Async<()>, ClosedDialogue>)
    ensures
        done == done_if(live),
{
    if live {
        Ok(Async::Ready(()))
    } else {
        Err(ClosedDialogue)
    }
}

} // verus!
