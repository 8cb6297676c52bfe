//! The two ends of a request: the handle of one that this side sent, and
//! the handle of one that the peer sent.

use vstd::prelude::*;
use futures::Async;
use futures::AsyncSink;
use crate::dialogue::Dialogue;
use crate::error::ClosedDialogue;
use crate::packet::PacketId;
use crate::packet::PacketReadable;
use crate::packet::PacketWritable;
use crate::role::Role;

verus! {

/// This type represents the future response to a request. It also allows to
/// cancel the original request.
pub struct Response {
    id: PacketId,
    done: bool,
}

impl Response {
    /// The id of the request.
    pub closed spec fn id(&self) -> PacketId {
        self.id
    }

    /// Whether the handle has had its outcome, has withdrawn the request,
    /// or never had a request to wait for.
    pub closed spec fn done(&self) -> bool {
        self.done
    }

    /// The handle of a request that has just been staged under `id`.
    pub(crate) fn awaiting(id: PacketId) -> (response: Response)
        ensures
            response.id() == id,
            !response.done(),
    {
        Response { id, done: false }
    }

    /// The handle of a request that could not be staged.
    pub(crate) fn spent() -> (response: Response)
        ensures
            response.done(),
            response.id() == 0,
    {
        Response { id: 0, done: true }
    }

    /// Asks for the response to the request.
    ///
    /// A closed dialogue gives `ClosedDialogue`. Else the handle is ready
    /// once: with `Some` data when the response has arrived, with `None`
    /// when the peer has declined to answer. The dialogue then forgets the
    /// request. Until then, and ever after, the handle is not ready.
    pub fn poll<P, Data, R>(&mut self, dialogue: &mut Dialogue<P, Data, R>) -> (outcome: Result<
        Async<Option<Data>>,
        ClosedDialogue,
    >) where P: PacketWritable<Data = Data>, R: Role
        requires
            old(dialogue).wf(),
        ensures
            final(dialogue).wf(),
            final(self).id() == old(self).id(),
            old(dialogue)@.closed || old(self).done() ==> {
                &&& final(dialogue)@ == old(dialogue)@
                &&& final(self).done() == old(self).done()
                &&& outcome == (if old(dialogue)@.closed {
                    Err::<Async<Option<Data>>, ClosedDialogue>(ClosedDialogue)
                } else {
                    Ok::<Async<Option<Data>>, ClosedDialogue>(Async::NotReady)
                })
            },
            !old(dialogue)@.closed && !old(self).done() ==> {
                &&& final(dialogue)@ == old(dialogue)@.take_response(old(self).id())
                &&& outcome == old(dialogue)@.response_outcome(old(self).id())
                &&& final(self).done() == (outcome != Ok::<Async<Option<Data>>, ClosedDialogue>(
                    Async::NotReady,
                ))
            },
    {
        if dialogue.is_closed() {
            return Err(ClosedDialogue);
        }
        if self.done {
            return Ok(Async::NotReady);
        }
        let outcome = dialogue.take_response(self.id);
        match &outcome {
            Ok(Async::NotReady) => {},
            _ => {
                self.done = true;
            },
        }
        outcome
    }

    /// Cancel the original request.
    ///
    /// A request that still waits for its response is withdrawn: the
    /// withdrawal is staged for the peer. In any case the dialogue forgets
    /// the request, and the handle will never be ready. Cancelling twice
    /// changes nothing. A closed dialogue gives `ClosedDialogue`.
    pub fn start_cancel<P, Data, R>(&mut self, dialogue: &mut Dialogue<P, Data, R>) -> (started:
        Result<AsyncSink<()>, ClosedDialogue>) where P: PacketWritable<Data = Data>, R: Role
        requires
            old(dialogue).wf(),
        ensures
            final(dialogue).wf(),
            final(self).id() == old(self).id(),
            old(dialogue)@.closed ==> {
                &&& final(dialogue)@ == old(dialogue)@
                &&& final(self).done() == old(self).done()
                &&& started == Err::<AsyncSink<()>, ClosedDialogue>(ClosedDialogue)
            },
            !old(dialogue)@.closed ==> {
                &&& final(dialogue)@ == (if old(self).done() {
                    old(dialogue)@
                } else {
                    old(dialogue)@.withdraw_request(old(self).id())
                })
                &&& final(self).done()
                &&& started == Ok::<AsyncSink<()>, ClosedDialogue>(AsyncSink::Ready)
            },
    {
        if dialogue.is_closed() {
            return Err(ClosedDialogue);
        }
        if !self.done {
            dialogue.withdraw_request(self.id);
            self.done = true;
        }
        Ok(AsyncSink::Ready)
    }

    /// Gives the handle up: the dialogue stops waiting for the response
    /// and forgets the request. Nothing is sent.
    pub fn release<P, Data, R>(self, dialogue: &mut Dialogue<P, Data, R>) where
        P: PacketWritable<Data = Data>,
        R: Role,

        requires
            old(dialogue).wf(),
        ensures
            final(dialogue).wf(),
            final(dialogue)@ == (if self.done() {
                old(dialogue)@
            } else {
                old(dialogue)@.forget_response(self.id())
            }),
    {
        if !self.done {
            dialogue.forget_response(self.id);
        }
    }
}

/// A request that has been received from the peer.
///
/// The handle holds the packet that opened the request, which carries its
/// data.
pub struct Request<P: PacketReadable> {
    packet: P,
}

impl<P: PacketReadable> Request<P> {
    /// A request carries data.
    #[verifier::type_invariant]
    closed spec fn carries_data(self) -> bool {
        self.packet.frame().data.is_some()
    }

    /// The packet that opened the request.
    pub closed spec fn packet(&self) -> P {
        self.packet
    }

    /// The id of the request.
    pub open spec fn id(&self) -> PacketId {
        self.packet().frame().id
    }

    /// The handle of the request that `packet` opens.
    pub(crate) fn watching(packet: P) -> (request: Self)
        requires
            packet.frame().data.is_some(),
        ensures
            request.packet() == packet,
    {
        Request { packet }
    }

    /// Gets the data that was sent with the request.
    pub fn get_data(&self) -> (data: P::Data)
        ensures
            Some(data) == self.packet().frame().data,
    {
        proof {
            use_type_invariant(self);
        }
        self.packet.get_data().unwrap()
    }

    /// Asks whether an answer has become pointless.
    ///
    /// The handle is ready when the peer has withdrawn the request or the
    /// dialogue is closed, and not ready until then. It never fails.
    pub fn poll<R>(&self, dialogue: &Dialogue<P, P::Data, R>) -> (outcome: Result<Async<()>, ()>) where
        P: PacketWritable,
        R: Role,

        ensures
            outcome == (if dialogue@.moot(self.id()) {
                Ok::<Async<()>, ()>(Async::Ready(()))
            } else {
                Ok::<Async<()>, ()>(Async::NotReady)
            }),
    {
        if dialogue.is_closed() || dialogue.is_withdrawn(self.packet.get_id()) {
            Ok(Async::Ready(()))
        } else {
            Ok(Async::NotReady)
        }
    }

    /// Consumes the `Request` and writes some response data to the peer.
    ///
    /// The response is staged, unless the peer has withdrawn the request,
    /// and the dialogue forgets the request. Where the dialogue is closed
    /// or does not track the request, the error is returned and nothing
    /// changes.
    pub fn start_responding<R>(self, dialogue: &mut Dialogue<P, P::Data, R>, data: P::Data) -> (started:
        Result<AsyncSink<Self>, ClosedDialogue>) where P: PacketWritable, R: Role
        requires
            old(dialogue).wf(),
        ensures
            final(dialogue).wf(),
            final(dialogue)@ == old(dialogue)@.answer(self.id(), Some(data)),
            started == (if old(dialogue)@.answerable(self.id()) {
                Ok::<AsyncSink<Self>, ClosedDialogue>(AsyncSink::Ready)
            } else {
                Err::<AsyncSink<Self>, ClosedDialogue>(ClosedDialogue)
            }),
    {
        if dialogue.answer(self.packet.get_id(), Some(data)) {
            Ok(AsyncSink::Ready)
        } else {
            Err(ClosedDialogue)
        }
    }

    /// Consumes the `Request` and cancels it: the peer is told that no
    /// answer will come.
    ///
    /// The refusal is staged, unless the peer has withdrawn the request,
    /// and the dialogue forgets the request. Where the dialogue is closed
    /// or does not track the request, the error is returned and nothing
    /// changes.
    pub fn start_cancelling<R>(self, dialogue: &mut Dialogue<P, P::Data, R>) -> (started: Result<
        AsyncSink<Self>,
        ClosedDialogue,
    >) where P: PacketWritable, R: Role
        requires
            old(dialogue).wf(),
        ensures
            final(dialogue).wf(),
            final(dialogue)@ == old(dialogue)@.answer(self.id(), None),
            started == (if old(dialogue)@.answerable(self.id()) {
                Ok::<AsyncSink<Self>, ClosedDialogue>(AsyncSink::Ready)
            } else {
                Err::<AsyncSink<Self>, ClosedDialogue>(ClosedDialogue)
            }),
    {
        if dialogue.answer(self.packet.get_id(), None) {
            Ok(AsyncSink::Ready)
        } else {
            Err(ClosedDialogue)
        }
    }

    /// Gives the handle up without an answer: the dialogue forgets the
    /// request, so that its id is free again, and sends nothing.
    pub fn release<R>(self, dialogue: &mut Dialogue<P, P::Data, R>) where P: PacketWritable, R: Role
        requires
            old(dialogue).wf(),
        ensures
            final(dialogue).wf(),
            final(dialogue)@ == old(dialogue)@.forget_request(self.id()),
            !final(dialogue)@.requests.contains_key(self.id()),
    {
        dialogue.forget_request(self.packet.get_id());
    }
}

} // verus!
