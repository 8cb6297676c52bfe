//! The state of a dialogue as a mathematical value, and every step it can
//! take.
//!
//! A `Dialogue` is a view of this state. Each of its operations, and each
//! operation of a handle, is one of the functions below: the contracts in
//! the other modules say which, and the laws are proved about these
//! functions.
//!
//! # The protocol
//!
//! | packet type | data | meaning |
//! |---|---|---|
//! | `Message` | some | a message under id 0; nothing is tracked |
//! | `Request` | some | opens a request under a fresh id of the sender |
//! | `Request` | none | the requester withdraws the request of that id |
//! | `Response` | some | the answer to the request of that id |
//! | `Response` | none | the responder declines to answer |
//! | `DuplexInitial` | any | opens a duplex under a fresh id of the sender |
//! | `DuplexRequest` | some | an item from the side that opened the duplex |
//! | `DuplexResponse` | some | an item from the side that accepted it |
//! | `DuplexRequestEnd` | any | the opening side sends no more; data is an error |
//! | `DuplexResponseEnd` | any | the accepting side sends no more; data is an error |
//!
//! A request of this side is forgotten as soon as its handle has the answer,
//! withdraws the request or is released, and a request of the peer as soon
//! as its handle answers, declines or is released; releasing sends nothing.
//! A duplex is forgotten when its handle is released and the peer has ended
//! its direction. Until the peer has, a released duplex stays behind to
//! discard what the peer still sends.

use vstd::prelude::*;
use futures::Async;
use crate::error::ClosedDialogue;
use crate::error::ProtocolViolation;
use crate::error::SubStreamError;
use crate::packet::Frame;
use crate::packet::PacketId;
use crate::packet::PacketType;
use crate::role::opens;

verus! {

/// Where a request of this side stands while the dialogue tracks it.
pub enum PendingRequest<D> {
    /// No response has arrived.
    AwaitingResponse,
    /// The response has arrived and waits for the handle to take it.
    Resolved(D),
    /// The peer has declined to answer, and the handle has not seen it yet.
    PeerDeclined,
}

/// This side's sending direction of a duplex.
#[derive(Debug, PartialEq, Eq, Clone, Copy, Structural)]
pub enum Sending {
    /// Items can be sent.
    Open,
    /// This side has closed its direction and still listens to the peer.
    HalfClosed,
    /// This side has aborted the duplex: it neither sends nor listens.
    Aborted,
}

/// The peer's sending direction of a duplex, as this side has observed it.
pub enum Receiving<D> {
    /// The peer has not ended its direction.
    Open,
    /// The peer has ended its direction; the error it gave, if any, waits
    /// for the handle.
    Ended(Option<D>),
}

impl<D> Receiving<D> {
    /// Returns whether the peer has not ended its direction.
    pub fn is_open(&self) -> (open: bool)
        ensures
            open == (self is Open),
    {
        match self {
            Receiving::Open => true,
            Receiving::Ended(_) => false,
        }
    }
}

/// One duplex that the dialogue tracks.
pub struct DuplexState<D> {
    /// This side's direction.
    pub sending: Sending,
    /// The peer's direction.
    pub receiving: Receiving<D>,
    /// The items that have arrived and that the handle has not taken.
    pub inbox: Seq<D>,
    /// Whether the handle of the duplex still exists.
    pub attached: bool,
}

impl<D> DuplexState<D> {
    /// A duplex as it starts: both directions open, nothing received.
    pub open spec fn fresh() -> Self {
        DuplexState {
            sending: Sending::Open,
            receiving: Receiving::Open,
            inbox: Seq::empty(),
            attached: true,
        }
    }

    /// An aborted duplex holds no items, and a duplex without a handle is
    /// aborted and waits for the peer's end.
    pub open spec fn wf(self) -> bool {
        &&& self.sending == Sending::Aborted ==> self.inbox.len() == 0
        &&& !self.attached ==> self.sending == Sending::Aborted && self.receiving is Open
    }
}

/// What a dialogue does with an incoming packet.
pub enum Verdict {
    /// The packet belongs to a tracked conversation, which takes it, or it
    /// has nothing left to say and is dropped.
    Consumed,
    /// The packet is handed to the application: a message, or the opening
    /// of a request or duplex under a fresh id.
    Fresh,
    /// The packet breaks the protocol; the dialogue closes.
    Violation(ProtocolViolation),
}

/// The packet type of the items that a side sends on a duplex.
pub open spec fn item_type(opened_here: bool) -> PacketType {
    if opened_here {
        PacketType::DuplexRequest
    } else {
        PacketType::DuplexResponse
    }
}

/// The packet type with which a side ends its direction of a duplex.
pub open spec fn end_type(opened_here: bool) -> PacketType {
    if opened_here {
        PacketType::DuplexRequestEnd
    } else {
        PacketType::DuplexResponseEnd
    }
}

/// Whether packets of this type come from the side that opened the duplex.
pub open spec fn from_opener(t: PacketType) -> bool {
    t == PacketType::DuplexRequest || t == PacketType::DuplexRequestEnd
}

/// Whether packets of this type end a direction of a duplex.
pub open spec fn is_end(t: PacketType) -> bool {
    t == PacketType::DuplexRequestEnd || t == PacketType::DuplexResponseEnd
}

/// The `k`-th id that is tried when a conversation is opened: the ids of
/// one side in rising order from `next_id`, going round at the top.
pub open spec fn candidate(next_id: PacketId, k: nat) -> PacketId {
    ((next_id + 2 * k) % 0x1_0000_0000) as PacketId
}

/// The state of a dialogue.
#[verifier::ext_equal]
pub struct DialogueState<D> {
    /// Whether this side has the server role.
    pub server: bool,
    /// Whether the dialogue has shut down.
    pub closed: bool,
    /// The id at which the search for a free id starts.
    pub next_id: PacketId,
    /// The requests of this side whose handles still wait or have not taken
    /// the outcome.
    pub responses: Map<PacketId, PendingRequest<D>>,
    /// The requests of the peer that are unanswered, each with whether the
    /// peer has withdrawn it.
    pub requests: Map<PacketId, bool>,
    /// The duplexes, whichever side opened them.
    pub duplexes: Map<PacketId, DuplexState<D>>,
    /// The packets that are staged and not yet handed to the transport,
    /// oldest first.
    pub outgoing: Seq<Frame<D>>,
}

impl<D> DialogueState<D> {
    /// A dialogue before anything has happened, which looks for its ids
    /// from `first` on: from `first` itself where that is an id of this
    /// side, else from the id after it, round at the top.
    pub open spec fn initial_at(server: bool, first: PacketId) -> Self {
        DialogueState {
            server,
            closed: false,
            next_id: if opens(server, first) {
                first
            } else {
                ((first + 1) % 0x1_0000_0000) as PacketId
            },
            responses: Map::empty(),
            requests: Map::empty(),
            duplexes: Map::empty(),
            outgoing: Seq::empty(),
        }
    }

    /// A dialogue before anything has happened, which looks for its ids
    /// from 0 on: a server opens its first conversation under id 0, a
    /// client under id 1.
    pub open spec fn initial(server: bool) -> Self {
        Self::initial_at(server, 0)
    }

    /// Whether `id` is one under which this side opens conversations.
    pub open spec fn local(self, id: PacketId) -> bool {
        opens(self.server, id)
    }

    /// Whether a conversation is tracked under `id`.
    pub open spec fn tracks(self, id: PacketId) -> bool {
        ||| self.responses.contains_key(id)
        ||| self.requests.contains_key(id)
        ||| self.duplexes.contains_key(id)
    }

    /// The invariant of the bookkeeping: an id is tracked in at most one
    /// table, requests of this side stand under ids of this side and
    /// requests of the peer under ids of the peer, and a closed dialogue
    /// tracks nothing.
    pub open spec fn wf(self) -> bool {
        &&& self.local(self.next_id)
        &&& forall|id: PacketId| #[trigger]
            self.responses.contains_key(id) ==> self.local(id) && !self.duplexes.contains_key(id)
        &&& forall|id: PacketId| #[trigger]
            self.requests.contains_key(id) ==> !self.local(id) && !self.duplexes.contains_key(id)
        &&& forall|id: PacketId| #[trigger]
            self.duplexes.contains_key(id) ==> self.duplexes[id].wf()
        &&& self.closed ==> {
            &&& self.responses == Map::<PacketId, PendingRequest<D>>::empty()
            &&& self.requests == Map::<PacketId, bool>::empty()
            &&& self.duplexes == Map::<PacketId, DuplexState<D>>::empty()
        }
    }

    /// The dialogue with one more packet staged.
    pub open spec fn stage(self, frame: Frame<D>) -> Self {
        DialogueState { outgoing: self.outgoing.push(frame), ..self }
    }

    /// The dialogue shut down: every conversation is forgotten. What was
    /// staged stays staged.
    pub open spec fn close(self) -> Self {
        DialogueState {
            closed: true,
            responses: Map::empty(),
            requests: Map::empty(),
            duplexes: Map::empty(),
            ..self
        }
    }

    /// The dialogue after `message(data)`.
    pub open spec fn message(self, data: D) -> Self {
        if self.closed {
            self
        } else {
            self.stage(Frame { id: 0, packet_type: PacketType::Message, data: Some(data) })
        }
    }

    // ----- opening conversations -----

    /// Whether the `k`-th candidate is the first free one.
    pub open spec fn first_free(self, k: nat) -> bool {
        &&& k < 0x8000_0000
        &&& !self.tracks(candidate(self.next_id, k))
        &&& forall|j: nat| j < k ==> self.tracks(#[trigger] candidate(self.next_id, j))
    }

    /// The id under which the next conversation of this side opens: the
    /// first id from `next_id` on, in rising order and round at the top,
    /// that is this side's and tracks nothing. `None` when every id of this
    /// side is taken.
    pub open spec fn fresh_id(self) -> Option<PacketId> {
        if exists|k: nat| self.first_free(k) {
            Some(candidate(self.next_id, choose|k: nat| self.first_free(k)))
        } else {
            None
        }
    }

    /// The dialogue after `request(data)`: closed if it was closed or has
    /// no id left, else with the request staged and awaited.
    pub open spec fn open_request(self, data: D) -> Self {
        if self.closed {
            self
        } else {
            match self.fresh_id() {
                None => self.close(),
                Some(id) => DialogueState {
                    next_id: candidate(id, 1),
                    responses: self.responses.insert(id, PendingRequest::AwaitingResponse),
                    ..self.stage(
                        Frame { id, packet_type: PacketType::Request, data: Some(data) },
                    )
                },
            }
        }
    }

    /// The dialogue after `sub_duplex(data)`: closed if it was closed or
    /// has no id left, else with the opening staged and the duplex tracked.
    pub open spec fn open_duplex(self, data: D) -> Self {
        if self.closed {
            self
        } else {
            match self.fresh_id() {
                None => self.close(),
                Some(id) => DialogueState {
                    next_id: candidate(id, 1),
                    duplexes: self.duplexes.insert(id, DuplexState::fresh()),
                    ..self.stage(
                        Frame { id, packet_type: PacketType::DuplexInitial, data: Some(data) },
                    )
                },
            }
        }
    }

    /// Whether the peer may open a conversation under `id` now.
    pub open spec fn acceptable(self, id: PacketId) -> bool {
        !self.closed && !self.tracks(id) && !self.local(id)
    }

    /// The dialogue after `packet_as_request` on a packet of this id: the
    /// request is tracked, or, where the id is taken or not the peer's, the
    /// dialogue closes.
    pub open spec fn accept_request(self, id: PacketId) -> Self {
        if self.closed {
            self
        } else if self.acceptable(id) {
            DialogueState { requests: self.requests.insert(id, false), ..self }
        } else {
            self.close()
        }
    }

    /// The dialogue after `packet_as_sub_duplex` on a packet of this id:
    /// the duplex is tracked, or, where the id is taken or not the peer's,
    /// the dialogue closes.
    pub open spec fn accept_duplex(self, id: PacketId) -> Self {
        if self.closed {
            self
        } else if self.acceptable(id) {
            DialogueState { duplexes: self.duplexes.insert(id, DuplexState::fresh()), ..self }
        } else {
            self.close()
        }
    }

    // ----- incoming packets -----

    /// What becomes of an incoming packet.
    pub open spec fn verdict(self, frame: Frame<D>) -> Verdict {
        let id = frame.id;
        if self.closed {
            Verdict::Consumed
        } else {
            match frame.packet_type {
                PacketType::Message => Verdict::Fresh,
                PacketType::Request => {
                    if self.requests.contains_key(id) {
                        if frame.data is None {
                            Verdict::Consumed
                        } else {
                            Verdict::Violation(ProtocolViolation::UnexpectedPacket)
                        }
                    } else if self.tracks(id) {
                        Verdict::Violation(ProtocolViolation::UnexpectedPacket)
                    } else if self.local(id) {
                        Verdict::Violation(ProtocolViolation::WrongIdParity)
                    } else if frame.data is Some {
                        Verdict::Fresh
                    } else {
                        Verdict::Consumed
                    }
                },
                PacketType::Response => {
                    if self.responses.contains_key(id) {
                        if self.responses[id] is AwaitingResponse {
                            Verdict::Consumed
                        } else {
                            Verdict::Violation(ProtocolViolation::UnexpectedPacket)
                        }
                    } else if self.tracks(id) {
                        Verdict::Violation(ProtocolViolation::UnexpectedPacket)
                    } else {
                        Verdict::Violation(ProtocolViolation::UnknownId)
                    }
                },
                PacketType::DuplexInitial => {
                    if self.tracks(id) {
                        Verdict::Violation(ProtocolViolation::UnexpectedPacket)
                    } else if self.local(id) {
                        Verdict::Violation(ProtocolViolation::WrongIdParity)
                    } else {
                        Verdict::Fresh
                    }
                },
                t => {
                    if self.duplexes.contains_key(id) {
                        if self.local(id) == from_opener(t) || !(self.duplexes[id].receiving
                            is Open) || (!is_end(t) && frame.data is None) {
                            Verdict::Violation(ProtocolViolation::UnexpectedPacket)
                        } else {
                            Verdict::Consumed
                        }
                    } else if self.tracks(id) {
                        Verdict::Violation(ProtocolViolation::UnexpectedPacket)
                    } else {
                        Verdict::Violation(ProtocolViolation::UnknownId)
                    }
                },
            }
        }
    }

    /// The duplex `id` after the peer's packet `frame`, which it can take.
    pub open spec fn duplex_takes(self, frame: Frame<D>) -> DuplexState<D> {
        let duplex = self.duplexes[frame.id];
        if is_end(frame.packet_type) {
            DuplexState { receiving: Receiving::Ended(frame.data), ..duplex }
        } else if duplex.sending == Sending::Aborted {
            duplex
        } else {
            DuplexState { inbox: duplex.inbox.push(frame.data.unwrap()), ..duplex }
        }
    }

    /// The dialogue after an incoming packet.
    pub open spec fn deliver(self, frame: Frame<D>) -> Self {
        let id = frame.id;
        match self.verdict(frame) {
            Verdict::Violation(_) => self.close(),
            Verdict::Fresh => self,
            Verdict::Consumed => {
                if self.closed {
                    self
                } else {
                    match frame.packet_type {
                        PacketType::Request => {
                            if self.requests.contains_key(id) {
                                DialogueState { requests: self.requests.insert(id, true), ..self }
                            } else {
                                self
                            }
                        },
                        PacketType::Response => DialogueState {
                            responses: self.responses.insert(
                                id,
                                match frame.data {
                                    Some(data) => PendingRequest::Resolved(data),
                                    None => PendingRequest::PeerDeclined,
                                },
                            ),
                            ..self
                        },
                        t => {
                            if is_end(t) && !self.duplexes[id].attached {
                                DialogueState { duplexes: self.duplexes.remove(id), ..self }
                            } else {
                                DialogueState {
                                    duplexes: self.duplexes.insert(id, self.duplex_takes(frame)),
                                    ..self
                                }
                            }
                        },
                    }
                }
            },
        }
    }

    // ----- the handle of a request of this side -----

    /// What polling the response of request `id` yields.
    pub open spec fn response_outcome(self, id: PacketId) -> Result<
        Async<Option<D>>,
        ClosedDialogue,
    > {
        if self.closed {
            Err(ClosedDialogue)
        } else if self.responses.contains_key(id) {
            match self.responses[id] {
                PendingRequest::AwaitingResponse => Ok(Async::NotReady),
                PendingRequest::Resolved(data) => Ok(Async::Ready(Some(data))),
                PendingRequest::PeerDeclined => Ok(Async::Ready(None)),
            }
        } else {
            Ok(Async::NotReady)
        }
    }

    /// The dialogue after polling the response of request `id`: an outcome
    /// that is handed out is forgotten.
    pub open spec fn take_response(self, id: PacketId) -> Self {
        if !self.closed && self.responses.contains_key(id) && !(self.responses[id]
            is AwaitingResponse) {
            DialogueState { responses: self.responses.remove(id), ..self }
        } else {
            self
        }
    }

    /// The dialogue after the handle withdraws request `id`: a request that
    /// still waits is withdrawn from the peer, and in any case forgotten.
    pub open spec fn withdraw_request(self, id: PacketId) -> Self {
        if !self.closed && self.responses.contains_key(id) {
            let forgotten = DialogueState { responses: self.responses.remove(id), ..self };
            if self.responses[id] is AwaitingResponse {
                forgotten.stage(Frame { id, packet_type: PacketType::Request, data: None })
            } else {
                forgotten
            }
        } else {
            self
        }
    }

    /// The dialogue after the handle of request `id` is released: the
    /// request is forgotten and nothing is sent.
    pub open spec fn forget_response(self, id: PacketId) -> Self {
        DialogueState { responses: self.responses.remove(id), ..self }
    }

    // ----- the handle of a request of the peer -----

    /// Whether the handle of the peer's request `id` can still act.
    pub open spec fn answerable(self, id: PacketId) -> bool {
        !self.closed && self.requests.contains_key(id)
    }

    /// The dialogue after the handle of the peer's request `id` answers
    /// with `data` (`Some`) or declines (`None`): the packet is staged
    /// unless the peer has withdrawn the request, and the request is
    /// forgotten.
    pub open spec fn answer(self, id: PacketId, data: Option<D>) -> Self {
        if self.answerable(id) {
            let forgotten = DialogueState { requests: self.requests.remove(id), ..self };
            if self.requests[id] {
                forgotten
            } else {
                forgotten.stage(Frame { id, packet_type: PacketType::Response, data })
            }
        } else {
            self
        }
    }

    /// The dialogue after the handle of the peer's request `id` is
    /// released: the request is forgotten and nothing is sent.
    pub open spec fn forget_request(self, id: PacketId) -> Self {
        DialogueState { requests: self.requests.remove(id), ..self }
    }

    /// Whether the peer has withdrawn its request `id`.
    pub open spec fn withdrawn(self, id: PacketId) -> bool {
        self.requests.contains_key(id) && self.requests[id]
    }

    /// Whether an answer to the peer's request `id` has become pointless:
    /// the peer has withdrawn the request, or the dialogue is closed.
    pub open spec fn moot(self, id: PacketId) -> bool {
        self.closed || self.withdrawn(id)
    }

    // ----- the handle of a duplex -----

    /// Whether a handle for duplex `id`, opened here or by the peer as
    /// `opened_here` says, can act on it.
    pub open spec fn duplex_live(self, id: PacketId, opened_here: bool) -> bool {
        &&& !self.closed
        &&& self.duplexes.contains_key(id)
        &&& self.duplexes[id].attached
        &&& self.local(id) == opened_here
    }

    /// Whether an item can be sent on duplex `id`.
    pub open spec fn can_send(self, id: PacketId, opened_here: bool) -> bool {
        self.duplex_live(id, opened_here) && self.duplexes[id].sending == Sending::Open
    }

    /// The dialogue after the handle sends `item` on duplex `id`.
    pub open spec fn send_item(self, id: PacketId, opened_here: bool, item: D) -> Self {
        if self.can_send(id, opened_here) {
            self.stage(Frame { id, packet_type: item_type(opened_here), data: Some(item) })
        } else {
            self
        }
    }

    /// The dialogue after the handle closes its direction of duplex `id`,
    /// with an error or without: the end is staged behind everything sent
    /// before. Closing a direction that is not open changes nothing.
    pub open spec fn half_close(self, id: PacketId, opened_here: bool, error: Option<D>) -> Self {
        if self.can_send(id, opened_here) {
            DialogueState {
                duplexes: self.duplexes.insert(
                    id,
                    DuplexState { sending: Sending::HalfClosed, ..self.duplexes[id] },
                ),
                ..self.stage(Frame { id, packet_type: end_type(opened_here), data: error })
            }
        } else {
            self
        }
    }

    /// Whether a staged packet is an item of duplex `id` sent by this side.
    pub open spec fn is_item_of(frame: Frame<D>, id: PacketId, opened_here: bool) -> bool {
        frame.id == id && frame.packet_type == item_type(opened_here)
    }

    /// The test that keeps every staged packet but the items of duplex `id`.
    pub open spec fn keeps(id: PacketId, opened_here: bool) -> spec_fn(Frame<D>) -> bool {
        |frame: Frame<D>| !Self::is_item_of(frame, id, opened_here)
    }

    /// What is staged, without the items of duplex `id`.
    pub open spec fn without_items_of(self, id: PacketId, opened_here: bool) -> Seq<Frame<D>> {
        self.outgoing.filter(Self::keeps(id, opened_here))
    }

    /// The dialogue after the handle aborts duplex `id`, with an error or
    /// without: its staged items are dropped, the end is staged if the
    /// direction was open, and what has arrived for it is discarded.
    pub open spec fn abort(self, id: PacketId, opened_here: bool, error: Option<D>) -> Self {
        if self.duplex_live(id, opened_here) {
            let kept = self.without_items_of(id, opened_here);
            DialogueState {
                duplexes: self.duplexes.insert(
                    id,
                    DuplexState {
                        sending: Sending::Aborted,
                        inbox: Seq::empty(),
                        ..self.duplexes[id]
                    },
                ),
                outgoing: if self.duplexes[id].sending == Sending::Open {
                    kept.push(Frame { id, packet_type: end_type(opened_here), data: error })
                } else {
                    kept
                },
                ..self
            }
        } else {
            self
        }
    }

    /// What the receiving half of duplex `id` yields next.
    pub open spec fn receive_outcome(self, id: PacketId, opened_here: bool) -> Result<
        Async<Option<D>>,
        SubStreamError<D>,
    > {
        if !self.duplex_live(id, opened_here) {
            Err(SubStreamError::ClosedDialogue)
        } else {
            let duplex = self.duplexes[id];
            if duplex.sending == Sending::Aborted {
                Ok(Async::Ready(None))
            } else if duplex.inbox.len() > 0 {
                Ok(Async::Ready(Some(duplex.inbox[0])))
            } else {
                match duplex.receiving {
                    Receiving::Open => Ok(Async::NotReady),
                    Receiving::Ended(None) => Ok(Async::Ready(None)),
                    Receiving::Ended(Some(error)) => Err(SubStreamError::EndWithError(error)),
                }
            }
        }
    }

    /// The dialogue after the receiving half of duplex `id` is polled: an
    /// item or an error that is handed out is gone.
    pub open spec fn receive(self, id: PacketId, opened_here: bool) -> Self {
        if !self.duplex_live(id, opened_here) {
            self
        } else {
            let duplex = self.duplexes[id];
            if duplex.sending == Sending::Aborted {
                self
            } else if duplex.inbox.len() > 0 {
                DialogueState {
                    duplexes: self.duplexes.insert(
                        id,
                        DuplexState { inbox: duplex.inbox.subrange(1, duplex.inbox.len() as int), ..duplex },
                    ),
                    ..self
                }
            } else if duplex.receiving is Ended {
                DialogueState {
                    duplexes: self.duplexes.insert(
                        id,
                        DuplexState { receiving: Receiving::Ended(None), ..duplex },
                    ),
                    ..self
                }
            } else {
                self
            }
        }
    }

    /// The dialogue after the handle of duplex `id` is released: the
    /// duplex is aborted, and forgotten if the peer has ended its
    /// direction; else it stays behind without a handle.
    pub open spec fn release_duplex(self, id: PacketId, opened_here: bool) -> Self {
        if self.duplex_live(id, opened_here) {
            let aborted = self.abort(id, opened_here, None);
            if self.duplexes[id].receiving is Open {
                DialogueState {
                    duplexes: aborted.duplexes.insert(
                        id,
                        DuplexState { attached: false, ..aborted.duplexes[id] },
                    ),
                    ..aborted
                }
            } else {
                DialogueState { duplexes: aborted.duplexes.remove(id), ..aborted }
            }
        } else {
            self
        }
    }

    // ----- handing packets to the transport -----

    /// The dialogue after its oldest staged packet is handed out.
    pub open spec fn unstage(self) -> Self {
        if self.outgoing.len() > 0 {
            DialogueState { outgoing: self.outgoing.subrange(1, self.outgoing.len() as int), ..self }
        } else {
            self
        }
    }

    /// The dialogue after a packet that the transport could not take is
    /// put back in front of what is staged.
    pub open spec fn restage(self, frame: Frame<D>) -> Self {
        DialogueState { outgoing: seq![frame] + self.outgoing, ..self }
    }
}

} // verus!
