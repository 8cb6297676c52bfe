//! The dialogue: the multiplexer over one transport.

use vstd::prelude::*;
use std::collections::HashMap;
use std::collections::VecDeque;
use std::marker::PhantomData;
use futures::Async;
use futures::AsyncSink;
use crate::error::ClosedDialogue;
use crate::error::ProtocolViolation;
use crate::error::SubStreamError;
use crate::model::DialogueState;
use crate::model::DuplexState;
use crate::model::PendingRequest;
use crate::model::Receiving;
use crate::model::Sending;
use crate::model::Verdict;
use crate::model::candidate;
use crate::model::end_type;
use crate::model::from_opener as sent_by_opener;
use crate::model::is_end;
use crate::model::item_type;
use crate::packet::Frame;
use crate::packet::PacketId;
use crate::packet::PacketReadable;
use crate::packet::PacketType;
use crate::packet::PacketWritable;
use crate::preservation::lemma_accept_keeps_wf;
use crate::preservation::lemma_deliver_keeps_wf;
use crate::preservation::lemma_duplex_steps_keep_wf;
use crate::preservation::lemma_first_free_is_fresh;
use crate::preservation::lemma_fresh_id_is_free;
use crate::preservation::lemma_open_duplex_keeps_wf;
use crate::preservation::lemma_open_request_keeps_wf;
use crate::preservation::lemma_request_steps_keep_wf;
use crate::request::Request;
use crate::request::Response;
use crate::role::Role;
use crate::sub_duplex::InSubDuplex;
use crate::sub_duplex::OutSubDuplex;
use crate::sub_duplex::SubDuplex;

verus! {

/// One duplex as the dialogue holds it.
pub(crate) struct Duplex<Data> {
    pub(crate) sending: Sending,
    pub(crate) receiving: Receiving<Data>,
    pub(crate) inbox: VecDeque<Data>,
    pub(crate) attached: bool,
}

impl<Data> View for Duplex<Data> {
    type V = DuplexState<Data>;

    closed spec fn view(&self) -> DuplexState<Data> {
        DuplexState {
            sending: self.sending,
            receiving: self.receiving,
            inbox: self.inbox@,
            attached: self.attached,
        }
    }
}

/// The main struct for communicating with a peer.
///
/// A dialogue owns the bookkeeping of every conversation and the packets
/// that are staged for the transport. It performs no input or output: the
/// owner of the transport hands it each incoming packet through `dispatch`
/// and takes the staged packets through `next_outgoing`.
pub struct Dialogue<P, Data, R> {
    closed: bool,
    next_id: PacketId,
    responses: HashMap<PacketId, PendingRequest<Data>>,
    requests: HashMap<PacketId, bool>,
    duplexes: HashMap<PacketId, Duplex<Data>>,
    outgoing: VecDeque<P>,
    role: PhantomData<R>,
}

impl<P, Data, R> View for Dialogue<P, Data, R> where P: PacketWritable<Data = Data>, R: Role {
    type V = DialogueState<Data>;

    closed spec fn view(&self) -> DialogueState<Data> {
        DialogueState {
            server: R::server(),
            closed: self.closed,
            next_id: self.next_id,
            responses: self.responses@,
            requests: self.requests@,
            duplexes: self.duplexes@.map_values(|duplex: Duplex<Data>| duplex@),
            outgoing: frames_of(self.outgoing@),
        }
    }
}

impl<P, Data, R> Dialogue<P, Data, R> where P: PacketWritable<Data = Data>, R: Role {
    /// The invariant of a dialogue: that of its state.
    pub open spec fn wf(&self) -> bool {
        self@.wf()
    }

    /// Creates a dialogue that tracks nothing and has nothing staged.
    pub fn new() -> (dialogue: Self)
        ensures
            dialogue.wf(),
            dialogue@ == DialogueState::<Data>::initial(R::server()),
    {
        Self::starting_at(0)
    }

    /// Creates a dialogue that tracks nothing, has nothing staged, and
    /// opens its first conversation under the first id of this side from
    /// `first` on. A dialogue that takes over from an earlier one can so
    /// stay clear of the ids that one has used last.
    pub fn starting_at(first: PacketId) -> (dialogue: Self)
        ensures
            dialogue.wf(),
            dialogue@ == DialogueState::<Data>::initial_at(R::server(), first),
    {
        let dialogue = Dialogue {
            closed: false,
            next_id: if (first % 2 == 0) == R::is_server() {
                first
            } else {
                first.wrapping_add(1)
            },
            responses: HashMap::new(),
            requests: HashMap::new(),
            duplexes: HashMap::new(),
            outgoing: VecDeque::new(),
            role: PhantomData,
        };
        assert(dialogue@ =~= DialogueState::<Data>::initial_at(R::server(), first));
        dialogue
    }

    /// Returns whether the dialogue has shut down.
    pub fn is_closed(&self) -> (closed: bool)
        ensures
            closed == self@.closed,
    {
        self.closed
    }

    /// Shuts the dialogue down: every conversation is forgotten, and from
    /// now on every handle reports `ClosedDialogue`. Packets that are
    /// staged stay so.
    pub fn close(&mut self)
        ensures
            final(self)@ == old(self)@.close(),
            old(self).wf() ==> final(self).wf(),
    {
        self.closed = true;
        self.responses.clear();
        self.requests.clear();
        self.duplexes.clear();
        assert(self@ =~= old(self)@.close());
    }

    /// Stages one packet behind those that are staged.
    fn stage(&mut self, id: PacketId, packet_type: PacketType, data: Option<Data>)
        ensures
            final(self)@ == old(self)@.stage(Frame { id, packet_type, data }),
    {
        let mut packet = P::new(data);
        packet.set_id(id);
        packet.set_type(packet_type);
        self.outgoing.push_back(packet);
        assert(self@.outgoing =~= old(self)@.outgoing.push(Frame { id, packet_type, data }));
    }

    /// Start sending the given data as a message.
    ///
    /// The message is staged unless the dialogue is closed; staging never
    /// has to wait.
    pub fn message(&mut self, data: Data) -> (sent: Result<AsyncSink<P>, ClosedDialogue>)
        ensures
            final(self)@ == old(self)@.message(data),
            sent == (if old(self)@.closed {
                Err::<AsyncSink<P>, ClosedDialogue>(ClosedDialogue)
            } else {
                Ok::<AsyncSink<P>, ClosedDialogue>(AsyncSink::Ready)
            }),
            old(self).wf() ==> final(self).wf(),
    {
        if self.closed {
            Err(ClosedDialogue)
        } else {
            self.stage(0, PacketType::Message, Some(data));
            Ok(AsyncSink::Ready)
        }
    }

    /// Returns whether a conversation is tracked under `id`.
    pub fn is_tracked(&self, id: PacketId) -> (known: bool)
        ensures
            known == self@.tracks(id),
    {
        self.responses.contains_key(&id) || self.requests.contains_key(&id)
            || self.duplexes.contains_key(&id)
    }

    /// Finds the id for the next conversation that this side opens.
    fn allocate(&self) -> (id: Option<PacketId>)
        ensures
            id == self@.fresh_id(),
    {
        let mut id = self.next_id;
        let mut k: u32 = 0;
        while k < 0x8000_0000
            invariant
                k <= 0x8000_0000,
                id == candidate(self.next_id, k as nat),
                forall|j: nat| j < k ==> self@.tracks(#[trigger] candidate(self@.next_id, j)),
            decreases 0x8000_0000 - k,
        {
            if !self.is_tracked(id) {
                proof {
                    lemma_first_free_is_fresh(self@, k as nat);
                }
                return Some(id);
            }
            id = id.wrapping_add(2);
            k = k + 1;
        }
        None
    }

    /// Start sending the given data as a request.
    ///
    /// The request is staged under the fresh id of the state, and the
    /// handle waits for its response. Where the dialogue is closed, or
    /// every id of this side is taken, which closes it, nothing is staged
    /// and the handle reports `ClosedDialogue`.
    pub fn request(&mut self, data: Data) -> (response: Response)
        requires
            old(self).wf(),
        ensures
            final(self).wf(),
            final(self)@ == old(self)@.open_request(data),
            !old(self)@.closed && old(self)@.fresh_id().is_some() ==> {
                &&& response.id() == old(self)@.fresh_id().unwrap()
                &&& !response.done()
                &&& !old(self)@.tracks(response.id())
                &&& final(self)@.responses.contains_key(response.id())
            },
            old(self)@.closed || old(self)@.fresh_id().is_none() ==> {
                &&& final(self)@.closed
                &&& response.done()
                &&& response.id() == 0
            },
    {
        proof {
            lemma_open_request_keeps_wf(self@, data);
        }
        if self.closed {
            return Response::spent();
        }
        match self.allocate() {
            None => {
                self.close();
                Response::spent()
            },
            Some(id) => {
                proof {
                    lemma_fresh_id_is_free(self@);
                }
                self.stage(id, PacketType::Request, Some(data));
                self.responses.insert(id, PendingRequest::AwaitingResponse);
                self.next_id = id.wrapping_add(2);
                assert(self@ =~= old(self)@.open_request(data));
                Response::awaiting(id)
            },
        }
    }

    /// Start sending the given data as a duplex.
    ///
    /// The opening is staged under the fresh id of the state, and the
    /// duplex is tracked with both directions open. Where the dialogue is
    /// closed, or every id of this side is taken, which closes it, nothing
    /// is staged and the handle reports `ClosedDialogue`.
    pub fn sub_duplex(&mut self, data: Data) -> (duplex: SubDuplex<OutSubDuplex>)
        requires
            old(self).wf(),
        ensures
            final(self).wf(),
            final(self)@ == old(self)@.open_duplex(data),
            !old(self)@.closed && old(self)@.fresh_id().is_some() ==> {
                &&& duplex.id() == old(self)@.fresh_id().unwrap()
                &&& !old(self)@.tracks(duplex.id())
                &&& final(self)@.duplex_live(duplex.id(), true)
            },
            old(self)@.closed || old(self)@.fresh_id().is_none() ==> {
                &&& final(self)@.closed
                &&& duplex.id() == 0
            },
    {
        proof {
            lemma_open_duplex_keeps_wf(self@, data);
        }
        if self.closed {
            return SubDuplex::attach(0);
        }
        match self.allocate() {
            None => {
                self.close();
                SubDuplex::attach(0)
            },
            Some(id) => {
                proof {
                    lemma_fresh_id_is_free(self@);
                }
                self.stage(id, PacketType::DuplexInitial, Some(data));
                self.duplexes.insert(id, Duplex::fresh());
                self.next_id = id.wrapping_add(2);
                assert(self@ =~= old(self)@.open_duplex(data));
                SubDuplex::attach(id)
            },
        }
    }

    /// Returns whether this side opens conversations under `id`.
    pub fn is_local(&self, id: PacketId) -> (local: bool)
        ensures
            local == self@.local(id),
    {
        (id % 2 == 0) == R::is_server()
    }

    /// Returns whether the peer may open a conversation under `id` now.
    fn is_acceptable(&self, id: PacketId) -> (acceptable: bool)
        ensures
            acceptable == self@.acceptable(id),
    {
        !self.closed && !self.is_tracked(id) && !self.is_local(id)
    }

    /// Creates a `Request` which allows correct handling of the packet. Use
    /// this for the incoming packets of type `PacketType::Request` that
    /// `dispatch` hands out.
    ///
    /// The request is tracked from now on, so that the handle learns when
    /// the peer withdraws it. A packet whose id is taken, or is not one of
    /// the peer's, closes the dialogue.
    pub fn packet_as_request(&mut self, packet: P) -> (request: Request<P>)
        requires
            old(self).wf(),
            packet.frame().packet_type == PacketType::Request,
            packet.frame().data.is_some(),
        ensures
            final(self).wf(),
            final(self)@ == old(self)@.accept_request(packet.frame().id),
            request.packet() == packet,
    {
        proof {
            lemma_accept_keeps_wf(self@, packet.frame().id);
        }
        let id = packet.get_id();
        if !self.closed {
            if self.is_acceptable(id) {
                self.requests.insert(id, false);
                assert(self@ =~= old(self)@.accept_request(id));
            } else {
                self.close();
            }
        }
        Request::watching(packet)
    }

    /// Creates a `SubDuplex` which allows correct handling of the packet.
    /// Use this for the incoming packets of type `PacketType::DuplexInitial`
    /// that `dispatch` hands out.
    ///
    /// The duplex is tracked from now on, with both directions open. A
    /// packet whose id is taken, or is not one of the peer's, closes the
    /// dialogue.
    pub fn packet_as_sub_duplex(&mut self, packet: P) -> (duplex: SubDuplex<InSubDuplex>)
        requires
            old(self).wf(),
            packet.frame().packet_type == PacketType::DuplexInitial,
        ensures
            final(self).wf(),
            final(self)@ == old(self)@.accept_duplex(packet.frame().id),
            duplex.id() == packet.frame().id,
    {
        proof {
            lemma_accept_keeps_wf(self@, packet.frame().id);
        }
        let id = packet.get_id();
        if !self.closed {
            if self.is_acceptable(id) {
                self.duplexes.insert(id, Duplex::fresh());
                assert(self@ =~= old(self)@.accept_duplex(id));
            } else {
                self.close();
            }
        }
        SubDuplex::attach(id)
    }

    /// Closes the dialogue over a packet that breaks the protocol.
    fn reject(&mut self, violation: ProtocolViolation) -> (routed: Result<
        Option<P>,
        ProtocolViolation,
    >)
        ensures
            final(self)@ == old(self)@.close(),
            routed == Err::<Option<P>, ProtocolViolation>(violation),
    {
        self.close();
        Err(violation)
    }

    /// Routes one incoming packet.
    ///
    /// A packet of a tracked conversation feeds that conversation. A
    /// message, and the opening of a request or of a duplex under a fresh
    /// id of the peer, is handed back for the application. A withdrawal of
    /// a request that is no longer tracked is dropped. Every other packet
    /// breaks the protocol: the dialogue closes and the violation is
    /// returned. A closed dialogue drops what arrives.
    pub fn dispatch(&mut self, packet: P) -> (routed: Result<Option<P>, ProtocolViolation>)
        requires
            old(self).wf(),
        ensures
            final(self).wf(),
            final(self)@ == old(self)@.deliver(packet.frame()),
            routed == (match old(self)@.verdict(packet.frame()) {
                Verdict::Consumed => Ok::<Option<P>, ProtocolViolation>(None),
                Verdict::Fresh => Ok::<Option<P>, ProtocolViolation>(Some(packet)),
                Verdict::Violation(violation) => Err::<Option<P>, ProtocolViolation>(violation),
            }),
    {
        proof {
            lemma_deliver_keeps_wf(self@, packet.frame());
        }
        if self.closed {
            return Ok(None);
        }
        let id = packet.get_id();
        match packet.get_type() {
            PacketType::Message => Ok(Some(packet)),
            PacketType::Request => {
                if self.requests.contains_key(&id) {
                    if packet.is_empty() {
                        self.requests.insert(id, true);
                        assert(self@ =~= old(self)@.deliver(packet.frame()));
                        Ok(None)
                    } else {
                        self.reject(ProtocolViolation::UnexpectedPacket)
                    }
                } else if self.is_tracked(id) {
                    self.reject(ProtocolViolation::UnexpectedPacket)
                } else if self.is_local(id) {
                    self.reject(ProtocolViolation::WrongIdParity)
                } else if packet.is_empty() {
                    Ok(None)
                } else {
                    Ok(Some(packet))
                }
            },
            PacketType::Response => {
                if self.awaits_response(id) {
                    let outcome = match packet.get_data() {
                        Some(data) => PendingRequest::Resolved(data),
                        None => PendingRequest::PeerDeclined,
                    };
                    self.responses.insert(id, outcome);
                    assert(self@ =~= old(self)@.deliver(packet.frame()));
                    Ok(None)
                } else if self.is_tracked(id) {
                    self.reject(ProtocolViolation::UnexpectedPacket)
                } else {
                    self.reject(ProtocolViolation::UnknownId)
                }
            },
            PacketType::DuplexInitial => {
                if self.is_tracked(id) {
                    self.reject(ProtocolViolation::UnexpectedPacket)
                } else if self.is_local(id) {
                    self.reject(ProtocolViolation::WrongIdParity)
                } else {
                    Ok(Some(packet))
                }
            },
            PacketType::DuplexRequest => self.continue_duplex(packet, id, true, false),
            PacketType::DuplexResponse => self.continue_duplex(packet, id, false, false),
            PacketType::DuplexRequestEnd => self.continue_duplex(packet, id, true, true),
            PacketType::DuplexResponseEnd => self.continue_duplex(packet, id, false, true),
        }
    }

    /// Returns whether a request of this side under `id` still waits for
    /// its response.
    fn awaits_response(&self, id: PacketId) -> (awaits: bool)
        ensures
            awaits == (self@.responses.contains_key(id) && self@.responses[id]
                is AwaitingResponse),
    {
        match self.responses.get(&id) {
            Some(PendingRequest::AwaitingResponse) => true,
            _ => false,
        }
    }

    /// Routes an incoming item or end of a duplex.
    fn continue_duplex(&mut self, packet: P, id: PacketId, from_opener: bool, end: bool) -> (routed:
        Result<Option<P>, ProtocolViolation>)
        requires
            old(self).wf(),
            !old(self)@.closed,
            id == packet.frame().id,
            from_opener == sent_by_opener(packet.frame().packet_type),
            end == is_end(packet.frame().packet_type),
            packet.frame().packet_type == PacketType::DuplexRequest || packet.frame().packet_type
                == PacketType::DuplexResponse || packet.frame().packet_type
                == PacketType::DuplexRequestEnd || packet.frame().packet_type
                == PacketType::DuplexResponseEnd,
        ensures
            final(self)@ == old(self)@.deliver(packet.frame()),
            routed == (match old(self)@.verdict(packet.frame()) {
                Verdict::Consumed => Ok::<Option<P>, ProtocolViolation>(None),
                Verdict::Fresh => Ok::<Option<P>, ProtocolViolation>(Some(packet)),
                Verdict::Violation(violation) => Err::<Option<P>, ProtocolViolation>(violation),
            }),
    {
        let local = self.is_local(id);
        match self.duplexes.remove(&id) {
            Some(mut duplex) => {
                if local == from_opener || !duplex.receiving.is_open() || (!end
                    && packet.is_empty()) {
                    self.reject(ProtocolViolation::UnexpectedPacket)
                } else if end {
                    if duplex.attached {
                        duplex.receiving = Receiving::Ended(packet.get_data());
                        self.duplexes.insert(id, duplex);
                    }
                    assert(self@ =~= old(self)@.deliver(packet.frame()));
                    Ok(None)
                } else {
                    if duplex.sending != Sending::Aborted {
                        match packet.get_data() {
                            Some(item) => {
                                duplex.inbox.push_back(item);
                            },
                            None => {},
                        }
                    }
                    self.duplexes.insert(id, duplex);
                    assert(self@ =~= old(self)@.deliver(packet.frame()));
                    Ok(None)
                }
            },
            None => {
                if self.is_tracked(id) {
                    self.reject(ProtocolViolation::UnexpectedPacket)
                } else {
                    self.reject(ProtocolViolation::UnknownId)
                }
            },
        }
    }

    // ----- what the handles ask for -----

    /// Polls the response of the request of this side under `id`.
    pub(crate) fn take_response(&mut self, id: PacketId) -> (outcome: Result<
        Async<Option<Data>>,
        ClosedDialogue,
    >)
        requires
            old(self).wf(),
        ensures
            final(self).wf(),
            outcome == old(self)@.response_outcome(id),
            final(self)@ == old(self)@.take_response(id),
    {
        proof {
            lemma_request_steps_keep_wf(self@, id, None);
        }
        if self.closed {
            return Err(ClosedDialogue);
        }
        let outcome = match self.responses.remove(&id) {
            None => Ok(Async::NotReady),
            Some(PendingRequest::AwaitingResponse) => {
                self.responses.insert(id, PendingRequest::AwaitingResponse);
                Ok(Async::NotReady)
            },
            Some(PendingRequest::Resolved(data)) => Ok(Async::Ready(Some(data))),
            Some(PendingRequest::PeerDeclined) => Ok(Async::Ready(None)),
        };
        assert(self@ =~= old(self)@.take_response(id));
        outcome
    }

    /// Withdraws the request of this side under `id`.
    pub(crate) fn withdraw_request(&mut self, id: PacketId)
        requires
            old(self).wf(),
        ensures
            final(self).wf(),
            final(self)@ == old(self)@.withdraw_request(id),
    {
        proof {
            lemma_request_steps_keep_wf(self@, id, None);
        }
        if self.closed {
            return ;
        }
        match self.responses.remove(&id) {
            Some(PendingRequest::AwaitingResponse) => {
                self.stage(id, PacketType::Request, None);
            },
            _ => {},
        }
        assert(self@ =~= old(self)@.withdraw_request(id));
    }

    /// Forgets the request of this side under `id`.
    pub(crate) fn forget_response(&mut self, id: PacketId)
        requires
            old(self).wf(),
        ensures
            final(self).wf(),
            final(self)@ == old(self)@.forget_response(id),
    {
        proof {
            lemma_request_steps_keep_wf(self@, id, None);
        }
        self.responses.remove(&id);
        assert(self@ =~= old(self)@.forget_response(id));
    }

    /// Answers the peer's request under `id`, or declines to.
    pub(crate) fn answer(&mut self, id: PacketId, data: Option<Data>) -> (answered: bool)
        requires
            old(self).wf(),
        ensures
            final(self).wf(),
            answered == old(self)@.answerable(id),
            final(self)@ == old(self)@.answer(id, data),
    {
        proof {
            lemma_request_steps_keep_wf(self@, id, data);
        }
        if self.closed {
            return false;
        }
        match self.requests.remove(&id) {
            Some(withdrawn) => {
                if !withdrawn {
                    self.stage(id, PacketType::Response, data);
                }
                assert(self@ =~= old(self)@.answer(id, data));
                true
            },
            None => {
                assert(self@ =~= old(self)@);
                false
            },
        }
    }

    /// Forgets the peer's request under `id`.
    pub(crate) fn forget_request(&mut self, id: PacketId)
        requires
            old(self).wf(),
        ensures
            final(self).wf(),
            final(self)@ == old(self)@.forget_request(id),
    {
        proof {
            lemma_request_steps_keep_wf(self@, id, None);
        }
        self.requests.remove(&id);
        assert(self@ =~= old(self)@.forget_request(id));
    }

    /// Returns whether the peer has withdrawn its request under `id`.
    pub(crate) fn is_withdrawn(&self, id: PacketId) -> (withdrawn: bool)
        ensures
            withdrawn == self@.withdrawn(id),
    {
        match self.requests.get(&id) {
            Some(withdrawn) => *withdrawn,
            None => false,
        }
    }

    /// Returns whether a handle can act on the duplex under `id`.
    pub(crate) fn is_duplex_live(&self, id: PacketId, opened_here: bool) -> (live: bool)
        ensures
            live == self@.duplex_live(id, opened_here),
    {
        if self.closed || self.is_local(id) != opened_here {
            return false;
        }
        match self.duplexes.get(&id) {
            Some(duplex) => duplex.attached,
            None => false,
        }
    }

    /// Sends an item on the duplex under `id`.
    pub(crate) fn send_item(&mut self, id: PacketId, opened_here: bool, item: Data) -> (sent: bool)
        requires
            old(self).wf(),
        ensures
            final(self).wf(),
            sent == old(self)@.can_send(id, opened_here),
            final(self)@ == old(self)@.send_item(id, opened_here, item),
    {
        proof {
            lemma_duplex_steps_keep_wf(self@, id, opened_here, Some(item));
        }
        if !self.is_duplex_live(id, opened_here) {
            return false;
        }
        let open = match self.duplexes.get(&id) {
            Some(duplex) => duplex.sending == Sending::Open,
            None => false,
        };
        if open {
            self.stage(id, item_packet_type(opened_here), Some(item));
        }
        open
    }

    /// Closes this side's direction of the duplex under `id`.
    pub(crate) fn half_close(&mut self, id: PacketId, opened_here: bool, error: Option<Data>) -> (live:
        bool)
        requires
            old(self).wf(),
        ensures
            final(self).wf(),
            live == old(self)@.duplex_live(id, opened_here),
            final(self)@ == old(self)@.half_close(id, opened_here, error),
    {
        proof {
            lemma_duplex_steps_keep_wf(self@, id, opened_here, error);
        }
        if !self.is_duplex_live(id, opened_here) {
            return false;
        }
        match self.duplexes.remove(&id) {
            Some(mut duplex) => {
                if duplex.sending == Sending::Open {
                    duplex.sending = Sending::HalfClosed;
                    self.duplexes.insert(id, duplex);
                    self.stage(id, end_packet_type(opened_here), error);
                } else {
                    self.duplexes.insert(id, duplex);
                }
            },
            None => {},
        }
        assert(self@ =~= old(self)@.half_close(id, opened_here, error));
        true
    }

    /// Drops the staged items of the duplex under `id`.
    fn purge_items(&mut self, id: PacketId, opened_here: bool)
        ensures
            final(self)@ == (DialogueState {
                outgoing: old(self)@.without_items_of(id, opened_here),
                ..old(self)@
            }),
    {
        let item = item_packet_type(opened_here);
        let mut staged: VecDeque<P> = VecDeque::new();
        std::mem::swap(&mut self.outgoing, &mut staged);
        let ghost all = frames_of(staged@);
        let ghost keeps = DialogueState::<Data>::keeps(id, opened_here);
        let mut kept: VecDeque<P> = VecDeque::new();
        let count = staged.len();
        let mut done: usize = 0;
        assert(all.take(0) =~= Seq::empty());
        assert(Seq::<Frame<Data>>::empty().filter(keeps) =~= Seq::empty()) by {
            reveal(Seq::filter);
        }
        while done < count
            invariant
                done <= count,
                count == all.len(),
                keeps == DialogueState::<Data>::keeps(id, opened_here),
                item == item_type(opened_here),
                frames_of(staged@) == all.skip(done as int),
                frames_of(kept@) == all.take(done as int).filter(keeps),
            decreases count - done,
        {
            let ghost before = staged@;
            match staged.pop_front() {
                Some(packet) => {
                    proof {
                        assert(frames_of(before).len() == before.len());
                        assert(packet.frame() == frames_of(before)[0]);
                        assert forall|i: int| 0 <= i < staged@.len() implies frames_of(staged@)[i]
                            == all.skip(done as int + 1)[i] by {
                            assert(frames_of(staged@)[i] == frames_of(before)[i + 1]);
                        }
                        assert(frames_of(staged@) =~= all.skip(done as int + 1));
                        assert(all.take(done as int + 1) =~= all.take(done as int).push(
                            packet.frame(),
                        ));
                        lemma_filter_push(all.take(done as int), packet.frame(), keeps);
                    }
                    if !(packet.get_id() == id && packet.get_type() == item) {
                        kept.push_back(packet);
                        assert(frames_of(kept@) =~= all.take(done as int + 1).filter(keeps));
                    }
                },
                None => {},
            }
            done = done + 1;
        }
        assert(all.take(count as int) =~= all);
        self.outgoing = kept;
        assert(self@ =~= (DialogueState {
            outgoing: old(self)@.without_items_of(id, opened_here),
            ..old(self)@
        }));
    }

    /// Aborts the duplex under `id`.
    pub(crate) fn abort(&mut self, id: PacketId, opened_here: bool, error: Option<Data>) -> (live:
        bool)
        requires
            old(self).wf(),
        ensures
            final(self).wf(),
            live == old(self)@.duplex_live(id, opened_here),
            final(self)@ == old(self)@.abort(id, opened_here, error),
    {
        proof {
            lemma_duplex_steps_keep_wf(self@, id, opened_here, error);
        }
        if !self.is_duplex_live(id, opened_here) {
            return false;
        }
        self.purge_items(id, opened_here);
        match self.duplexes.remove(&id) {
            Some(mut duplex) => {
                let was_open = duplex.sending == Sending::Open;
                duplex.sending = Sending::Aborted;
                duplex.inbox.clear();
                self.duplexes.insert(id, duplex);
                if was_open {
                    self.stage(id, end_packet_type(opened_here), error);
                }
            },
            None => {},
        }
        assert(self@ =~= old(self)@.abort(id, opened_here, error));
        true
    }

    /// Polls the receiving half of the duplex under `id`.
    pub(crate) fn receive(&mut self, id: PacketId, opened_here: bool) -> (outcome: Result<
        Async<Option<Data>>,
        SubStreamError<Data>,
    >)
        requires
            old(self).wf(),
        ensures
            final(self).wf(),
            outcome == old(self)@.receive_outcome(id, opened_here),
            final(self)@ == old(self)@.receive(id, opened_here),
    {
        proof {
            lemma_duplex_steps_keep_wf(self@, id, opened_here, None);
        }
        if !self.is_duplex_live(id, opened_here) {
            return Err(SubStreamError::ClosedDialogue);
        }
        match self.duplexes.remove(&id) {
            Some(duplex) => {
                let Duplex { sending, receiving, mut inbox, attached } = duplex;
                if sending == Sending::Aborted {
                    self.duplexes.insert(id, Duplex { sending, receiving, inbox, attached });
                    assert(self@ =~= old(self)@);
                    Ok(Async::Ready(None))
                } else {
                    match inbox.pop_front() {
                        Some(item) => {
                            self.duplexes.insert(
                                id,
                                Duplex { sending, receiving, inbox, attached },
                            );
                            assert(self@ =~= old(self)@.receive(id, opened_here));
                            Ok(Async::Ready(Some(item)))
                        },
                        None => {
                            let (receiving, outcome) = match receiving {
                                Receiving::Open => (Receiving::Open, Ok(Async::NotReady)),
                                Receiving::Ended(None) => (
                                    Receiving::Ended(None),
                                    Ok(Async::Ready(None)),
                                ),
                                Receiving::Ended(Some(error)) => (
                                    Receiving::Ended(None),
                                    Err(SubStreamError::EndWithError(error)),
                                ),
                            };
                            self.duplexes.insert(
                                id,
                                Duplex { sending, receiving, inbox, attached },
                            );
                            assert(self@ =~= old(self)@.receive(id, opened_here));
                            outcome
                        },
                    }
                }
            },
            None => Err(SubStreamError::ClosedDialogue),
        }
    }

    /// Releases the duplex under `id`, whose handle is given up.
    pub(crate) fn release_duplex(&mut self, id: PacketId, opened_here: bool)
        requires
            old(self).wf(),
        ensures
            final(self).wf(),
            final(self)@ == old(self)@.release_duplex(id, opened_here),
    {
        proof {
            lemma_duplex_steps_keep_wf(self@, id, opened_here, None);
        }
        if !self.is_duplex_live(id, opened_here) {
            return ;
        }
        self.purge_items(id, opened_here);
        match self.duplexes.remove(&id) {
            Some(mut duplex) => {
                let was_open = duplex.sending == Sending::Open;
                if duplex.receiving.is_open() {
                    duplex.sending = Sending::Aborted;
                    duplex.inbox.clear();
                    duplex.attached = false;
                    self.duplexes.insert(id, duplex);
                }
                if was_open {
                    self.stage(id, end_packet_type(opened_here), None);
                }
            },
            None => {},
        }
        assert(self@ =~= old(self)@.release_duplex(id, opened_here));
    }

    /// Takes the oldest staged packet, to hand it to the transport.
    pub fn next_outgoing(&mut self) -> (packet: Option<P>)
        ensures
            final(self)@ == old(self)@.unstage(),
            match packet {
                Some(packet) => old(self)@.outgoing.len() > 0 && packet.frame() == old(
                    self,
                )@.outgoing[0],
                None => old(self)@.outgoing.len() == 0,
            },
            old(self).wf() ==> final(self).wf(),
    {
        let packet = self.outgoing.pop_front();
        assert(self@ =~= old(self)@.unstage());
        packet
    }

    /// Puts back in front a packet that the transport could not take.
    pub fn restage(&mut self, packet: P)
        ensures
            final(self)@ == old(self)@.restage(packet.frame()),
            old(self).wf() ==> final(self).wf(),
    {
        self.outgoing.push_front(packet);
        assert(self@ =~= old(self)@.restage(packet.frame()));
    }
}

/// What each of the packets says.
pub(crate) open spec fn frames_of<P: PacketReadable>(packets: Seq<P>) -> Seq<Frame<P::Data>> {
    packets.map_values(|packet: P| packet.frame())
}

/// Filtering a sequence that ends in `last` filters what precedes it and
/// then decides on `last`.
proof fn lemma_filter_push<A>(s: Seq<A>, last: A, keeps: spec_fn(A) -> bool)
    ensures
        s.push(last).filter(keeps) == (if keeps(last) {
            s.filter(keeps).push(last)
        } else {
            s.filter(keeps)
        }),
{
    reveal(Seq::filter);
    assert(s.push(last).drop_last() =~= s);
}

/// The packet type of the items that a side sends on a duplex.
fn item_packet_type(opened_here: bool) -> (t: PacketType)
    ensures
        t == item_type(opened_here),
{
    if opened_here {
        PacketType::DuplexRequest
    } else {
        PacketType::DuplexResponse
    }
}

/// The packet type with which a side ends its direction of a duplex.
fn end_packet_type(opened_here: bool) -> (t: PacketType)
    ensures
        t == end_type(opened_here),
{
    if opened_here {
        PacketType::DuplexRequestEnd
    } else {
        PacketType::DuplexResponseEnd
    }
}

impl<Data> Duplex<Data> {
    /// A duplex as it starts.
    pub(crate) fn fresh() -> (duplex: Self)
        ensures
            duplex@ == DuplexState::<Data>::fresh(),
    {
        let duplex = Duplex {
            sending: Sending::Open,
            receiving: Receiving::Open,
            inbox: VecDeque::new(),
            attached: true,
        };
        assert(duplex@.inbox =~= Seq::empty());
        duplex
    }
}

} // verus!
