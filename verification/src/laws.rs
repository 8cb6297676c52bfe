//! What holds of every dialogue, proved about the steps of its state.

use vstd::prelude::*;
use futures::Async;
use crate::error::ClosedDialogue;
use crate::error::ProtocolViolation;
use crate::error::SubStreamError;
use crate::model::end_type;
use crate::model::item_type;
use crate::model::DialogueState;
use crate::model::DuplexState;
use crate::model::Receiving;
use crate::model::Sending;
use crate::model::Verdict;
use crate::packet::Frame;
use crate::packet::PacketId;
use crate::packet::PacketType;
use crate::preservation::lemma_fresh_id_is_free;
use crate::preservation::lemma_open_duplex_keeps_wf;
use crate::preservation::lemma_open_request_keeps_wf;

verus! {

/// A conversation that this side opens gets an id of this side under
/// which nothing is tracked, and every conversation that was tracked stays
/// tracked: the new id collides with no conversation that is outstanding.
/// A message tracks nothing.
pub proof fn law_opened_id_is_unused<D>(s: DialogueState<D>, data: D)
    requires
        s.wf(),
        !s.closed,
        s.fresh_id().is_some(),
    ensures
        s.local(s.fresh_id().unwrap()),
        !s.tracks(s.fresh_id().unwrap()),
        s.open_request(data).responses.contains_key(s.fresh_id().unwrap()),
        s.open_duplex(data).duplexes.contains_key(s.fresh_id().unwrap()),
        forall|id: PacketId|
            s.tracks(id) ==> #[trigger] s.open_request(data).tracks(id) && s.open_duplex(
                data,
            ).tracks(id),
        forall|id: PacketId| s.tracks(id) == #[trigger] s.message(data).tracks(id),
{
    lemma_fresh_id_is_free(s);
}

/// Two conversations that this side opens one after the other, requests or
/// duplexes, get different ids.
pub proof fn law_successive_ids_differ<D>(s: DialogueState<D>, first: D)
    requires
        s.wf(),
        !s.closed,
        s.fresh_id().is_some(),
    ensures
        s.open_request(first).fresh_id() != s.fresh_id(),
        s.open_duplex(first).fresh_id() != s.fresh_id(),
{
    lemma_fresh_id_is_free(s);
    lemma_open_request_keeps_wf(s, first);
    lemma_open_duplex_keeps_wf(s, first);
    let id = s.fresh_id().unwrap();
    if s.open_request(first).fresh_id().is_some() {
        lemma_fresh_id_is_free(s.open_request(first));
        assert(s.open_request(first).tracks(id));
    }
    if s.open_duplex(first).fresh_id().is_some() {
        lemma_fresh_id_is_free(s.open_duplex(first));
        assert(s.open_duplex(first).tracks(id));
    }
}

/// A response whose id matches a request that waits resolves that request
/// with the data it carries: the handle gets exactly that data, and the
/// dialogue forgets the id. A second response under the same id breaks the
/// protocol, before the handle has taken the first and after.
pub proof fn law_response_resolves_once<D>(s: DialogueState<D>, id: PacketId, data: Option<D>)
    requires
        s.wf(),
        !s.closed,
        s.responses.contains_key(id),
        s.responses[id] is AwaitingResponse,
    ensures
        ({
            let response = Frame { id, packet_type: PacketType::Response, data };
            let arrived = s.deliver(response);
            let taken = arrived.take_response(id);
            &&& s.verdict(response) == Verdict::Consumed
            &&& arrived.response_outcome(id) == Ok::<Async<Option<D>>, ClosedDialogue>(
                Async::Ready(data),
            )
            &&& !taken.tracks(id)
            &&& arrived.verdict(response) == Verdict::Violation(
                ProtocolViolation::UnexpectedPacket,
            )
            &&& taken.verdict(response) == Verdict::Violation(ProtocolViolation::UnknownId)
            &&& arrived.deliver(response).closed
            &&& taken.deliver(response).closed
        }),
{
}

/// Releasing the handle of a request of the peer without an answer leaves
/// nothing behind: the dialogue is exactly as it was before it accepted
/// the request, so nothing was sent and the id can open a request again.
pub proof fn law_released_request_frees_its_id<D>(s: DialogueState<D>, id: PacketId)
    requires
        s.wf(),
        s.acceptable(id),
    ensures
        s.accept_request(id).tracks(id),
        !s.accept_request(id).forget_request(id).tracks(id),
        s.accept_request(id).forget_request(id) == s,
        s.accept_request(id).forget_request(id).acceptable(id),
{
    assert(s.requests.insert(id, false).remove(id) =~= s.requests);
}

/// On the sending side, what is sent on a duplex before it is closed is
/// staged before the end, in the order in which it was sent, behind
/// everything that was staged already.
pub proof fn law_items_are_staged_before_the_end<D>(
    s: DialogueState<D>,
    id: PacketId,
    opened_here: bool,
    first: D,
    second: D,
    error: Option<D>,
)
    requires
        s.wf(),
        s.can_send(id, opened_here),
    ensures
        s.send_item(id, opened_here, first).send_item(id, opened_here, second).half_close(
            id,
            opened_here,
            error,
        ).outgoing == s.outgoing.push(
            Frame { id, packet_type: item_type(opened_here), data: Some(first) },
        ).push(Frame { id, packet_type: item_type(opened_here), data: Some(second) }).push(
            Frame { id, packet_type: end_type(opened_here), data: error },
        ),
{
}

/// On the receiving side, the items that arrive on a duplex before its end
/// are handed out before the end, in the order in which they arrived: with
/// two items and then the end delivered, the first poll gives the first
/// item, the second poll the second, and the third poll the end, which is
/// the error if the end carried one.
pub proof fn law_items_are_received_before_the_end<D>(
    s: DialogueState<D>,
    id: PacketId,
    opened_here: bool,
    first: D,
    second: D,
    error: Option<D>,
)
    requires
        s.wf(),
        s.duplex_live(id, opened_here),
        s.duplexes[id].sending != Sending::Aborted,
        s.duplexes[id].receiving is Open,
        s.duplexes[id].inbox.len() == 0,
    ensures
        ({
            let arrived = s.deliver(
                Frame { id, packet_type: item_type(!opened_here), data: Some(first) },
            ).deliver(
                Frame { id, packet_type: item_type(!opened_here), data: Some(second) },
            ).deliver(Frame { id, packet_type: end_type(!opened_here), data: error });
            let once = arrived.receive(id, opened_here);
            let twice = once.receive(id, opened_here);
            &&& arrived.receive_outcome(id, opened_here) == Ok::<
                Async<Option<D>>,
                SubStreamError<D>,
            >(Async::Ready(Some(first)))
            &&& once.receive_outcome(id, opened_here) == Ok::<
                Async<Option<D>>,
                SubStreamError<D>,
            >(Async::Ready(Some(second)))
            &&& twice.receive_outcome(id, opened_here) == (match error {
                None => Ok::<Async<Option<D>>, SubStreamError<D>>(Async::Ready(None)),
                Some(error) => Err::<Async<Option<D>>, SubStreamError<D>>(
                    SubStreamError::EndWithError(error),
                ),
            })
        }),
{
    let item = item_type(!opened_here);
    let one = s.deliver(Frame { id, packet_type: item, data: Some(first) });
    assert(one.duplexes[id].inbox =~= seq![first]);
    let two = one.deliver(Frame { id, packet_type: item, data: Some(second) });
    assert(two.duplexes[id].inbox =~= seq![first, second]);
    let arrived = two.deliver(Frame { id, packet_type: end_type(!opened_here), data: error });
    assert(arrived.duplexes[id].inbox =~= seq![first, second]);
    let once = arrived.receive(id, opened_here);
    assert(once.duplexes[id].inbox =~= seq![second]);
    let twice = once.receive(id, opened_here);
    assert(twice.duplexes[id].inbox =~= Seq::<D>::empty());
}

/// The receiving half of a duplex is a queue: an item that arrives goes
/// behind the items that wait, the end of the peer's direction leaves them
/// waiting, and while items wait a poll hands out the oldest and removes
/// exactly that one. So the end is seen only after every item that arrived
/// before it.
pub proof fn law_end_waits_for_items<D>(
    s: DialogueState<D>,
    id: PacketId,
    opened_here: bool,
    item: D,
    error: Option<D>,
)
    requires
        s.wf(),
        s.duplex_live(id, opened_here),
        s.duplexes[id].sending != Sending::Aborted,
    ensures
        s.duplexes[id].receiving is Open ==> s.deliver(
            Frame { id, packet_type: item_type(!opened_here), data: Some(item) },
        ).duplexes[id].inbox == s.duplexes[id].inbox.push(item),
        s.duplexes[id].receiving is Open ==> s.deliver(
            Frame { id, packet_type: end_type(!opened_here), data: error },
        ).duplexes[id] == (DuplexState { receiving: Receiving::Ended(error), ..s.duplexes[id] }),
        s.duplexes[id].inbox.len() > 0 ==> {
            &&& s.receive_outcome(id, opened_here) == Ok::<Async<Option<D>>, SubStreamError<D>>(
                Async::Ready(Some(s.duplexes[id].inbox[0])),
            )
            &&& s.receive(id, opened_here).duplexes[id] == (DuplexState {
                inbox: s.duplexes[id].inbox.subrange(1, s.duplexes[id].inbox.len() as int),
                ..s.duplexes[id]
            })
        },
{
}

/// Once a direction of a duplex has ended, no item passes on it. After
/// this side has closed or aborted, sending fails and changes nothing;
/// after the peer's end has arrived, an item of the peer breaks the
/// protocol.
pub proof fn law_no_item_follows_an_end<D>(
    s: DialogueState<D>,
    id: PacketId,
    opened_here: bool,
    error: Option<D>,
    item: D,
)
    requires
        s.wf(),
        s.duplex_live(id, opened_here),
    ensures
        ({
            let closed = s.half_close(id, opened_here, error);
            let aborted = s.abort(id, opened_here, error);
            &&& !closed.can_send(id, opened_here)
            &&& closed.send_item(id, opened_here, item) == closed
            &&& !aborted.can_send(id, opened_here)
            &&& aborted.send_item(id, opened_here, item) == aborted
        }),
        s.duplexes[id].receiving is Open ==> s.deliver(
            Frame { id, packet_type: end_type(!opened_here), data: error },
        ).verdict(Frame { id, packet_type: item_type(!opened_here), data: Some(item) })
            == Verdict::Violation(ProtocolViolation::UnexpectedPacket),
{
}

/// An id is tracked in at most one table at a time, a request of this
/// side only under an id of this side, and a request of the peer only
/// under an id of the peer.
pub proof fn law_an_id_names_one_conversation<D>(s: DialogueState<D>, id: PacketId)
    requires
        s.wf(),
    ensures
        !(s.responses.contains_key(id) && s.requests.contains_key(id)),
        !(s.responses.contains_key(id) && s.duplexes.contains_key(id)),
        !(s.requests.contains_key(id) && s.duplexes.contains_key(id)),
        s.responses.contains_key(id) ==> s.local(id),
        s.requests.contains_key(id) ==> !s.local(id),
{
}

/// Aborting a duplex discards its items that are staged and keeps every
/// other staged packet; the end, if one is staged, is the last packet.
/// After the abort nothing can be sent on the duplex: sending fails and
/// stages nothing, and the receiving half has ended.
pub proof fn law_abort_discards_and_closes<D>(
    s: DialogueState<D>,
    id: PacketId,
    opened_here: bool,
    error: Option<D>,
    item: D,
)
    requires
        s.wf(),
        s.duplex_live(id, opened_here),
    ensures
        ({
            let aborted = s.abort(id, opened_here, error);
            &&& forall|i: int|
                0 <= i < aborted.outgoing.len() ==> !DialogueState::<D>::is_item_of(
                    #[trigger] aborted.outgoing[i],
                    id,
                    opened_here,
                )
            &&& forall|i: int|
                0 <= i < s.outgoing.len() && !DialogueState::<D>::is_item_of(
                    s.outgoing[i],
                    id,
                    opened_here,
                ) ==> aborted.outgoing.contains(#[trigger] s.outgoing[i])
            &&& s.duplexes[id].sending == Sending::Open ==> aborted.outgoing.last() == (Frame {
                id,
                packet_type: end_type(opened_here),
                data: error,
            })
            &&& !aborted.can_send(id, opened_here)
            &&& aborted.send_item(id, opened_here, item) == aborted
            &&& aborted.receive_outcome(id, opened_here) == Ok::<
                Async<Option<D>>,
                SubStreamError<D>,
            >(Async::Ready(None))
        }),
{
    let keeps = DialogueState::<D>::keeps(id, opened_here);
    let kept = s.outgoing.filter(keeps);
    let aborted = s.abort(id, opened_here, error);
    assert forall|i: int| 0 <= i < aborted.outgoing.len() implies !DialogueState::<D>::is_item_of(
        #[trigger] aborted.outgoing[i],
        id,
        opened_here,
    ) by {
        if i < kept.len() {
            s.outgoing.lemma_filter_pred(keeps, i);
        }
    }
    assert forall|i: int|
        0 <= i < s.outgoing.len() && !DialogueState::<D>::is_item_of(
            s.outgoing[i],
            id,
            opened_here,
        ) implies aborted.outgoing.contains(#[trigger] s.outgoing[i]) by {
        s.outgoing.lemma_filter_contains(keeps, i);
        let j = choose|j: int| 0 <= j < kept.len() && kept[j] == s.outgoing[i];
        assert(aborted.outgoing[j] == s.outgoing[i]);
    }
}

/// Closing the dialogue fails every request that is outstanding: its
/// handle gets `ClosedDialogue`, whatever had arrived for it.
pub proof fn law_closing_fails_every_request<D>(s: DialogueState<D>, id: PacketId)
    ensures
        s.close().response_outcome(id) == Err::<Async<Option<D>>, ClosedDialogue>(ClosedDialogue),
        s.close().receive_outcome(id, true) == Err::<Async<Option<D>>, SubStreamError<D>>(
            SubStreamError::ClosedDialogue,
        ),
        s.close().receive_outcome(id, false) == Err::<Async<Option<D>>, SubStreamError<D>>(
            SubStreamError::ClosedDialogue,
        ),
        !s.close().can_send(id, true),
        !s.close().can_send(id, false),
        !s.close().answerable(id),
{
}

} // verus!
