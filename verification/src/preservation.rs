//! Every step of a dialogue keeps its invariant.

use vstd::prelude::*;
use crate::model::candidate;
use crate::model::DialogueState;
use crate::packet::Frame;
use crate::packet::PacketId;

verus! {

/// At most one candidate is the first free one.
pub proof fn lemma_first_free_is_unique<D>(s: DialogueState<D>, a: nat, b: nat)
    requires
        s.first_free(a),
    ensures
        s.first_free(b) ==> a == b,
{
    if s.first_free(b) {
        if a < b {
            assert(s.tracks(candidate(s.next_id, a)));
        }
        if b < a {
            assert(s.tracks(candidate(s.next_id, b)));
        }
    }
}

/// The first free candidate is the fresh id.
pub proof fn lemma_first_free_is_fresh<D>(s: DialogueState<D>, k: nat)
    requires
        s.first_free(k),
    ensures
        s.fresh_id() == Some(candidate(s.next_id, k)),
{
    lemma_first_free_is_unique(s, k, choose|c: nat| s.first_free(c));
}

/// Going two ids up, round at the top, stays among the ids of one side.
pub proof fn lemma_candidate_keeps_side(next_id: PacketId, k: nat)
    ensures
        candidate(next_id, k) % 2 == next_id % 2,
{
}

/// The fresh id is one of this side's ids and tracks nothing.
pub proof fn lemma_fresh_id_is_free<D>(s: DialogueState<D>)
    requires
        s.wf(),
        s.fresh_id().is_some(),
    ensures
        s.local(s.fresh_id().unwrap()),
        !s.tracks(s.fresh_id().unwrap()),
        s.local(candidate(s.fresh_id().unwrap(), 1)),
{
    let k = choose|k: nat| s.first_free(k);
    lemma_candidate_keeps_side(s.next_id, k);
    lemma_candidate_keeps_side(s.fresh_id().unwrap(), 1);
}

/// Opening a request keeps the invariant.
pub proof fn lemma_open_request_keeps_wf<D>(s: DialogueState<D>, data: D)
    requires
        s.wf(),
    ensures
        s.open_request(data).wf(),
{
    if !s.closed && s.fresh_id().is_some() {
        lemma_fresh_id_is_free(s);
    }
}

/// Opening a duplex keeps the invariant.
pub proof fn lemma_open_duplex_keeps_wf<D>(s: DialogueState<D>, data: D)
    requires
        s.wf(),
    ensures
        s.open_duplex(data).wf(),
{
    if !s.closed && s.fresh_id().is_some() {
        lemma_fresh_id_is_free(s);
    }
}

/// Accepting a request or a duplex of the peer keeps the invariant.
pub proof fn lemma_accept_keeps_wf<D>(s: DialogueState<D>, id: PacketId)
    requires
        s.wf(),
    ensures
        s.accept_request(id).wf(),
        s.accept_duplex(id).wf(),
{
}

/// Taking an incoming packet keeps the invariant.
pub proof fn lemma_deliver_keeps_wf<D>(s: DialogueState<D>, frame: Frame<D>)
    requires
        s.wf(),
    ensures
        s.deliver(frame).wf(),
{
}

/// Every step of a handle of a request keeps the invariant.
pub proof fn lemma_request_steps_keep_wf<D>(s: DialogueState<D>, id: PacketId, data: Option<D>)
    requires
        s.wf(),
    ensures
        s.take_response(id).wf(),
        s.withdraw_request(id).wf(),
        s.forget_response(id).wf(),
        s.answer(id, data).wf(),
        s.forget_request(id).wf(),
{
    if s.closed {
        assert(s.responses.remove(id) =~= s.responses);
        assert(s.requests.remove(id) =~= s.requests);
    }
}

/// Every step of a handle of a duplex keeps the invariant.
pub proof fn lemma_duplex_steps_keep_wf<D>(
    s: DialogueState<D>,
    id: PacketId,
    opened_here: bool,
    data: Option<D>,
)
    requires
        s.wf(),
    ensures
        data.is_some() ==> s.send_item(id, opened_here, data.unwrap()).wf(),
        s.half_close(id, opened_here, data).wf(),
        s.abort(id, opened_here, data).wf(),
        s.receive(id, opened_here).wf(),
        s.release_duplex(id, opened_here).wf(),
{
}

} // verus!
