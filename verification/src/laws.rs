//! The properties the library promises across its functions, stated
//! over the models and proved once and for all.

use vstd::prelude::*;

use crate::consent::RequestModel;
use crate::consent::spec_has_request;
use crate::consent::spec_remove_request;
use crate::message::CandidateModel;
use crate::message::EventModel;
use crate::poller::spec_run_batch;
use crate::poller::spec_step;
use crate::session::ActionModel;
use crate::session::SessionModel;
use crate::session::forward_all;
use crate::session::wf;

verus! {

/// Whether the negotiation consumer acts on an event at all.
pub open spec fn negotiation_relevant(ev: EventModel) -> bool {
    ||| ev is Offer
    ||| ev is Answer
    ||| ev is Candidate
}

/// The batch with everything the negotiation consumer does not act on
/// dropped, order kept.
pub open spec fn relevant_only(evs: Seq<EventModel>) -> Seq<EventModel> {
    evs.filter(|ev: EventModel| negotiation_relevant(ev))
}

/// Events that mean nothing to the negotiation consumer can be dropped
/// from a batch without changing what the batch does: a message of
/// unknown kind or with a malformed payload is skipped, and the
/// messages after it are still handled exactly as they would have been.
pub proof fn lemma_irrelevant_events_skipped(s: SessionModel, evs: Seq<EventModel>)
    ensures
        spec_run_batch(s, evs).session == spec_run_batch(s, relevant_only(evs)).session,
        spec_run_batch(s, evs).actions == spec_run_batch(s, relevant_only(evs)).actions,
    decreases evs.len(),
{
    reveal_with_fuel(Seq::<_>::filter, 2);
    if evs.len() == 0 {
    } else {
        let shorter = evs.drop_last();
        lemma_irrelevant_events_skipped(s, shorter);
        let kept = relevant_only(shorter);
        if negotiation_relevant(evs.last()) {
            assert(relevant_only(evs) =~= kept.push(evs.last()));
            assert(kept.push(evs.last()).drop_last() =~= kept);
        } else {
            assert(relevant_only(evs) =~= kept);
            assert(spec_step(spec_run_batch(s, shorter).session, evs.last()).actions
                =~= Seq::<ActionModel>::empty());
            assert(spec_run_batch(s, evs).actions =~= spec_run_batch(s, shorter).actions);
        }
    }
}

/// In `Offering`, an inbound answer connects the session exactly once:
/// the first answer moves it to `Connected`, and a second answer for
/// the same session changes nothing and owes nothing.
pub proof fn lemma_answer_connects_exactly_once(
    s: SessionModel,
    sdp_one: Seq<char>,
    sdp_two: Seq<char>,
)
    requires
        s.state is Offering,
    ensures
        spec_step(s, EventModel::Answer { sdp: sdp_one }).session.state is Connected,
        spec_step(
            spec_step(s, EventModel::Answer { sdp: sdp_one }).session,
            EventModel::Answer { sdp: sdp_two },
        ).session == spec_step(s, EventModel::Answer { sdp: sdp_one }).session,
        spec_step(
            spec_step(s, EventModel::Answer { sdp: sdp_one }).session,
            EventModel::Answer { sdp: sdp_two },
        ).actions == Seq::<ActionModel>::empty(),
{
}

/// The candidate events for `cs`, in order.
pub open spec fn candidate_events(cs: Seq<CandidateModel>) -> Seq<EventModel> {
    cs.map_values(|c: CandidateModel| EventModel::Candidate { info: c })
}

/// Candidates fed to a session with no remote description yet are all
/// queued, in order, with nothing forwarded.
proof fn lemma_candidates_queue(s: SessionModel, cs: Seq<CandidateModel>)
    requires
        !(s.state is Closed),
        s.remote_description is None,
    ensures
        spec_run_batch(s, candidate_events(cs)).session == (SessionModel {
            pending_candidates: s.pending_candidates + cs,
            ..s
        }),
        spec_run_batch(s, candidate_events(cs)).actions == Seq::<ActionModel>::empty(),
    decreases cs.len(),
{
    if cs.len() == 0 {
        assert(candidate_events(cs) =~= Seq::<EventModel>::empty());
        assert(s.pending_candidates + cs =~= s.pending_candidates);
        assert(spec_run_batch(s, candidate_events(cs)).session =~= (SessionModel {
            pending_candidates: s.pending_candidates + cs,
            ..s
        }));
    } else {
        lemma_candidates_queue(s, cs.drop_last());
        assert(candidate_events(cs).drop_last() =~= candidate_events(cs.drop_last()));
        assert((s.pending_candidates + cs.drop_last()).push(cs.last()) =~= s.pending_candidates
            + cs);
        assert(spec_run_batch(s, candidate_events(cs)).actions =~= Seq::<ActionModel>::empty());
    }
}

/// Candidates fed to a session whose remote description is set are all
/// forwarded at once, in order.
proof fn lemma_candidates_apply(s: SessionModel, cs: Seq<CandidateModel>)
    requires
        !(s.state is Closed),
        s.remote_description is Some,
    ensures
        spec_run_batch(s, candidate_events(cs)).session == (SessionModel {
            applied_candidates: s.applied_candidates + cs,
            ..s
        }),
        spec_run_batch(s, candidate_events(cs)).actions == forward_all(cs),
    decreases cs.len(),
{
    if cs.len() == 0 {
        assert(candidate_events(cs) =~= Seq::<EventModel>::empty());
        assert(s.applied_candidates + cs =~= s.applied_candidates);
        assert(spec_run_batch(s, candidate_events(cs)).session =~= (SessionModel {
            applied_candidates: s.applied_candidates + cs,
            ..s
        }));
        assert(forward_all(cs) =~= Seq::<ActionModel>::empty());
    } else {
        lemma_candidates_apply(s, cs.drop_last());
        assert(candidate_events(cs).drop_last() =~= candidate_events(cs.drop_last()));
        assert((s.applied_candidates + cs.drop_last()).push(cs.last()) =~= s.applied_candidates
            + cs);
        assert(spec_run_batch(s, candidate_events(cs)).actions =~= forward_all(cs.drop_last())
            + seq![ActionModel::ApplyCandidate { info: cs.last() }]);
        assert(forward_all(cs.drop_last()) + seq![ActionModel::ApplyCandidate { info: cs.last() }]
            =~= forward_all(cs));
    }
}

/// Running one batch after another is running their concatenation.
pub proof fn lemma_run_batch_append(s: SessionModel, first: Seq<EventModel>, second: Seq<
    EventModel,
>)
    ensures
        spec_run_batch(s, first + second).session == spec_run_batch(
            spec_run_batch(s, first).session,
            second,
        ).session,
        spec_run_batch(s, first + second).actions == spec_run_batch(s, first).actions
            + spec_run_batch(spec_run_batch(s, first).session, second).actions,
    decreases second.len(),
{
    if second.len() == 0 {
        assert(first + second =~= first);
        assert(spec_run_batch(s, first).actions + spec_run_batch(
            spec_run_batch(s, first).session,
            second,
        ).actions =~= spec_run_batch(s, first).actions);
    } else {
        lemma_run_batch_append(s, first, second.drop_last());
        assert((first + second).drop_last() =~= first + second.drop_last());
        assert(spec_run_batch(s, first + second).actions =~= spec_run_batch(s, first).actions
            + spec_run_batch(spec_run_batch(s, first).session, second).actions);
    }
}

/// A batch of one event does what the event does.
pub proof fn lemma_run_single(s: SessionModel, ev: EventModel)
    ensures
        spec_run_batch(s, seq![ev]).session == spec_step(s, ev).session,
        spec_run_batch(s, seq![ev]).actions == spec_step(s, ev).actions,
{
    assert(seq![ev].drop_last() =~= Seq::<EventModel>::empty());
    assert(spec_run_batch(s, seq![ev].drop_last()).session == s);
    assert(spec_run_batch(s, seq![ev].drop_last()).actions == Seq::<ActionModel>::empty());
    assert(seq![ev].last() == ev);
    assert(spec_run_batch(s, seq![ev]).actions =~= spec_step(s, ev).actions);
}

/// No candidate is silently lost on the answering side: candidates that
/// arrive before the offer are queued and replayed when the offer sets
/// the remote description, so candidates-then-offer and
/// offer-then-candidates leave the session in the same state, with the
/// whole candidate set applied, in order.
pub proof fn lemma_candidate_offer_convergence(
    s: SessionModel,
    cs: Seq<CandidateModel>,
    sdp: Seq<char>,
)
    requires
        s.state is Idle,
        s.remote_description is None,
        s.pending_candidates == Seq::<CandidateModel>::empty(),
        s.applied_candidates == Seq::<CandidateModel>::empty(),
    ensures
        spec_run_batch(s, candidate_events(cs) + seq![EventModel::Offer { sdp }]).session
            == spec_run_batch(s, seq![EventModel::Offer { sdp }] + candidate_events(cs)).session,
        spec_run_batch(
            s,
            candidate_events(cs) + seq![EventModel::Offer { sdp }],
        ).session.applied_candidates == cs,
{
    let offer_event = EventModel::Offer { sdp };
    let offer = seq![offer_event];
    lemma_run_batch_append(s, candidate_events(cs), offer);
    lemma_candidates_queue(s, cs);
    let queued = spec_run_batch(s, candidate_events(cs)).session;
    assert(queued.pending_candidates =~= cs);
    lemma_run_single(queued, offer_event);
    let first = spec_run_batch(queued, offer).session;
    assert(first.applied_candidates =~= cs);

    lemma_run_batch_append(s, offer, candidate_events(cs));
    lemma_run_single(s, offer_event);
    let offered = spec_run_batch(s, offer).session;
    assert(offered.applied_candidates =~= Seq::<CandidateModel>::empty());
    assert(offered.pending_candidates =~= Seq::<CandidateModel>::empty());
    lemma_candidates_apply(offered, cs);
    let second = spec_run_batch(offered, candidate_events(cs)).session;
    assert(second.applied_candidates =~= cs);
    assert(first =~= second);
}

/// The same, on the offering side: candidates that arrive before the
/// answer are queued and replayed when the answer sets the remote
/// description.
pub proof fn lemma_candidate_answer_convergence(
    s: SessionModel,
    cs: Seq<CandidateModel>,
    sdp: Seq<char>,
)
    requires
        s.state is Offering,
        s.remote_description is None,
        s.pending_candidates == Seq::<CandidateModel>::empty(),
        s.applied_candidates == Seq::<CandidateModel>::empty(),
    ensures
        spec_run_batch(s, candidate_events(cs) + seq![EventModel::Answer { sdp }]).session
            == spec_run_batch(s, seq![EventModel::Answer { sdp }] + candidate_events(cs)).session,
        spec_run_batch(
            s,
            candidate_events(cs) + seq![EventModel::Answer { sdp }],
        ).session.applied_candidates == cs,
{
    let answer_event = EventModel::Answer { sdp };
    let answer = seq![answer_event];
    lemma_run_batch_append(s, candidate_events(cs), answer);
    lemma_candidates_queue(s, cs);
    let queued = spec_run_batch(s, candidate_events(cs)).session;
    assert(queued.pending_candidates =~= cs);
    lemma_run_single(queued, answer_event);
    let first = spec_run_batch(queued, answer).session;
    assert(first.applied_candidates =~= cs);

    lemma_run_batch_append(s, answer, candidate_events(cs));
    lemma_run_single(s, answer_event);
    let answered = spec_run_batch(s, answer).session;
    assert(answered.applied_candidates =~= Seq::<CandidateModel>::empty());
    assert(answered.pending_candidates =~= Seq::<CandidateModel>::empty());
    lemma_candidates_apply(answered, cs);
    let second = spec_run_batch(answered, candidate_events(cs)).session;
    assert(second.applied_candidates =~= cs);
    assert(first =~= second);
}

/// No batch strands a candidate: whenever a remote description is in
/// place, the queue of waiting candidates is empty, and every batch
/// keeps it so.
pub proof fn lemma_run_batch_preserves_wf(s: SessionModel, evs: Seq<EventModel>)
    requires
        wf(s),
    ensures
        wf(spec_run_batch(s, evs).session),
    decreases evs.len(),
{
    if evs.len() > 0 {
        lemma_run_batch_preserves_wf(s, evs.drop_last());
    }
}

/// A decision is idempotent: once a successful send has removed a
/// requester's entries from the working set, the requester is no longer
/// outstanding, so a second decision for the same requester produces no
/// message.
pub proof fn lemma_decision_idempotent(requests: Seq<RequestModel>, id: Seq<char>)
    ensures
        !spec_has_request(spec_remove_request(requests, id), id),
    decreases requests.len(),
{
    if requests.len() > 0 {
        lemma_decision_idempotent(requests.drop_last(), id);
        if requests.last().from_user_id != id {
            let earlier = spec_remove_request(requests.drop_last(), id);
            assert(earlier.push(requests.last()).drop_last() =~= earlier);
        }
    }
}

} // verus!
