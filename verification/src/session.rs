//! The per-target negotiation session.
//!
//! One session is owned per remote target for the lifetime of a
//! connection attempt.  The session consumes the negotiation events of
//! the inbox and the results of the host's negotiation primitive, and
//! answers with the actions the host must carry out: apply a remote
//! description, produce an answer, forward a candidate, deliver a
//! message over the relay.
//!
//! The safety-critical rule of the subsystem lives here: a candidate
//! that arrives before the remote description is set is queued, and
//! replayed the moment a remote description is applied, so no candidate
//! is silently lost.

use vstd::prelude::*;

use crate::message::CandidateModel;
use crate::message::IceCandidateInfo;
use crate::message::OutboundModel;
use crate::message::OutboundSignal;
use crate::message::answer_message;
use crate::message::offer_message;

verus! {

/// Where a session stands.
///
/// `Offering` covers the whole stretch from sending a local offer until
/// the peer's answer arrives; candidate exchange overlaps every
/// non-`Closed` state rather than forming a stage of its own.  `Closed`
/// is terminal.
#[derive(PartialEq, Eq, Structural, Clone, Copy, Debug)]
pub enum SessionState {
    Idle,
    Offering,
    AnsweringOffer,
    Connected,
    Closed,
}

/// One peer-connection session.
pub struct Session {
    pub target_id: String,
    pub state: SessionState,
    /// Local description last handed to the negotiation primitive.
    pub local_description: Option<String>,
    /// Remote description applied to the negotiation primitive, if any.
    pub remote_description: Option<String>,
    /// Candidates that arrived before a remote description was set,
    /// waiting to be replayed.
    pub pending_candidates: Vec<IceCandidateInfo>,
    /// Candidates already forwarded to the negotiation primitive.
    pub applied_candidates: Vec<IceCandidateInfo>,
}

/// Mathematical model of a session.
#[verifier::ext_equal]
pub struct SessionModel {
    pub target_id: Seq<char>,
    pub state: SessionState,
    pub local_description: Option<Seq<char>>,
    pub remote_description: Option<Seq<char>>,
    pub pending_candidates: Seq<CandidateModel>,
    pub applied_candidates: Seq<CandidateModel>,
}

impl View for Session {
    type V = SessionModel;

    open spec fn view(&self) -> SessionModel {
        SessionModel {
            target_id: self.target_id@,
            state: self.state,
            local_description: self.local_description.deep_view(),
            remote_description: self.remote_description.deep_view(),
            pending_candidates: self.pending_candidates.deep_view(),
            applied_candidates: self.applied_candidates.deep_view(),
        }
    }
}

/// An operation the host must perform on the session's behalf.
#[derive(Debug, PartialEq)]
pub enum Action {
    /// Hand the session description to the negotiation primitive as the
    /// remote description.
    ApplyRemoteDescription { sdp: String },
    /// Ask the negotiation primitive for an answer, set it as the local
    /// description, and report it back through [`Session::complete_answer`].
    ProduceAnswer,
    /// Forward the candidate to the negotiation primitive.
    ApplyCandidate { info: IceCandidateInfo },
    /// Send the message over the relay.
    Deliver { signal: OutboundSignal },
}

/// Model of an action.
#[verifier::ext_equal]
pub enum ActionModel {
    ApplyRemoteDescription { sdp: Seq<char> },
    ProduceAnswer,
    ApplyCandidate { info: CandidateModel },
    Deliver { signal: OutboundModel },
}

impl View for Action {
    type V = ActionModel;

    open spec fn view(&self) -> ActionModel {
        match self {
            Action::ApplyRemoteDescription { sdp } => ActionModel::ApplyRemoteDescription {
                sdp: sdp@,
            },
            Action::ProduceAnswer => ActionModel::ProduceAnswer,
            Action::ApplyCandidate { info } => ActionModel::ApplyCandidate { info: info@ },
            Action::Deliver { signal } => ActionModel::Deliver { signal: signal@ },
        }
    }
}

impl DeepView for Action {
    type V = ActionModel;

    open spec fn deep_view(&self) -> ActionModel {
        self.view()
    }
}

/// A model transition's outcome: the session after it, and the actions
/// the host owes, in order.
#[verifier::ext_equal]
pub struct StepModel {
    pub session: SessionModel,
    pub actions: Seq<ActionModel>,
}

/// Candidates mapped to the actions that forward them, keeping order.
pub open spec fn forward_all(cs: Seq<CandidateModel>) -> Seq<ActionModel> {
    cs.map_values(|c: CandidateModel| ActionModel::ApplyCandidate { info: c })
}

/// The session is well formed: once a remote description is set, no
/// candidate is left waiting.
pub open spec fn wf(s: SessionModel) -> bool {
    s.remote_description is Some ==> s.pending_candidates.len() == 0
}

/// Local initiate: record the local offer, stand in `Offering`, and owe
/// the relay the offer message.  Re-running it from a live session is a
/// renegotiation; a closed session stays closed.
pub open spec fn spec_start_offer(s: SessionModel, sdp: Seq<char>) -> StepModel {
    if s.state is Closed {
        StepModel { session: s, actions: Seq::empty() }
    } else {
        StepModel {
            session: SessionModel {
                state: SessionState::Offering,
                local_description: Some(sdp),
                ..s
            },
            actions: seq![
                ActionModel::Deliver { signal: OutboundModel::Offer { to: s.target_id, sdp } },
            ],
        }
    }
}

/// Inbound offer: adopt it as the remote description, replay every
/// queued candidate, and owe an answer.  An offer reaching a session
/// with a live attempt supersedes that attempt; a closed session drops
/// the offer.
pub open spec fn spec_receive_offer(s: SessionModel, sdp: Seq<char>) -> StepModel {
    if s.state is Closed {
        StepModel { session: s, actions: Seq::empty() }
    } else {
        StepModel {
            session: SessionModel {
                state: SessionState::AnsweringOffer,
                remote_description: Some(sdp),
                pending_candidates: Seq::empty(),
                applied_candidates: s.applied_candidates + s.pending_candidates,
                ..s
            },
            actions: seq![ActionModel::ApplyRemoteDescription { sdp }] + forward_all(
                s.pending_candidates,
            ) + seq![ActionModel::ProduceAnswer],
        }
    }
}

/// The answer the negotiation primitive produced for an inbound offer
/// has been set locally: the session counts as connected and owes the
/// relay the answer message.  In any other state the report is stale
/// (the session was closed or superseded meanwhile) and changes nothing.
pub open spec fn spec_complete_answer(s: SessionModel, sdp: Seq<char>) -> StepModel {
    if s.state is AnsweringOffer {
        StepModel {
            session: SessionModel {
                state: SessionState::Connected,
                local_description: Some(sdp),
                ..s
            },
            actions: seq![
                ActionModel::Deliver { signal: OutboundModel::Answer { to: s.target_id, sdp } },
            ],
        }
    } else {
        StepModel { session: s, actions: Seq::empty() }
    }
}

/// Inbound answer: only a session standing in `Offering` takes it, once;
/// it adopts the remote description, replays every queued candidate and
/// connects.  Anywhere else the answer is discarded.
pub open spec fn spec_receive_answer(s: SessionModel, sdp: Seq<char>) -> StepModel {
    if s.state is Offering {
        StepModel {
            session: SessionModel {
                state: SessionState::Connected,
                remote_description: Some(sdp),
                pending_candidates: Seq::empty(),
                applied_candidates: s.applied_candidates + s.pending_candidates,
                ..s
            },
            actions: seq![ActionModel::ApplyRemoteDescription { sdp }] + forward_all(
                s.pending_candidates,
            ),
        }
    } else {
        StepModel { session: s, actions: Seq::empty() }
    }
}

/// Inbound candidate: forwarded at once when a remote description is in
/// place, queued for replay when none is yet, dropped only by a closed
/// session.
pub open spec fn spec_receive_candidate(s: SessionModel, c: CandidateModel) -> StepModel {
    if s.state is Closed {
        StepModel { session: s, actions: Seq::empty() }
    } else if s.remote_description is Some {
        StepModel {
            session: SessionModel { applied_candidates: s.applied_candidates.push(c), ..s },
            actions: seq![ActionModel::ApplyCandidate { info: c }],
        }
    } else {
        StepModel {
            session: SessionModel { pending_candidates: s.pending_candidates.push(c), ..s },
            actions: Seq::empty(),
        }
    }
}

/// Close: discard all session state; the host releases the negotiation
/// primitive itself.
pub open spec fn spec_close(s: SessionModel) -> SessionModel {
    SessionModel {
        state: SessionState::Closed,
        local_description: None,
        remote_description: None,
        pending_candidates: Seq::empty(),
        applied_candidates: Seq::empty(),
        ..s
    }
}

impl Session {
    /// A fresh, idle session for one remote target.
    pub fn new(target_id: String) -> (s: Session)
        ensures
            s@ == (SessionModel {
                target_id: target_id@,
                state: SessionState::Idle,
                local_description: None,
                remote_description: None,
                pending_candidates: Seq::<CandidateModel>::empty(),
                applied_candidates: Seq::<CandidateModel>::empty(),
            }),
            wf(s@),
    {
        let s = Session {
            target_id,
            state: SessionState::Idle,
            local_description: None,
            remote_description: None,
            pending_candidates: Vec::new(),
            applied_candidates: Vec::new(),
        };
        proof {
            assert(s.pending_candidates.deep_view() =~= Seq::<CandidateModel>::empty());
            assert(s.applied_candidates.deep_view() =~= Seq::<CandidateModel>::empty());
        }
        s
    }

    /// Record a local offer the host created and set, and hand back the
    /// offer message to deliver.
    pub fn start_offer(&mut self, sdp: &str) -> (acts: Vec<Action>)
        requires
            wf(old(self)@),
        ensures
            final(self)@ == spec_start_offer(old(self)@, sdp@).session,
            acts.deep_view() == spec_start_offer(old(self)@, sdp@).actions,
            wf(final(self)@),
    {
        let mut acts: Vec<Action> = Vec::new();
        match self.state {
            SessionState::Closed => {},
            _ => {
                self.state = SessionState::Offering;
                self.local_description = Some(sdp.to_owned());
                let signal = offer_message(self.target_id.as_str(), sdp);
                acts.push(Action::Deliver { signal });
            },
        }
        proof {
            assert(self@ =~= spec_start_offer(old(self)@, sdp@).session);
            assert(acts.deep_view() =~= spec_start_offer(old(self)@, sdp@).actions);
        }
        acts
    }

    /// Replay `queued` into the applied set, collecting the forwarding
    /// actions onto `acts` in order.
    fn replay_queued(&mut self, queued: Vec<IceCandidateInfo>, acts: &mut Vec<Action>)
        ensures
            final(self)@ == (SessionModel {
                applied_candidates: old(self)@.applied_candidates + queued.deep_view(),
                ..old(self)@
            }),
            final(acts).deep_view() == old(acts).deep_view() + forward_all(queued.deep_view()),
    {
        let n = queued.len();
        let mut i: usize = 0;
        proof {
            assert(queued.deep_view().take(0) =~= Seq::<CandidateModel>::empty());
            assert(self@.applied_candidates + queued.deep_view().take(0) =~= self@.applied_candidates);
            assert(acts.deep_view() + forward_all(queued.deep_view().take(0)) =~= acts.deep_view());
        }
        while i < n
            invariant
                i <= n,
                n == queued@.len(),
                self.applied_candidates.deep_view() == old(self)@.applied_candidates
                    + queued.deep_view().take(i as int),
                self.target_id == old(self).target_id,
                self.state == old(self).state,
                self.local_description == old(self).local_description,
                self.remote_description == old(self).remote_description,
                self.pending_candidates == old(self).pending_candidates,
                acts.deep_view() == old(acts).deep_view() + forward_all(
                    queued.deep_view().take(i as int),
                ),
            decreases n - i,
        {
            let ghost pre_applied = self.applied_candidates.deep_view();
            let ghost pre_acts = acts.deep_view();
            let c = queued[i].clone_info();
            acts.push(Action::ApplyCandidate { info: c.clone_info() });
            self.applied_candidates.push(c);
            proof {
                let qdv = queued.deep_view();
                assert(self.applied_candidates.deep_view() =~= pre_applied.push(qdv[i as int]));
                assert(acts.deep_view() =~= pre_acts.push(
                    ActionModel::ApplyCandidate { info: qdv[i as int] },
                ));
                assert(qdv.take(i + 1) =~= qdv.take(i as int).push(qdv[i as int]));
                assert((old(self)@.applied_candidates + qdv.take(i as int)).push(qdv[i as int])
                    =~= old(self)@.applied_candidates + qdv.take(i + 1));
                assert(forward_all(qdv.take(i as int)).push(
                    ActionModel::ApplyCandidate { info: qdv[i as int] },
                ) =~= forward_all(qdv.take(i + 1)));
                assert((old(acts).deep_view() + forward_all(qdv.take(i as int))).push(
                    ActionModel::ApplyCandidate { info: qdv[i as int] },
                ) =~= old(acts).deep_view() + forward_all(qdv.take(i + 1)));
            }
            i = i + 1;
        }
        proof {
            assert(queued.deep_view().take(n as int) =~= queued.deep_view());
        }
    }

    /// Take an inbound offer: adopt the remote description, replay the
    /// queued candidates, and ask the host for an answer.
    pub fn receive_offer(&mut self, sdp: &str) -> (acts: Vec<Action>)
        requires
            wf(old(self)@),
        ensures
            final(self)@ == spec_receive_offer(old(self)@, sdp@).session,
            acts.deep_view() == spec_receive_offer(old(self)@, sdp@).actions,
            wf(final(self)@),
    {
        let mut acts: Vec<Action> = Vec::new();
        match self.state {
            SessionState::Closed => {},
            _ => {
                self.state = SessionState::AnsweringOffer;
                self.remote_description = Some(sdp.to_owned());
                acts.push(Action::ApplyRemoteDescription { sdp: sdp.to_owned() });
                let mut queued: Vec<IceCandidateInfo> = Vec::new();
                core::mem::swap(&mut queued, &mut self.pending_candidates);
                proof {
                    assert(self.pending_candidates.deep_view() =~= Seq::<CandidateModel>::empty());
                }
                self.replay_queued(queued, &mut acts);
                let ghost pre_acts = acts.deep_view();
                acts.push(Action::ProduceAnswer);
                proof {
                    assert(acts.deep_view() =~= pre_acts.push(ActionModel::ProduceAnswer));
                    assert(pre_acts.push(ActionModel::ProduceAnswer) =~= pre_acts + seq![
                        ActionModel::ProduceAnswer,
                    ]);
                }
            },
        }
        proof {
            assert(self@ =~= spec_receive_offer(old(self)@, sdp@).session);
            assert(acts.deep_view() =~= spec_receive_offer(old(self)@, sdp@).actions);
        }
        acts
    }

    /// Record the answer produced for an inbound offer, and hand back
    /// the answer message to deliver.
    pub fn complete_answer(&mut self, sdp: &str) -> (acts: Vec<Action>)
        requires
            wf(old(self)@),
        ensures
            final(self)@ == spec_complete_answer(old(self)@, sdp@).session,
            acts.deep_view() == spec_complete_answer(old(self)@, sdp@).actions,
            wf(final(self)@),
    {
        let mut acts: Vec<Action> = Vec::new();
        match self.state {
            SessionState::AnsweringOffer => {
                self.state = SessionState::Connected;
                self.local_description = Some(sdp.to_owned());
                let signal = answer_message(self.target_id.as_str(), sdp);
                acts.push(Action::Deliver { signal });
            },
            _ => {},
        }
        proof {
            assert(self@ =~= spec_complete_answer(old(self)@, sdp@).session);
            assert(acts.deep_view() =~= spec_complete_answer(old(self)@, sdp@).actions);
        }
        acts
    }

    /// Take an inbound answer while offering; discard it anywhere else.
    pub fn receive_answer(&mut self, sdp: &str) -> (acts: Vec<Action>)
        requires
            wf(old(self)@),
        ensures
            final(self)@ == spec_receive_answer(old(self)@, sdp@).session,
            acts.deep_view() == spec_receive_answer(old(self)@, sdp@).actions,
            wf(final(self)@),
    {
        let mut acts: Vec<Action> = Vec::new();
        match self.state {
            SessionState::Offering => {
                self.state = SessionState::Connected;
                self.remote_description = Some(sdp.to_owned());
                acts.push(Action::ApplyRemoteDescription { sdp: sdp.to_owned() });
                let mut queued: Vec<IceCandidateInfo> = Vec::new();
                core::mem::swap(&mut queued, &mut self.pending_candidates);
                proof {
                    assert(self.pending_candidates.deep_view() =~= Seq::<CandidateModel>::empty());
                }
                self.replay_queued(queued, &mut acts);
            },
            _ => {},
        }
        proof {
            assert(self@ =~= spec_receive_answer(old(self)@, sdp@).session);
            assert(acts.deep_view() =~= spec_receive_answer(old(self)@, sdp@).actions);
        }
        acts
    }

    /// Take an inbound candidate: forward, queue, or (closed) drop it.
    pub fn receive_candidate(&mut self, info: IceCandidateInfo) -> (acts: Vec<Action>)
        requires
            wf(old(self)@),
        ensures
            final(self)@ == spec_receive_candidate(old(self)@, info@).session,
            acts.deep_view() == spec_receive_candidate(old(self)@, info@).actions,
            wf(final(self)@),
    {
        let mut acts: Vec<Action> = Vec::new();
        match self.state {
            SessionState::Closed => {},
            _ => {
                if self.remote_description.is_some() {
                    acts.push(Action::ApplyCandidate { info: info.clone_info() });
                    self.applied_candidates.push(info);
                } else {
                    self.pending_candidates.push(info);
                }
            },
        }
        proof {
            assert(self@ =~= spec_receive_candidate(old(self)@, info@).session);
            assert(acts.deep_view() =~= spec_receive_candidate(old(self)@, info@).actions);
        }
        acts
    }

    /// Close the session and discard its state.
    pub fn close(&mut self)
        ensures
            final(self)@ == spec_close(old(self)@),
            wf(final(self)@),
    {
        self.state = SessionState::Closed;
        self.local_description = None;
        self.remote_description = None;
        self.pending_candidates = Vec::new();
        self.applied_candidates = Vec::new();
        proof {
            assert(self@ =~= spec_close(old(self)@));
        }
    }
}

impl IceCandidateInfo {
    /// A copy with the same content.
    pub fn clone_info(&self) -> (c: IceCandidateInfo)
        ensures
            c@ == self@,
    {
        IceCandidateInfo {
            candidate: self.candidate.clone(),
            sdp_mid: match &self.sdp_mid {
                Some(m) => Some(m.clone()),
                None => None,
            },
            sdp_m_line_index: self.sdp_m_line_index,
        }
    }
}

} // verus!
