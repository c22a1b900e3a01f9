//! The inbox poller's dispatch and error policy.
//!
//! At a fixed cadence the host drains the relay inbox and hands the
//! returned batch to each consumer.  For the negotiation consumer the
//! whole batch is dispatched here, message by message in inbox order;
//! a message that means nothing to the consumer is skipped, never an
//! abort.  A failed poll is classified: only a failure that shows the
//! credential is no longer valid sends the host back to the login view,
//! every other failure leaves the loop polling.

use vstd::prelude::*;

use crate::message::EventModel;
use crate::message::MessageModel;
use crate::message::SignalEvent;
use crate::message::SignalMessage;
use crate::message::classify;
use crate::message::spec_classify;
use crate::session::Action;
use crate::session::ActionModel;
use crate::session::Session;
use crate::session::SessionModel;
use crate::session::StepModel;
use crate::session::spec_receive_answer;
use crate::session::spec_receive_candidate;
use crate::session::spec_receive_offer;
use crate::session::wf;

verus! {

/// How a transport call can fail.
///
/// `AuthError` is a missing or rejected credential, `NetworkError` an
/// unreachable transport, `ServerError` a response outside the success
/// range, carrying its status.
#[derive(PartialEq, Eq, Structural, Clone, Copy, Debug)]
pub enum TransportError {
    AuthError,
    NetworkError,
    ServerError { status: u16 },
}

/// What the poll loop does after a failed poll.
#[derive(PartialEq, Eq, Structural, Clone, Copy, Debug)]
pub enum PollDirective {
    /// The credential is no longer valid: the host must navigate to
    /// re-authentication.
    RedirectToLogin,
    /// Any other failure: report it and keep polling.
    KeepPolling,
}

/// A failure shows the credential is invalid when it is an
/// authentication failure outright, or the server refused the call as
/// unauthenticated.
pub open spec fn credential_invalid(e: TransportError) -> bool {
    ||| e is AuthError
    ||| (e matches TransportError::ServerError { status } && status == 401)
}

/// Classify a failed poll: redirect to login exactly when the failure
/// shows the credential is invalid; otherwise keep polling.
pub fn poll_failure_directive(e: &TransportError) -> (d: PollDirective)
    ensures
        d is RedirectToLogin <==> credential_invalid(*e),
{
    match e {
        TransportError::AuthError => PollDirective::RedirectToLogin,
        TransportError::NetworkError => PollDirective::KeepPolling,
        TransportError::ServerError { status } => if *status == 401 {
            PollDirective::RedirectToLogin
        } else {
            PollDirective::KeepPolling
        },
    }
}

/// Read an HTTP status into the call's outcome: success for the 2xx
/// range, `ServerError` carrying the status for everything else.
pub fn status_outcome(status: u16) -> (r: Result<(), TransportError>)
    ensures
        r is Ok <==> 200 <= status < 300,
        r matches Err(e) ==> e == (TransportError::ServerError { status }),
{
    if 200 <= status && status < 300 {
        Ok(())
    } else {
        Err(TransportError::ServerError { status })
    }
}

/// One negotiation step: what an event does to the session.  Events
/// that are not negotiation traffic (consent traffic, ignored
/// messages) leave the session untouched and owe nothing.
pub open spec fn spec_step(s: SessionModel, ev: EventModel) -> StepModel {
    match ev {
        EventModel::Offer { sdp } => spec_receive_offer(s, sdp),
        EventModel::Answer { sdp } => spec_receive_answer(s, sdp),
        EventModel::Candidate { info } => spec_receive_candidate(s, info),
        _ => StepModel { session: s, actions: Seq::empty() },
    }
}

/// The events a batch of messages means, in inbox order.
pub open spec fn spec_events(msgs: Seq<MessageModel>) -> Seq<EventModel> {
    msgs.map_values(|m: MessageModel| spec_classify(m))
}

/// A whole batch folded through `spec_step`, front to back, the owed
/// actions concatenated in order.
pub open spec fn spec_run_batch(s: SessionModel, evs: Seq<EventModel>) -> StepModel
    decreases evs.len(),
{
    if evs.len() == 0 {
        StepModel { session: s, actions: Seq::empty() }
    } else {
        let prefix = spec_run_batch(s, evs.drop_last());
        let last = spec_step(prefix.session, evs.last());
        StepModel { session: last.session, actions: prefix.actions + last.actions }
    }
}

/// Dispatch one classified event to the session.
fn dispatch_event(session: &mut Session, ev: SignalEvent) -> (acts: Vec<Action>)
    requires
        wf(old(session)@),
    ensures
        final(session)@ == spec_step(old(session)@, ev@).session,
        acts.deep_view() == spec_step(old(session)@, ev@).actions,
        wf(final(session)@),
{
    let acts = match ev {
        SignalEvent::Offer { sdp } => session.receive_offer(sdp.as_str()),
        SignalEvent::Answer { sdp } => session.receive_answer(sdp.as_str()),
        SignalEvent::Candidate { info } => session.receive_candidate(info),
        SignalEvent::ConsentRequest => Vec::new(),
        SignalEvent::ConsentReply { approved: _ } => Vec::new(),
        SignalEvent::Ignored => Vec::new(),
    };
    proof {
        assert(acts.deep_view() =~= spec_step(old(session)@, ev@).actions);
    }
    acts
}

/// Drain one poll's batch into the session, in inbox order.
///
/// Every message of the batch is processed; one that classifies as
/// `Ignored` is skipped and the rest still handled, so an unknown kind
/// or malformed payload never aborts the loop.
pub fn process_batch(session: &mut Session, msgs: &Vec<SignalMessage>) -> (acts: Vec<Action>)
    requires
        wf(old(session)@),
    ensures
        final(session)@ == spec_run_batch(
            old(session)@,
            spec_events(msgs.deep_view()),
        ).session,
        acts.deep_view() == spec_run_batch(old(session)@, spec_events(msgs.deep_view())).actions,
        wf(final(session)@),
{
    let mut acts: Vec<Action> = Vec::new();
    let n = msgs.len();
    let mut i: usize = 0;
    proof {
        assert(spec_events(msgs.deep_view().take(0)) =~= Seq::<EventModel>::empty());
        assert(acts.deep_view() =~= Seq::<ActionModel>::empty());
    }
    while i < n
        invariant
            i <= n,
            n == msgs@.len(),
            wf(session@),
            session@ == spec_run_batch(
                old(session)@,
                spec_events(msgs.deep_view().take(i as int)),
            ).session,
            acts.deep_view() == spec_run_batch(
                old(session)@,
                spec_events(msgs.deep_view().take(i as int)),
            ).actions,
        decreases n - i,
    {
        let ev = classify(&msgs[i]);
        let ghost evm = ev@;
        let mut step_acts = dispatch_event(session, ev);
        let ghost pre_acts = acts.deep_view();
        let ghost step_actions = step_acts.deep_view();
        acts.append(&mut step_acts);
        proof {
            let mdv = msgs.deep_view();
            assert(acts.deep_view() =~= pre_acts + step_actions);
            assert(mdv.take(i + 1).drop_last() =~= mdv.take(i as int));
            assert(spec_events(mdv.take(i + 1)).drop_last() =~= spec_events(mdv.take(i as int)));
            assert(spec_events(mdv.take(i + 1)).last() == evm);
        }
        i = i + 1;
    }
    proof {
        assert(msgs.deep_view().take(n as int) =~= msgs.deep_view());
    }
    acts
}

} // verus!
