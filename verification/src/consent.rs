//! The screen-share consent moderator.
//!
//! A parallel, lower-frequency consumer of the same inbox: it picks the
//! screen-share requests out of each poll's batch, resolves the
//! requesters' display names against a pre-fetched list of connected
//! users, and turns each request into an approve-or-reject decision sent
//! back over the relay.  Consent is advisory; nothing here touches the
//! negotiation session.

use vstd::prelude::*;

use crate::message::MessageModel;
use crate::message::OutboundModel;
use crate::message::OutboundSignal;
use crate::message::SignalKind;
use crate::message::SignalMessage;
use crate::message::consent_decision_message;
use crate::message::kind_of;
use crate::message::spec_kind;

verus! {

/// One record of the access-relationship list.
#[derive(Debug, PartialEq)]
pub struct UserResponse {
    pub id: String,
    pub name: String,
    pub email: String,
}

/// Model of a user record.
#[verifier::ext_equal]
pub struct UserModel {
    pub id: Seq<char>,
    pub name: Seq<char>,
    pub email: Seq<char>,
}

impl View for UserResponse {
    type V = UserModel;

    open spec fn view(&self) -> UserModel {
        UserModel { id: self.id@, name: self.name@, email: self.email@ }
    }
}

impl DeepView for UserResponse {
    type V = UserModel;

    open spec fn deep_view(&self) -> UserModel {
        self.view()
    }
}

/// One outstanding screen-share request as surfaced to the user.
#[derive(Debug, PartialEq)]
pub struct ScreenShareRequest {
    pub from_user_id: String,
    pub from_user_name: String,
}

/// Model of an outstanding request.
#[verifier::ext_equal]
pub struct RequestModel {
    pub from_user_id: Seq<char>,
    pub from_user_name: Seq<char>,
}

impl View for ScreenShareRequest {
    type V = RequestModel;

    open spec fn view(&self) -> RequestModel {
        RequestModel { from_user_id: self.from_user_id@, from_user_name: self.from_user_name@ }
    }
}

impl DeepView for ScreenShareRequest {
    type V = RequestModel;

    open spec fn deep_view(&self) -> RequestModel {
        self.view()
    }
}

/// The consent moderator: the resolved identity-to-name list, loaded
/// once at mount, and the working set of outstanding requests, replaced
/// wholesale at every successful poll.
pub struct ConsentModerator {
    pub names: Vec<UserResponse>,
    pub requests: Vec<ScreenShareRequest>,
}

/// Model of the moderator.
#[verifier::ext_equal]
pub struct ModeratorModel {
    pub names: Seq<UserModel>,
    pub requests: Seq<RequestModel>,
}

impl View for ConsentModerator {
    type V = ModeratorModel;

    open spec fn view(&self) -> ModeratorModel {
        ModeratorModel { names: self.names.deep_view(), requests: self.requests.deep_view() }
    }
}

/// Name of the first record carrying `id`, if any.
pub open spec fn spec_name_of(names: Seq<UserModel>, id: Seq<char>) -> Option<Seq<char>>
    decreases names.len(),
{
    if names.len() == 0 {
        None
    } else if names[0].id == id {
        Some(names[0].name)
    } else {
        spec_name_of(names.drop_first(), id)
    }
}

/// Display name for `id`: the resolved name, or the fallback label for
/// an identity outside the list.
pub open spec fn spec_display_name(names: Seq<UserModel>, id: Seq<char>) -> Seq<char> {
    match spec_name_of(names, id) {
        Some(name) => name,
        None => "Unknown User"@,
    }
}

/// Whether the working set already surfaces `id`.
pub open spec fn spec_has_request(requests: Seq<RequestModel>, id: Seq<char>) -> bool
    decreases requests.len(),
{
    if requests.len() == 0 {
        false
    } else if requests.last().from_user_id == id {
        true
    } else {
        spec_has_request(requests.drop_last(), id)
    }
}

/// The working set a batch denotes: exactly the screen-share requests
/// observed in the batch, in inbox order, at most one entry per
/// requester (the first kept), each with its resolved display name.
pub open spec fn spec_working_set(names: Seq<UserModel>, msgs: Seq<MessageModel>) -> Seq<
    RequestModel,
>
    decreases msgs.len(),
{
    if msgs.len() == 0 {
        Seq::empty()
    } else {
        let earlier = spec_working_set(names, msgs.drop_last());
        let m = msgs.last();
        if spec_kind(m.signal_type) is RequestScreenShare && !spec_has_request(
            earlier,
            m.from_user_id,
        ) {
            earlier.push(
                RequestModel {
                    from_user_id: m.from_user_id,
                    from_user_name: spec_display_name(names, m.from_user_id),
                },
            )
        } else {
            earlier
        }
    }
}

/// The working set with every entry of `id` removed, order otherwise
/// kept.
pub open spec fn spec_remove_request(requests: Seq<RequestModel>, id: Seq<char>) -> Seq<
    RequestModel,
>
    decreases requests.len(),
{
    if requests.len() == 0 {
        requests
    } else {
        let earlier = spec_remove_request(requests.drop_last(), id);
        if requests.last().from_user_id == id {
            earlier
        } else {
            earlier.push(requests.last())
        }
    }
}

/// The message a decision produces: the decision for `id` when `id` is
/// outstanding, nothing when it is not.
pub open spec fn spec_decision(m: ModeratorModel, id: Seq<char>, approved: bool) -> Option<
    OutboundModel,
> {
    if spec_has_request(m.requests, id) {
        Some(OutboundModel::ConsentDecision { to: id, approved })
    } else {
        None
    }
}

/// Resolve the display name for `id`.
fn display_name(names: &Vec<UserResponse>, id: &str) -> (r: String)
    ensures
        r@ == spec_display_name(names.deep_view(), id@),
{
    let n = names.len();
    let mut i: usize = 0;
    proof {
        assert(names.deep_view().skip(0) =~= names.deep_view());
    }
    while i < n
        invariant
            i <= n,
            n == names@.len(),
            spec_name_of(names.deep_view(), id@) == spec_name_of(
                names.deep_view().skip(i as int),
                id@,
            ),
        decreases n - i,
    {
        assert(names.deep_view().skip(i as int)[0] == names.deep_view()[i as int]);
        if crate::message::text_eq(names[i].id.as_str(), id) {
            return names[i].name.clone();
        }
        assert(names.deep_view().skip(i as int).drop_first() =~= names.deep_view().skip(i + 1));
        i = i + 1;
    }
    assert(names.deep_view().skip(n as int).len() == 0);
    "Unknown User".to_owned()
}

/// Whether the working set under construction already carries `id`.
fn has_request(requests: &Vec<ScreenShareRequest>, id: &str) -> (r: bool)
    ensures
        r == spec_has_request(requests.deep_view(), id@),
{
    let n = requests.len();
    let mut i: usize = 0;
    proof {
        assert(requests.deep_view().take(0) =~= Seq::<RequestModel>::empty());
    }
    while i < n
        invariant
            i <= n,
            n == requests@.len(),
            !spec_has_request(requests.deep_view().take(i as int), id@),
        decreases n - i,
    {
        if crate::message::text_eq(requests[i].from_user_id.as_str(), id) {
            proof {
                lemma_has_request_found(requests.deep_view(), id@, i as int);
            }
            return true;
        }
        proof {
            assert(requests.deep_view().take(i + 1).drop_last() =~= requests.deep_view().take(
                i as int,
            ));
        }
        i = i + 1;
    }
    proof {
        assert(requests.deep_view().take(n as int) =~= requests.deep_view());
    }
    false
}

/// `spec_has_request` holds as soon as one entry carries the key.
proof fn lemma_has_request_found(requests: Seq<RequestModel>, id: Seq<char>, i: int)
    requires
        0 <= i < requests.len(),
        requests[i].from_user_id == id,
    ensures
        spec_has_request(requests, id),
    decreases requests.len(),
{
    if i < requests.len() - 1 {
        lemma_has_request_found(requests.drop_last(), id, i);
    }
}

impl ConsentModerator {
    /// A moderator over the resolved user list, with nothing
    /// outstanding yet.
    pub fn new(names: Vec<UserResponse>) -> (m: ConsentModerator)
        ensures
            m@.names == names.deep_view(),
            m@.requests == Seq::<RequestModel>::empty(),
    {
        let m = ConsentModerator { names, requests: Vec::new() };
        proof {
            assert(m.requests.deep_view() =~= Seq::<RequestModel>::empty());
        }
        m
    }

    /// Replace the working set with exactly the screen-share requests
    /// of this poll's batch.  A request not repeated in the batch
    /// disappears, decided or not; within a batch at most one entry per
    /// requester is kept.
    pub fn refresh(&mut self, msgs: &Vec<SignalMessage>)
        ensures
            final(self)@.names == old(self)@.names,
            final(self)@.requests == spec_working_set(old(self)@.names, msgs.deep_view()),
    {
        let mut fresh: Vec<ScreenShareRequest> = Vec::new();
        let n = msgs.len();
        let mut i: usize = 0;
        proof {
            assert(fresh.deep_view() =~= Seq::<RequestModel>::empty());
            assert(msgs.deep_view().take(0) =~= Seq::<MessageModel>::empty());
        }
        while i < n
            invariant
                i <= n,
                n == msgs@.len(),
                self.names == old(self).names,
                fresh.deep_view() == spec_working_set(
                    self.names.deep_view(),
                    msgs.deep_view().take(i as int),
                ),
            decreases n - i,
        {
            let ghost pre_fresh = fresh.deep_view();
            match kind_of(msgs[i].signal_type.as_str()) {
                SignalKind::RequestScreenShare => {
                    if !has_request(&fresh, msgs[i].from_user_id.as_str()) {
                        let name = display_name(&self.names, msgs[i].from_user_id.as_str());
                        fresh.push(
                            ScreenShareRequest {
                                from_user_id: msgs[i].from_user_id.clone(),
                                from_user_name: name,
                            },
                        );
                        proof {
                            assert(fresh.deep_view() =~= pre_fresh.push(
                                fresh.deep_view().last(),
                            ));
                        }
                    }
                },
                _ => {},
            }
            proof {
                assert(msgs.deep_view().take(i + 1).drop_last() =~= msgs.deep_view().take(
                    i as int,
                ));
                assert(msgs.deep_view().take(i + 1).last() == msgs.deep_view()[i as int]);
            }
            i = i + 1;
        }
        proof {
            assert(msgs.deep_view().take(n as int) =~= msgs.deep_view());
        }
        self.requests = fresh;
    }

    /// The approval message for `requester_id`'s outstanding request,
    /// ready for delivery; nothing when `requester_id` is not
    /// outstanding, so a request already removed can never produce a
    /// duplicate approval.  The working set is untouched: the entry
    /// leaves it only through [`Self::decision_sent`], once the host
    /// reports the send succeeded.
    pub fn approve(&self, requester_id: &str) -> (r: Option<OutboundSignal>)
        ensures
            match r {
                Some(m) => spec_decision(self@, requester_id@, true) == Some(m@),
                None => spec_decision(self@, requester_id@, true) is None,
            },
    {
        self.decision_for(requester_id, true)
    }

    /// The rejection message for `requester_id`'s outstanding request;
    /// otherwise as [`Self::approve`].
    pub fn reject(&self, requester_id: &str) -> (r: Option<OutboundSignal>)
        ensures
            match r {
                Some(m) => spec_decision(self@, requester_id@, false) == Some(m@),
                None => spec_decision(self@, requester_id@, false) is None,
            },
    {
        self.decision_for(requester_id, false)
    }

    /// The decision message for `requester_id`, when outstanding.
    fn decision_for(&self, requester_id: &str, approved: bool) -> (r: Option<OutboundSignal>)
        ensures
            match r {
                Some(m) => spec_decision(self@, requester_id@, approved) == Some(m@),
                None => spec_decision(self@, requester_id@, approved) is None,
            },
    {
        if has_request(&self.requests, requester_id) {
            Some(consent_decision_message(requester_id, approved))
        } else {
            None
        }
    }

    /// A decision for `requester_id` went out with a basic successful
    /// send: its entries leave the working set the instant this is
    /// reported.  Removal is optimistic — nothing beyond that one
    /// success is awaited.  After a failed send the host does not call
    /// this, so the entry remains until the next successful poll
    /// replaces the set.
    pub fn decision_sent(&mut self, requester_id: &str)
        ensures
            final(self)@.names == old(self)@.names,
            final(self)@.requests == spec_remove_request(old(self)@.requests, requester_id@),
    {
        let mut kept: Vec<ScreenShareRequest> = Vec::new();
        let n = self.requests.len();
        let mut i: usize = 0;
        proof {
            assert(kept.deep_view() =~= Seq::<RequestModel>::empty());
            assert(self.requests.deep_view().take(0) =~= Seq::<RequestModel>::empty());
        }
        while i < n
            invariant
                i <= n,
                n == self.requests@.len(),
                self.requests == old(self).requests,
                self.names == old(self).names,
                kept.deep_view() == spec_remove_request(
                    self.requests.deep_view().take(i as int),
                    requester_id@,
                ),
            decreases n - i,
        {
            let ghost pre_kept = kept.deep_view();
            if !crate::message::text_eq(
                self.requests[i].from_user_id.as_str(),
                requester_id,
            ) {
                let entry = ScreenShareRequest {
                    from_user_id: self.requests[i].from_user_id.clone(),
                    from_user_name: self.requests[i].from_user_name.clone(),
                };
                kept.push(entry);
                proof {
                    assert(kept.deep_view() =~= pre_kept.push(kept.deep_view().last()));
                }
            }
            proof {
                assert(self.requests.deep_view().take(i + 1).drop_last()
                    =~= self.requests.deep_view().take(i as int));
                assert(self.requests.deep_view().take(i + 1).last()
                    == self.requests.deep_view()[i as int]);
            }
            i = i + 1;
        }
        proof {
            assert(self.requests.deep_view().take(n as int) =~= self.requests.deep_view());
        }
        self.requests = kept;
    }
}

} // verus!
