//! The screen-share consent moderator, on concrete runs.

use peer_signaling::consent::ConsentModerator;
use peer_signaling::consent::UserResponse;
use peer_signaling::message::OutboundSignal;
use peer_signaling::message::PayloadValue;
use peer_signaling::message::SignalMessage;

fn user(id: &str, name: &str) -> UserResponse {
    UserResponse {
        id: id.to_string(),
        name: name.to_string(),
        email: format!("{}@example.com", name),
    }
}

fn request_from(id: &str) -> SignalMessage {
    SignalMessage {
        from_user_id: id.to_string(),
        to_user_id: "self".to_string(),
        signal_type: "request_screen_share".to_string(),
        payload: vec![],
    }
}

fn assert_decision(message: &OutboundSignal, to: &str, kind: &str, approved: bool) {
    assert_eq!(message.to_user_id, to);
    assert_eq!(message.signal_type, kind);
    assert_eq!(
        message.payload,
        vec![("approved".to_string(), PayloadValue::Flag(approved))]
    );
}

/// A request from "U3", who the resolved list names "Alice", surfaces
/// exactly one entry with that display name.
#[test]
fn request_resolves_display_name() {
    let mut moderator = ConsentModerator::new(vec![user("U3", "Alice"), user("U4", "Bob")]);
    moderator.refresh(&vec![request_from("U3")]);

    assert_eq!(moderator.requests.len(), 1);
    assert_eq!(moderator.requests[0].from_user_id, "U3");
    assert_eq!(moderator.requests[0].from_user_name, "Alice");
}

/// An identity outside the resolved list gets the fallback label.
#[test]
fn unresolved_requester_gets_fallback_label() {
    let mut moderator = ConsentModerator::new(vec![user("U3", "Alice")]);
    moderator.refresh(&vec![request_from("U9")]);

    assert_eq!(moderator.requests.len(), 1);
    assert_eq!(moderator.requests[0].from_user_name, "Unknown User");
}

/// The working set is replaced wholesale at each poll: a request not
/// repeated in the next batch disappears, decided or not.
#[test]
fn working_set_replaced_each_poll() {
    let mut moderator = ConsentModerator::new(vec![user("U3", "Alice"), user("U4", "Bob")]);
    moderator.refresh(&vec![request_from("U3")]);
    assert_eq!(moderator.requests.len(), 1);

    moderator.refresh(&vec![request_from("U4")]);
    assert_eq!(moderator.requests.len(), 1);
    assert_eq!(moderator.requests[0].from_user_id, "U4");

    moderator.refresh(&vec![]);
    assert!(moderator.requests.is_empty());
}

/// Within one batch at most one entry per requester is kept, and
/// messages of other kinds are not consent requests.
#[test]
fn duplicate_requests_collapse() {
    let mut moderator = ConsentModerator::new(vec![user("U3", "Alice")]);
    let mut other = request_from("U3");
    other.signal_type = "offer".to_string();
    moderator.refresh(&vec![
        request_from("U3"),
        request_from("U3"),
        other,
        request_from("U5"),
    ]);

    assert_eq!(moderator.requests.len(), 2);
    assert_eq!(moderator.requests[0].from_user_id, "U3");
    assert_eq!(moderator.requests[1].from_user_id, "U5");
}

/// Approval produces the approval message once; after the send succeeds
/// and the removal is reported, a second approval for the same
/// requester is a no-op.
#[test]
fn approve_is_idempotent() {
    let mut moderator = ConsentModerator::new(vec![user("U3", "Alice")]);
    moderator.refresh(&vec![request_from("U3")]);

    let first = moderator.approve("U3");
    let message = first.expect("an outstanding request must produce a message");
    assert_decision(&message, "U3", "screen_share_approved", true);
    // Producing the message does not touch the working set.
    assert_eq!(moderator.requests.len(), 1);

    // The host sent it successfully: the entry leaves at once.
    moderator.decision_sent("U3");
    assert!(moderator.requests.is_empty());

    let second = moderator.approve("U3");
    assert!(second.is_none(), "no duplicate approval message");
}

/// When the send fails the host reports no success, so the entry stays
/// in the working set and the decision can be retried.
#[test]
fn failed_send_keeps_request() {
    let mut moderator = ConsentModerator::new(vec![user("U3", "Alice")]);
    moderator.refresh(&vec![request_from("U3")]);

    let message = moderator.approve("U3").expect("an approval message");
    assert_decision(&message, "U3", "screen_share_approved", true);
    // The send failed: decision_sent is never called.
    assert_eq!(moderator.requests.len(), 1);
    assert_eq!(moderator.requests[0].from_user_id, "U3");

    // A later attempt still finds the request outstanding.
    assert!(moderator.approve("U3").is_some());
}

/// Rejection mirrors approval with the opposite flag and tag.
#[test]
fn reject_sends_rejection_once() {
    let mut moderator = ConsentModerator::new(vec![user("U3", "Alice")]);
    moderator.refresh(&vec![request_from("U3"), request_from("U5")]);

    let message = moderator.reject("U3").expect("a rejection message");
    assert_decision(&message, "U3", "screen_share_rejected", false);
    moderator.decision_sent("U3");
    assert_eq!(moderator.requests.len(), 1);
    assert_eq!(moderator.requests[0].from_user_id, "U5");

    assert!(moderator.reject("U3").is_none());
}

/// A decision for a requester who was never outstanding sends nothing,
/// and a stale success report for one removes nothing else.
#[test]
fn decision_without_request_is_a_no_op() {
    let mut moderator = ConsentModerator::new(vec![user("U3", "Alice")]);
    moderator.refresh(&vec![request_from("U3")]);

    assert!(moderator.approve("U4").is_none());
    assert_eq!(moderator.requests.len(), 1);

    moderator.decision_sent("U4");
    assert_eq!(moderator.requests.len(), 1);
    assert_eq!(moderator.requests[0].from_user_id, "U3");
}
