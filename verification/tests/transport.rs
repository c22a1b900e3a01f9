//! The transport-facing pieces: error policy, status classification,
//! URL assembly, credential checks, message classification and the
//! outbound builders.

use peer_signaling::auth::is_authenticated;
use peer_signaling::message::IceCandidateInfo;
use peer_signaling::message::PayloadValue;
use peer_signaling::message::SignalEvent;
use peer_signaling::message::SignalMessage;
use peer_signaling::message::candidate_message;
use peer_signaling::message::classify;
use peer_signaling::message::consent_decision_message;
use peer_signaling::message::consent_request_message;
use peer_signaling::message::offer_message;
use peer_signaling::poller::PollDirective;
use peer_signaling::poller::TransportError;
use peer_signaling::poller::poll_failure_directive;
use peer_signaling::poller::status_outcome;
use peer_signaling::urls;

fn message(kind: &str, payload: Vec<(String, PayloadValue)>) -> SignalMessage {
    SignalMessage {
        from_user_id: "U1".to_string(),
        to_user_id: "self".to_string(),
        signal_type: kind.to_string(),
        payload,
    }
}

/// A poll failing with the unauthenticated status sends the host to the
/// login view; other failures keep the loop polling.
#[test]
fn unauthorized_poll_redirects_to_login() {
    let d = poll_failure_directive(&TransportError::ServerError { status: 401 });
    assert_eq!(d, PollDirective::RedirectToLogin);

    assert_eq!(
        poll_failure_directive(&TransportError::AuthError),
        PollDirective::RedirectToLogin
    );
    assert_eq!(
        poll_failure_directive(&TransportError::NetworkError),
        PollDirective::KeepPolling
    );
    assert_eq!(
        poll_failure_directive(&TransportError::ServerError { status: 500 }),
        PollDirective::KeepPolling
    );
    assert_eq!(
        poll_failure_directive(&TransportError::ServerError { status: 404 }),
        PollDirective::KeepPolling
    );
}

/// Only the success range is a success; everything else carries its
/// status out as a server error.
#[test]
fn status_classification() {
    assert_eq!(status_outcome(200), Ok(()));
    assert_eq!(status_outcome(204), Ok(()));
    assert_eq!(status_outcome(299), Ok(()));
    assert_eq!(
        status_outcome(199),
        Err(TransportError::ServerError { status: 199 })
    );
    assert_eq!(
        status_outcome(300),
        Err(TransportError::ServerError { status: 300 })
    );
    assert_eq!(
        status_outcome(401),
        Err(TransportError::ServerError { status: 401 })
    );
    assert_eq!(
        status_outcome(500),
        Err(TransportError::ServerError { status: 500 })
    );
}

/// URLs are the base joined with the endpoint path.
#[test]
fn urls_join_base_and_endpoint() {
    assert_eq!(
        urls::build_url(urls::SIGNAL_INBOX),
        format!("{}/signal/inbox", urls::API_BASE_URL)
    );
    assert_eq!(
        urls::build_url(urls::SIGNAL_SEND),
        format!("{}/signal/send", urls::API_BASE_URL)
    );
    assert_eq!(
        urls::build_url(urls::ACCESS_CONNECTIONS),
        format!("{}/access/connections", urls::API_BASE_URL)
    );
}

/// Authenticated means a token is stored.
#[test]
fn authentication_is_token_presence() {
    assert!(is_authenticated(&Some("a-token".to_string())));
    assert!(!is_authenticated(&None));
}

/// Classification reads each kind's payload shape, and nothing else.
#[test]
fn classification_by_kind_and_shape() {
    let ev = classify(&message(
        "offer",
        vec![("sdp".to_string(), PayloadValue::Text("v=0".to_string()))],
    ));
    assert_eq!(ev, SignalEvent::Offer { sdp: "v=0".to_string() });

    let ev = classify(&message(
        "answer",
        vec![("sdp".to_string(), PayloadValue::Text("v=0a".to_string()))],
    ));
    assert_eq!(ev, SignalEvent::Answer { sdp: "v=0a".to_string() });

    let ev = classify(&message("request_screen_share", vec![]));
    assert_eq!(ev, SignalEvent::ConsentRequest);

    let ev = classify(&message(
        "screen_share_approved",
        vec![("approved".to_string(), PayloadValue::Flag(true))],
    ));
    assert_eq!(ev, SignalEvent::ConsentReply { approved: true });

    let ev = classify(&message("some_future_kind", vec![]));
    assert_eq!(ev, SignalEvent::Ignored);

    // Required entries missing: malformed, hence ignored.
    assert_eq!(classify(&message("offer", vec![])), SignalEvent::Ignored);
    assert_eq!(
        classify(&message("screen_share_rejected", vec![])),
        SignalEvent::Ignored
    );
}

/// A candidate payload is read field by field; the optional parts may
/// be absent, and an index too large for a media line counts as absent.
#[test]
fn candidate_classification() {
    let full = message(
        "ice_candidate",
        vec![(
            "candidate".to_string(),
            PayloadValue::Table(vec![
                ("candidate".to_string(), PayloadValue::Text("candidate:1".to_string())),
                ("sdpMid".to_string(), PayloadValue::Text("0".to_string())),
                ("sdpMLineIndex".to_string(), PayloadValue::Number(2)),
            ]),
        )],
    );
    match classify(&full) {
        SignalEvent::Candidate { info } => {
            assert_eq!(info.candidate, "candidate:1");
            assert_eq!(info.sdp_mid, Some("0".to_string()));
            assert_eq!(info.sdp_m_line_index, Some(2));
        }
        other => panic!("expected a candidate, got {:?}", other),
    }

    let bare = message(
        "ice_candidate",
        vec![(
            "candidate".to_string(),
            PayloadValue::Table(vec![(
                "candidate".to_string(),
                PayloadValue::Text("candidate:2".to_string()),
            )]),
        )],
    );
    match classify(&bare) {
        SignalEvent::Candidate { info } => {
            assert_eq!(info.candidate, "candidate:2");
            assert_eq!(info.sdp_mid, None);
            assert_eq!(info.sdp_m_line_index, None);
        }
        other => panic!("expected a candidate, got {:?}", other),
    }

    let oversized = message(
        "ice_candidate",
        vec![(
            "candidate".to_string(),
            PayloadValue::Table(vec![
                ("candidate".to_string(), PayloadValue::Text("candidate:3".to_string())),
                ("sdpMLineIndex".to_string(), PayloadValue::Number(70000)),
            ]),
        )],
    );
    match classify(&oversized) {
        SignalEvent::Candidate { info } => {
            assert_eq!(info.sdp_m_line_index, None);
        }
        other => panic!("expected a candidate, got {:?}", other),
    }

    // Without the candidate line the description means nothing.
    let missing_line = message(
        "ice_candidate",
        vec![(
            "candidate".to_string(),
            PayloadValue::Table(vec![("sdpMid".to_string(), PayloadValue::Text("0".to_string()))]),
        )],
    );
    assert_eq!(classify(&missing_line), SignalEvent::Ignored);
}

/// What the builders send is what the classifier reads back.
#[test]
fn built_messages_classify_back() {
    let offer = offer_message("U2", "v=0offer");
    let ev = classify(&SignalMessage {
        from_user_id: "me".to_string(),
        to_user_id: offer.to_user_id.clone(),
        signal_type: offer.signal_type.clone(),
        payload: offer.payload,
    });
    assert_eq!(ev, SignalEvent::Offer { sdp: "v=0offer".to_string() });

    let candidate = candidate_message(
        "U2",
        &IceCandidateInfo {
            candidate: "candidate:5".to_string(),
            sdp_mid: Some("0".to_string()),
            sdp_m_line_index: Some(1),
        },
    );
    let ev = classify(&SignalMessage {
        from_user_id: "me".to_string(),
        to_user_id: candidate.to_user_id.clone(),
        signal_type: candidate.signal_type.clone(),
        payload: candidate.payload,
    });
    match ev {
        SignalEvent::Candidate { info } => {
            assert_eq!(info.candidate, "candidate:5");
            assert_eq!(info.sdp_mid, Some("0".to_string()));
            assert_eq!(info.sdp_m_line_index, Some(1));
        }
        other => panic!("expected a candidate, got {:?}", other),
    }

    let request = consent_request_message("U6");
    assert_eq!(request.signal_type, "request_screen_share");
    assert_eq!(request.to_user_id, "U6");

    let approval = consent_decision_message("U6", true);
    assert_eq!(approval.signal_type, "screen_share_approved");
    let rejection = consent_decision_message("U6", false);
    assert_eq!(rejection.signal_type, "screen_share_rejected");
    assert_eq!(
        rejection.payload,
        vec![("approved".to_string(), PayloadValue::Flag(false))]
    );
}
