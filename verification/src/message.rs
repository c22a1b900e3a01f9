//! The wire unit of the relay and its classification.
//!
//! A message carries sender, recipient, a kind tag and an open key-value
//! payload whose required shape is determined by the kind.  Each consumer
//! classifies a message before acting on it; an unrecognized kind or a
//! malformed payload classifies as `Ignored`, never as an abort.

use vstd::prelude::*;

verus! {

/// One value of the open payload map.
///
/// The payload is modelled with the shapes the protocol uses: text,
/// non-negative integers, booleans, and nested maps.  `Opaque` stands for
/// any other wire value; every consumer treats it as malformed.
#[derive(Debug, PartialEq)]
pub enum PayloadValue {
    Text(String),
    Number(u64),
    Flag(bool),
    Table(Vec<(String, PayloadValue)>),
    Opaque,
}

/// Wire unit exchanged through the relay.
#[derive(Debug, PartialEq)]
pub struct SignalMessage {
    pub from_user_id: String,
    pub to_user_id: String,
    pub signal_type: String,
    pub payload: Vec<(String, PayloadValue)>,
}

/// Mathematical model of a message: identities and tag as character
/// sequences, payload as the entry sequence.
pub struct MessageModel {
    pub from_user_id: Seq<char>,
    pub to_user_id: Seq<char>,
    pub signal_type: Seq<char>,
    pub payload: Seq<(String, PayloadValue)>,
}

impl View for SignalMessage {
    type V = MessageModel;

    open spec fn view(&self) -> MessageModel {
        MessageModel {
            from_user_id: self.from_user_id@,
            to_user_id: self.to_user_id@,
            signal_type: self.signal_type@,
            payload: self.payload@,
        }
    }
}

impl DeepView for SignalMessage {
    type V = MessageModel;

    open spec fn deep_view(&self) -> MessageModel {
        self.view()
    }
}

/// First entry of `entries` whose key reads `key`, if any.
pub open spec fn spec_lookup(entries: Seq<(String, PayloadValue)>, key: Seq<char>) -> Option<
    PayloadValue,
>
    decreases entries.len(),
{
    if entries.len() == 0 {
        None
    } else if entries[0].0@ == key {
        Some(entries[0].1)
    } else {
        spec_lookup(entries.drop_first(), key)
    }
}

/// `spec_lookup` misses a key that no entry carries.
pub proof fn lemma_lookup_absent(entries: Seq<(String, PayloadValue)>, key: Seq<char>)
    requires
        forall|i: int| 0 <= i < entries.len() ==> entries[i].0@ != key,
    ensures
        spec_lookup(entries, key) is None,
    decreases entries.len(),
{
    if entries.len() > 0 {
        lemma_lookup_absent(entries.drop_first(), key);
    }
}

/// `spec_lookup` finds the first entry that carries its key.
pub proof fn lemma_lookup_found(entries: Seq<(String, PayloadValue)>, key: Seq<char>, i: int)
    requires
        0 <= i < entries.len(),
        entries[i].0@ == key,
        forall|j: int| 0 <= j < i ==> entries[j].0@ != key,
    ensures
        spec_lookup(entries, key) == Some(entries[i].1),
    decreases entries.len(),
{
    if i > 0 {
        lemma_lookup_found(entries.drop_first(), key, i - 1);
    }
}

/// Equality of text by content.
pub(crate) fn text_eq(a: &str, b: &str) -> (r: bool)
    ensures
        r == (a@ == b@),
{
    let owned_a: String = a.to_owned();
    let owned_b: String = b.to_owned();
    owned_a == owned_b
}

/// Borrow the value under `key`, searching entries front to back.
pub fn lookup<'a>(entries: &'a Vec<(String, PayloadValue)>, key: &str) -> (r: Option<
    &'a PayloadValue,
>)
    ensures
        match r {
            Some(v) => spec_lookup(entries@, key@) == Some(*v),
            None => spec_lookup(entries@, key@) is None,
        },
{
    let n = entries.len();
    let mut i: usize = 0;
    assert(entries@.skip(0) =~= entries@);
    while i < n
        invariant
            i <= n,
            n == entries@.len(),
            spec_lookup(entries@, key@) == spec_lookup(entries@.skip(i as int), key@),
        decreases n - i,
    {
        assert(entries@.skip(i as int)[0] == entries@[i as int]);
        if text_eq(entries[i].0.as_str(), key) {
            return Some(&entries[i].1);
        }
        assert(entries@.skip(i as int).drop_first() =~= entries@.skip(i + 1));
        i = i + 1;
    }
    assert(entries@.skip(n as int).len() == 0);
    None
}

/// The kinds of wire messages the protocol knows, and `Unknown` for the
/// rest; future tags arrive as `Unknown` and are ignored.
#[derive(PartialEq, Eq, Structural)]
pub enum SignalKind {
    Offer,
    Answer,
    IceCandidate,
    RequestScreenShare,
    ScreenShareApproved,
    ScreenShareRejected,
    Unknown,
}

/// Kind denoted by a tag.
pub open spec fn spec_kind(tag: Seq<char>) -> SignalKind {
    if tag == "offer"@ {
        SignalKind::Offer
    } else if tag == "answer"@ {
        SignalKind::Answer
    } else if tag == "ice_candidate"@ {
        SignalKind::IceCandidate
    } else if tag == "request_screen_share"@ {
        SignalKind::RequestScreenShare
    } else if tag == "screen_share_approved"@ {
        SignalKind::ScreenShareApproved
    } else if tag == "screen_share_rejected"@ {
        SignalKind::ScreenShareRejected
    } else {
        SignalKind::Unknown
    }
}

/// The six protocol tags read pairwise differently, so `spec_kind`
/// sends each tag to its own kind.
pub proof fn lemma_tags_distinct()
    ensures
        "offer"@ != "answer"@,
        "offer"@ != "ice_candidate"@,
        "offer"@ != "request_screen_share"@,
        "offer"@ != "screen_share_approved"@,
        "offer"@ != "screen_share_rejected"@,
        "answer"@ != "ice_candidate"@,
        "answer"@ != "request_screen_share"@,
        "answer"@ != "screen_share_approved"@,
        "answer"@ != "screen_share_rejected"@,
        "ice_candidate"@ != "request_screen_share"@,
        "ice_candidate"@ != "screen_share_approved"@,
        "ice_candidate"@ != "screen_share_rejected"@,
        "request_screen_share"@ != "screen_share_approved"@,
        "request_screen_share"@ != "screen_share_rejected"@,
        "screen_share_approved"@ != "screen_share_rejected"@,
{
    reveal_strlit("offer");
    reveal_strlit("answer");
    reveal_strlit("ice_candidate");
    reveal_strlit("request_screen_share");
    reveal_strlit("screen_share_approved");
    reveal_strlit("screen_share_rejected");
    assert("offer"@.len() == 5);
    assert("answer"@.len() == 6);
    assert("ice_candidate"@.len() == 13);
    assert("request_screen_share"@.len() == 20);
    assert("screen_share_approved"@.len() == 21);
    assert("screen_share_rejected"@.len() == 21);
    assert("screen_share_approved"@[13] == 'a');
    assert("screen_share_rejected"@[13] == 'r');
}

/// The three keys of a candidate description read pairwise differently.
pub proof fn lemma_candidate_keys_distinct()
    ensures
        "candidate"@ != "sdpMid"@,
        "candidate"@ != "sdpMLineIndex"@,
        "sdpMid"@ != "sdpMLineIndex"@,
{
    reveal_strlit("candidate");
    reveal_strlit("sdpMid");
    reveal_strlit("sdpMLineIndex");
    assert("candidate"@.len() == 9);
    assert("sdpMid"@.len() == 6);
    assert("sdpMLineIndex"@.len() == 13);
}

/// Read a tag into its kind.
pub fn kind_of(tag: &str) -> (k: SignalKind)
    ensures
        k == spec_kind(tag@),
{
    if text_eq(tag, "offer") {
        SignalKind::Offer
    } else if text_eq(tag, "answer") {
        SignalKind::Answer
    } else if text_eq(tag, "ice_candidate") {
        SignalKind::IceCandidate
    } else if text_eq(tag, "request_screen_share") {
        SignalKind::RequestScreenShare
    } else if text_eq(tag, "screen_share_approved") {
        SignalKind::ScreenShareApproved
    } else if text_eq(tag, "screen_share_rejected") {
        SignalKind::ScreenShareRejected
    } else {
        SignalKind::Unknown
    }
}

/// A connectivity candidate as carried in an `ice_candidate` payload:
/// the candidate line, the media identifier, and the media-line index.
#[derive(Debug, PartialEq)]
pub struct IceCandidateInfo {
    pub candidate: String,
    pub sdp_mid: Option<String>,
    pub sdp_m_line_index: Option<u16>,
}

/// Model of a candidate, by content.
pub struct CandidateModel {
    pub candidate: Seq<char>,
    pub sdp_mid: Option<Seq<char>>,
    pub sdp_m_line_index: Option<u16>,
}

impl View for IceCandidateInfo {
    type V = CandidateModel;

    open spec fn view(&self) -> CandidateModel {
        CandidateModel {
            candidate: self.candidate@,
            sdp_mid: match self.sdp_mid {
                Some(ref s) => Some(s@),
                None => None,
            },
            sdp_m_line_index: self.sdp_m_line_index,
        }
    }
}

impl DeepView for IceCandidateInfo {
    type V = CandidateModel;

    open spec fn deep_view(&self) -> CandidateModel {
        self.view()
    }
}

/// What one inbound message means to a consumer.
///
/// `Ignored` covers unknown kinds and malformed payloads alike: the
/// consumer drops the message and goes on.
#[derive(Debug, PartialEq)]
pub enum SignalEvent {
    Offer { sdp: String },
    Answer { sdp: String },
    Candidate { info: IceCandidateInfo },
    ConsentRequest,
    ConsentReply { approved: bool },
    Ignored,
}

/// Model of an event, by content.
pub enum EventModel {
    Offer { sdp: Seq<char> },
    Answer { sdp: Seq<char> },
    Candidate { info: CandidateModel },
    ConsentRequest,
    ConsentReply { approved: bool },
    Ignored,
}

impl View for SignalEvent {
    type V = EventModel;

    open spec fn view(&self) -> EventModel {
        match self {
            SignalEvent::Offer { sdp } => EventModel::Offer { sdp: sdp@ },
            SignalEvent::Answer { sdp } => EventModel::Answer { sdp: sdp@ },
            SignalEvent::Candidate { info } => EventModel::Candidate { info: info@ },
            SignalEvent::ConsentRequest => EventModel::ConsentRequest,
            SignalEvent::ConsentReply { approved } => EventModel::ConsentReply {
                approved: *approved,
            },
            SignalEvent::Ignored => EventModel::Ignored,
        }
    }
}

/// Candidate denoted by the nested description `inner`, if well formed:
/// the candidate line is required; the media identifier and media-line
/// index are optional, and an index that does not fit a media-line
/// position counts as absent.
pub open spec fn spec_candidate_of(inner: Seq<(String, PayloadValue)>) -> Option<CandidateModel> {
    match spec_lookup(inner, "candidate"@) {
        Some(PayloadValue::Text(c)) => Some(
            CandidateModel {
                candidate: c@,
                sdp_mid: match spec_lookup(inner, "sdpMid"@) {
                    Some(PayloadValue::Text(m)) => Some(m@),
                    _ => None,
                },
                sdp_m_line_index: match spec_lookup(inner, "sdpMLineIndex"@) {
                    Some(PayloadValue::Number(n)) => if n <= u16::MAX as u64 {
                        Some(n as u16)
                    } else {
                        None
                    },
                    _ => None,
                },
            },
        ),
        _ => None,
    }
}

/// Meaning of a message: the event its kind and payload denote.
///
/// The kind determines the required payload shape; a message that does
/// not meet it means `Ignored`.
pub open spec fn spec_classify(m: MessageModel) -> EventModel {
    match spec_kind(m.signal_type) {
        SignalKind::Offer => match spec_lookup(m.payload, "sdp"@) {
            Some(PayloadValue::Text(s)) => EventModel::Offer { sdp: s@ },
            _ => EventModel::Ignored,
        },
        SignalKind::Answer => match spec_lookup(m.payload, "sdp"@) {
            Some(PayloadValue::Text(s)) => EventModel::Answer { sdp: s@ },
            _ => EventModel::Ignored,
        },
        SignalKind::IceCandidate => match spec_lookup(m.payload, "candidate"@) {
            Some(PayloadValue::Table(inner)) => match spec_candidate_of(inner@) {
                Some(c) => EventModel::Candidate { info: c },
                None => EventModel::Ignored,
            },
            _ => EventModel::Ignored,
        },
        SignalKind::RequestScreenShare => EventModel::ConsentRequest,
        SignalKind::ScreenShareApproved => match spec_lookup(m.payload, "approved"@) {
            Some(PayloadValue::Flag(b)) => EventModel::ConsentReply { approved: b },
            _ => EventModel::Ignored,
        },
        SignalKind::ScreenShareRejected => match spec_lookup(m.payload, "approved"@) {
            Some(PayloadValue::Flag(b)) => EventModel::ConsentReply { approved: b },
            _ => EventModel::Ignored,
        },
        SignalKind::Unknown => EventModel::Ignored,
    }
}

/// Read the candidate description out of a nested payload table.
fn candidate_of(inner: &Vec<(String, PayloadValue)>) -> (r: Option<IceCandidateInfo>)
    ensures
        match r {
            Some(c) => spec_candidate_of(inner@) == Some(c@),
            None => spec_candidate_of(inner@) is None,
        },
{
    let line = match lookup(inner, "candidate") {
        Some(PayloadValue::Text(c)) => c.clone(),
        _ => { return None; },
    };
    let sdp_mid = match lookup(inner, "sdpMid") {
        Some(PayloadValue::Text(m)) => Some(m.clone()),
        _ => None,
    };
    let sdp_m_line_index = match lookup(inner, "sdpMLineIndex") {
        Some(PayloadValue::Number(n)) => if *n <= u16::MAX as u64 {
            Some(*n as u16)
        } else {
            None
        },
        _ => None,
    };
    Some(IceCandidateInfo { candidate: line, sdp_mid, sdp_m_line_index })
}

/// Classify one inbound message into the event it means.
pub fn classify(msg: &SignalMessage) -> (ev: SignalEvent)
    ensures
        ev@ == spec_classify(msg@),
{
    match kind_of(msg.signal_type.as_str()) {
        SignalKind::Offer => match lookup(&msg.payload, "sdp") {
            Some(PayloadValue::Text(s)) => SignalEvent::Offer { sdp: s.clone() },
            _ => SignalEvent::Ignored,
        },
        SignalKind::Answer => match lookup(&msg.payload, "sdp") {
            Some(PayloadValue::Text(s)) => SignalEvent::Answer { sdp: s.clone() },
            _ => SignalEvent::Ignored,
        },
        SignalKind::IceCandidate => match lookup(&msg.payload, "candidate") {
            Some(PayloadValue::Table(inner)) => match candidate_of(inner) {
                Some(info) => SignalEvent::Candidate { info },
                None => SignalEvent::Ignored,
            },
            _ => SignalEvent::Ignored,
        },
        SignalKind::RequestScreenShare => SignalEvent::ConsentRequest,
        SignalKind::ScreenShareApproved => match lookup(&msg.payload, "approved") {
            Some(PayloadValue::Flag(b)) => SignalEvent::ConsentReply { approved: *b },
            _ => SignalEvent::Ignored,
        },
        SignalKind::ScreenShareRejected => match lookup(&msg.payload, "approved") {
            Some(PayloadValue::Flag(b)) => SignalEvent::ConsentReply { approved: *b },
            _ => SignalEvent::Ignored,
        },
        SignalKind::Unknown => SignalEvent::Ignored,
    }
}

/// A message about to be handed to the transport.  The relay stamps the
/// sender, so only recipient, tag and payload are carried.
#[derive(Debug, PartialEq)]
pub struct OutboundSignal {
    pub to_user_id: String,
    pub signal_type: String,
    pub payload: Vec<(String, PayloadValue)>,
}

/// Meaning of an outbound message.  `Other` stands for a kind-payload
/// pair the protocol does not send; the builders below never produce it.
pub enum OutboundModel {
    Offer { to: Seq<char>, sdp: Seq<char> },
    Answer { to: Seq<char>, sdp: Seq<char> },
    Candidate { to: Seq<char>, info: CandidateModel },
    ConsentRequest { to: Seq<char> },
    ConsentDecision { to: Seq<char>, approved: bool },
    Other,
}

/// Meaning of an outbound kind-payload pair, read the same way an
/// inbound message is classified.
pub open spec fn spec_outbound(
    to: Seq<char>,
    tag: Seq<char>,
    payload: Seq<(String, PayloadValue)>,
) -> OutboundModel {
    match spec_kind(tag) {
        SignalKind::Offer => match spec_lookup(payload, "sdp"@) {
            Some(PayloadValue::Text(s)) => OutboundModel::Offer { to, sdp: s@ },
            _ => OutboundModel::Other,
        },
        SignalKind::Answer => match spec_lookup(payload, "sdp"@) {
            Some(PayloadValue::Text(s)) => OutboundModel::Answer { to, sdp: s@ },
            _ => OutboundModel::Other,
        },
        SignalKind::IceCandidate => match spec_lookup(payload, "candidate"@) {
            Some(PayloadValue::Table(inner)) => match spec_candidate_of(inner@) {
                Some(c) => OutboundModel::Candidate { to, info: c },
                None => OutboundModel::Other,
            },
            _ => OutboundModel::Other,
        },
        SignalKind::RequestScreenShare => OutboundModel::ConsentRequest { to },
        SignalKind::ScreenShareApproved => match spec_lookup(payload, "approved"@) {
            Some(PayloadValue::Flag(b)) => OutboundModel::ConsentDecision { to, approved: b },
            _ => OutboundModel::Other,
        },
        SignalKind::ScreenShareRejected => match spec_lookup(payload, "approved"@) {
            Some(PayloadValue::Flag(b)) => OutboundModel::ConsentDecision { to, approved: b },
            _ => OutboundModel::Other,
        },
        SignalKind::Unknown => OutboundModel::Other,
    }
}

impl View for OutboundSignal {
    type V = OutboundModel;

    open spec fn view(&self) -> OutboundModel {
        spec_outbound(self.to_user_id@, self.signal_type@, self.payload@)
    }
}

impl DeepView for OutboundSignal {
    type V = OutboundModel;

    open spec fn deep_view(&self) -> OutboundModel {
        self.view()
    }
}

/// An offer to `to`, carrying the session description under `sdp`.
pub fn offer_message(to: &str, sdp: &str) -> (m: OutboundSignal)
    ensures
        m@ == (OutboundModel::Offer { to: to@, sdp: sdp@ }),
{
    let mut payload: Vec<(String, PayloadValue)> = Vec::new();
    payload.push(("sdp".to_owned(), PayloadValue::Text(sdp.to_owned())));
    let m = OutboundSignal {
        to_user_id: to.to_owned(),
        signal_type: "offer".to_owned(),
        payload,
    };
    proof {
        lemma_lookup_found(m.payload@, "sdp"@, 0);
    }
    m
}

/// An answer to `to`, carrying the session description under `sdp`.
pub fn answer_message(to: &str, sdp: &str) -> (m: OutboundSignal)
    ensures
        m@ == (OutboundModel::Answer { to: to@, sdp: sdp@ }),
{
    let mut payload: Vec<(String, PayloadValue)> = Vec::new();
    payload.push(("sdp".to_owned(), PayloadValue::Text(sdp.to_owned())));
    let m = OutboundSignal {
        to_user_id: to.to_owned(),
        signal_type: "answer".to_owned(),
        payload,
    };
    proof {
        lemma_tags_distinct();
        lemma_lookup_found(m.payload@, "sdp"@, 0);
    }
    m
}

/// A locally discovered candidate for `to`, wrapped as the nested
/// description an `ice_candidate` payload carries.
pub fn candidate_message(to: &str, info: &IceCandidateInfo) -> (m: OutboundSignal)
    ensures
        m@ == (OutboundModel::Candidate { to: to@, info: info@ }),
{
    let mut inner: Vec<(String, PayloadValue)> = Vec::new();
    inner.push(("candidate".to_owned(), PayloadValue::Text(info.candidate.clone())));
    match &info.sdp_mid {
        Some(mid) => {
            inner.push(("sdpMid".to_owned(), PayloadValue::Text(mid.clone())));
        },
        None => {},
    }
    let ghost mid_extra: int = if info.sdp_mid is Some {
        1
    } else {
        0
    };
    match info.sdp_m_line_index {
        Some(idx) => {
            inner.push(("sdpMLineIndex".to_owned(), PayloadValue::Number(idx as u64)));
        },
        None => {},
    }
    proof {
        lemma_candidate_keys_distinct();
        lemma_lookup_found(inner@, "candidate"@, 0);
        if info.sdp_mid is Some {
            lemma_lookup_found(inner@, "sdpMid"@, 1);
        } else {
            lemma_lookup_absent(inner@, "sdpMid"@);
        }
        if info.sdp_m_line_index is Some {
            lemma_lookup_found(inner@, "sdpMLineIndex"@, 1 + mid_extra);
        } else {
            lemma_lookup_absent(inner@, "sdpMLineIndex"@);
        }
        assert(spec_candidate_of(inner@) == Some(info@));
    }
    let ghost inner_entries = inner@;
    let mut payload: Vec<(String, PayloadValue)> = Vec::new();
    payload.push(("candidate".to_owned(), PayloadValue::Table(inner)));
    let m = OutboundSignal {
        to_user_id: to.to_owned(),
        signal_type: "ice_candidate".to_owned(),
        payload,
    };
    proof {
        lemma_tags_distinct();
        lemma_lookup_found(m.payload@, "candidate"@, 0);
        assert(spec_candidate_of(m.payload@[0].1->Table_0@) == Some(info@));
    }
    m
}

/// A request to view `to`'s screen.
pub fn consent_request_message(to: &str) -> (m: OutboundSignal)
    ensures
        m@ == (OutboundModel::ConsentRequest { to: to@ }),
{
    let m = OutboundSignal {
        to_user_id: to.to_owned(),
        signal_type: "request_screen_share".to_owned(),
        payload: Vec::new(),
    };
    proof {
        lemma_tags_distinct();
    }
    m
}

/// The reply to a screen-share request: approval when `approved`,
/// rejection otherwise, the flag repeated in the payload.
pub fn consent_decision_message(to: &str, approved: bool) -> (m: OutboundSignal)
    ensures
        m@ == (OutboundModel::ConsentDecision { to: to@, approved }),
        approved ==> m.signal_type@ == "screen_share_approved"@,
        !approved ==> m.signal_type@ == "screen_share_rejected"@,
{
    let mut payload: Vec<(String, PayloadValue)> = Vec::new();
    payload.push(("approved".to_owned(), PayloadValue::Flag(approved)));
    let tag: &str = if approved {
        "screen_share_approved"
    } else {
        "screen_share_rejected"
    };
    let m = OutboundSignal { to_user_id: to.to_owned(), signal_type: tag.to_owned(), payload };
    proof {
        lemma_tags_distinct();
        lemma_lookup_found(m.payload@, "approved"@, 0);
    }
    m
}

} // verus!
