//! Verified core of a peer-to-peer screen-sharing client.
//!
//! Two parties that have been matched by an access-control service
//! negotiate a direct media session over a polled message relay.  This
//! crate holds the logic of that negotiation: the wire-message model and
//! its classification, the per-target session state machine with its
//! candidate-buffering invariant, the inbox poller's dispatch and error
//! policy, and the screen-share consent moderator.  The host is expected
//! to supply the transport (HTTP relay calls), the platform negotiation
//! primitive (offer/answer/candidate operations) and the capture
//! primitive, and to feed their results back in as plain values.

use vstd::prelude::*;

pub mod auth;
pub mod consent;
pub mod laws;
pub mod message;
pub mod poller;
pub mod session;
pub mod urls;

verus! {

} // verus!
