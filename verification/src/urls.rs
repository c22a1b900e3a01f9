//! Endpoints of the relay and access-control service, and URL assembly.

use vstd::prelude::*;
use vstd::string::StringExecFns;

verus! {

pub const API_BASE_URL: &'static str =
    "https://share-termial-hcdmbfd8gwb8ehb6.centralindia-01.azurewebsites.net";

pub const AUTH_LOGIN: &'static str = "/auth/login";

pub const AUTH_SIGNUP: &'static str = "/auth/sign-up";

pub const ACCESS_CONNECTIONS: &'static str = "/access/connections";

pub const ACCESS_VIEWERS: &'static str = "/access/viewers";

pub const ACCESS_REQUEST: &'static str = "/access/request";

pub const ACCESS_REQUESTS_INCOMING: &'static str = "/access/requests/incoming";

pub const ACCESS_REQUESTS_OUTGOING: &'static str = "/access/requests/outgoing";

pub const ACCESS_REQUESTS: &'static str = "/access/requests";

pub const SIGNAL_SEND: &'static str = "/signal/send";

pub const SIGNAL_INBOX: &'static str = "/signal/inbox";

/// Absolute URL of an endpoint: the base joined with the endpoint path.
pub fn build_url(endpoint: &str) -> (url: String)
    ensures
        url@ == API_BASE_URL@ + endpoint@,
{
    let mut url: String = API_BASE_URL.to_owned();
    url.append(endpoint);
    url
}

} // verus!
