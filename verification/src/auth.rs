//! Credential presence checks.
//!
//! The host keeps the bearer token in its own storage; the library only
//! decides what the presence or absence of a stored token means.

use vstd::prelude::*;

verus! {

/// A caller is authenticated exactly when a token is stored.
pub fn is_authenticated(token: &Option<String>) -> (r: bool)
    ensures
        r == token is Some,
{
    match token {
        Some(_) => true,
        None => false,
    }
}

} // verus!
