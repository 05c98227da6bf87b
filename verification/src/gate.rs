//! Access gate: the request-intercepting policy applied to every protected
//! route. It looks for an `Authorization` header with the bearer scheme,
//! validates the carried token, and either admits the request with the
//! resolved subject attached or rejects it — one generic rejection, whatever
//! the reason, so nothing about why validation failed leaks to the caller.

use crate::token::{token_of, validate};
use vstd::prelude::*;

verus! {

/// Whether a header value starts with the literal bearer-scheme prefix
/// `"Bearer "`.
pub open spec fn has_bearer_prefix(h: Seq<char>) -> bool {
    h.len() >= 7 && h[0] == 'B' && h[1] == 'e' && h[2] == 'a' && h[3] == 'r' && h[4] == 'e'
        && h[5] == 'r' && h[6] == ' '
}

/// The token substring carried by an `Authorization` header, if the header
/// is present and uses the bearer scheme.
pub open spec fn bearer_of(header: Option<&str>) -> Option<Seq<char>> {
    match header {
        Some(h) => if has_bearer_prefix(h@) {
            Some(h@.skip(7))
        } else {
            None
        },
        None => None,
    }
}

/// The decision on one request: forward to the protected handler with
/// the resolved subject attached, or answer unauthorized. Terminal either
/// way; no retry, no partial admission.
#[derive(Debug, Clone, PartialEq, Eq)]
pub enum GateDecision {
    /// Forward the request; the field is the validated token's subject.
    Admit(String),
    /// Reject with the generic unauthorized response.
    Reject,
}

/// Strip the bearer scheme from an `Authorization` header value, if the
/// header is present and carries it.
pub fn extract_bearer<'a>(header: Option<&'a str>) -> (r: Option<&'a str>)
    ensures
        match r {
            Some(t) => bearer_of(header) == Some(t@),
            None => bearer_of(header) is None,
        },
{
    match header {
        Some(h) => {
            let n = h.unicode_len();
            if n >= 7 && h.get_char(0) == 'B' && h.get_char(1) == 'e' && h.get_char(2) == 'a'
                && h.get_char(3) == 'r' && h.get_char(4) == 'e' && h.get_char(5) == 'r'
                && h.get_char(6) == ' ' {
                Some(h.substring_char(7, n))
            } else {
                None
            }
        },
        None => None,
    }
}

/// Apply the admission policy at time `now`: a missing header, a non-bearer
/// scheme, and a token that fails validation are all rejected alike; a
/// well-signed unexpired token is admitted with its subject resolved.
pub fn authorize(header: Option<&str>, secret: &str, now: u64) -> (r: GateDecision)
    ensures
        bearer_of(header) is None ==> r == GateDecision::Reject,
        forall|s: Seq<char>, e: u64|
            bearer_of(header) == Some(#[trigger] token_of(s, e, secret@)) && now < e
                ==> (r matches GateDecision::Admit(u) && u@ == s),
        forall|s: Seq<char>, e: u64|
            bearer_of(header) == Some(#[trigger] token_of(s, e, secret@)) && e <= now
                ==> r == GateDecision::Reject,
        forall|s: Seq<char>, e: u64, k: Seq<char>|
            k != secret@ && bearer_of(header) == Some(#[trigger] token_of(s, e, k))
                ==> r == GateDecision::Reject,
{
    match extract_bearer(header) {
        Some(token) => match validate(token, secret, now) {
            Ok(subject) => GateDecision::Admit(subject),
            Err(_) => GateDecision::Reject,
        },
        None => GateDecision::Reject,
    }
}

/// Externally visible status of a decision: the wrapped handler's
/// success, or the one generic unauthorized answer.
pub fn gate_status(decision: &GateDecision) -> (code: u16)
    ensures
        decision is Admit <==> code == 200,
        decision is Reject <==> code == 401,
{
    match decision {
        GateDecision::Admit(_) => 200,
        GateDecision::Reject => 401,
    }
}

/// Configuration of the access gate: the process-wide signing secret, built
/// once at startup and shared read-only with the token codec.
pub struct JwtMiddleware {
    /// The symmetric signing secret; the same one must issue and verify.
    pub secret: String,
}

impl JwtMiddleware {
    /// Decide one request from its `Authorization` header at time `now`.
    pub fn authorize(&self, header: Option<&str>, now: u64) -> (r: GateDecision)
        ensures
            bearer_of(header) is None ==> r == GateDecision::Reject,
            forall|s: Seq<char>, e: u64|
                bearer_of(header) == Some(#[trigger] token_of(s, e, self.secret@)) && now < e
                    ==> (r matches GateDecision::Admit(u) && u@ == s),
            forall|s: Seq<char>, e: u64|
                bearer_of(header) == Some(#[trigger] token_of(s, e, self.secret@)) && e <= now
                    ==> r == GateDecision::Reject,
            forall|s: Seq<char>, e: u64, k: Seq<char>|
                k != self.secret@ && bearer_of(header) == Some(#[trigger] token_of(s, e, k))
                    ==> r == GateDecision::Reject,
    {
        authorize(header, self.secret.as_str(), now)
    }
}

} // verus!
