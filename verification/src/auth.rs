//! The access decision gating the entry point: a bearer token checked against
//! a configured key, with access open when no key is configured.

use vstd::prelude::*;
use vstd::string::StrSliceExecFns;
use crate::textfmt::{has_prefix, str_equal};

verus! {

/// The outcome of the access check.
#[derive(Debug, PartialEq, Eq, Structural)]
pub enum AuthDecision {
    Allow,
    Deny,
}

/// The scheme prefix expected on the credential header.
pub open spec fn bearer_prefix() -> Seq<char> {
    "Bearer "@
}

/// The header's token: every leading repetition of the scheme prefix
/// removed.
pub open spec fn strip_bearer(h: Seq<char>) -> Seq<char>
    decreases h.len(),
{
    if h.len() >= 7 && h.subrange(0, 7) == bearer_prefix() {
        strip_bearer(h.skip(7))
    } else {
        h
    }
}

/// The access decision: open when no key is configured or the configured key
/// is empty; otherwise the header must carry the scheme prefix and its token
/// must equal the key.
pub open spec fn spec_auth_decision(key: Option<Seq<char>>, header: Option<Seq<char>>) -> AuthDecision {
    match key {
        None => AuthDecision::Allow,
        Some(k) => if k.len() == 0 {
            AuthDecision::Allow
        } else {
            match header {
                Some(h) => if h.len() >= 7 && h.subrange(0, 7) == bearer_prefix() && strip_bearer(h)
                    == k {
                    AuthDecision::Allow
                } else {
                    AuthDecision::Deny
                },
                None => AuthDecision::Deny,
            }
        },
    }
}

fn strip_bearer_exec(h: &str) -> (r: String)
    ensures
        r@ == strip_bearer(h@),
    decreases h@.len(),
{
    proof {
        reveal_strlit("Bearer ");
    }
    if has_prefix(h, "Bearer ") {
        let rest = h.substring_char(7, h.unicode_len());
        strip_bearer_exec(rest)
    } else {
        h.to_owned()
    }
}

/// Decides access from the configured key and the credential header, both
/// absent when unset.
pub fn auth_decision(required_key: Option<&str>, auth_header: Option<&str>) -> (r: AuthDecision)
    ensures
        r == spec_auth_decision(
            match required_key {
                Some(k) => Some(k@),
                None => None,
            },
            match auth_header {
                Some(h) => Some(h@),
                None => None,
            },
        ),
{
    proof {
        reveal_strlit("Bearer ");
    }
    match required_key {
        None => AuthDecision::Allow,
        Some(k) => {
            if k.unicode_len() == 0 {
                AuthDecision::Allow
            } else {
                match auth_header {
                    None => AuthDecision::Deny,
                    Some(h) => {
                        if has_prefix(h, "Bearer ") {
                            let token = strip_bearer_exec(h);
                            if str_equal(token.as_str(), k) {
                                AuthDecision::Allow
                            } else {
                                AuthDecision::Deny
                            }
                        } else {
                            AuthDecision::Deny
                        }
                    },
                }
            }
        },
    }
}

} // verus!
