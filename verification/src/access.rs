//! Who may call the gateway at all.

use vstd::prelude::*;
use vstd::string::*;
use crate::error::GatewayError;
use crate::text::{contains, last_segment, occurs_in, tail_after_last};

verus! {

/// The rule that callers are held to: a token that every call has to
/// present, and optionally the list of addresses that calls may come from.
#[derive(Debug, Clone, PartialEq, Eq)]
pub struct AccessPolicy {
    pub allowed_ips: Option<String>,
    pub api_token: String,
}

/// The token that an `Authorization` header presents: what follows its last
/// space, which is all of it where it holds none.
pub open spec fn presented_token(authorization: Seq<char>) -> Seq<char> {
    last_segment(authorization, ' ')
}

/// Whether a call from `forwarded_for` that presents `authorization` is let
/// through. Where a list of addresses is set, the caller's address must be
/// known and stand in the list; and the token presented must be the
/// configured one.
pub open spec fn lets_through(
    allowed_ips: Option<Seq<char>>,
    api_token: Seq<char>,
    forwarded_for: Seq<char>,
    authorization: Seq<char>,
) -> bool {
    &&& allowed_ips matches Some(list) ==> forwarded_for.len() > 0 && occurs_in(
        forwarded_for,
        list,
    )
    &&& presented_token(authorization) == api_token
}

impl AccessPolicy {
    /// Checks one call against the policy. A header that the call does not
    /// carry is given as the empty text.
    pub fn check(&self, forwarded_for: &str, authorization: &str) -> (r: Result<(), GatewayError>)
        ensures
            r == (if lets_through(
                match self.allowed_ips {
                    Some(list) => Some(list@),
                    None => None,
                },
                self.api_token@,
                forwarded_for@,
                authorization@,
            ) {
                Ok::<(), GatewayError>(())
            } else {
                Err::<(), GatewayError>(GatewayError::Forbidden)
            }),
    {
        match &self.allowed_ips {
            Some(list) => {
                if forwarded_for.is_empty() || !contains(list.as_str(), forwarded_for) {
                    return Err(GatewayError::Forbidden);
                }
            },
            None => {},
        }
        let presented = tail_after_last(authorization, ' ').to_owned();
        if presented == self.api_token {
            Ok(())
        } else {
            Err(GatewayError::Forbidden)
        }
    }
}

} // verus!
